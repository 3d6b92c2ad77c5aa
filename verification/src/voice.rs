use vstd::prelude::*;

verus! {

/// Unrecoverable startup failures of voice enumeration.
#[derive(Debug, PartialEq, Eq, Clone, Copy)]
pub enum CatalogError {
    /// The actuation server returned an empty voice list.
    EmptyCatalog,
}

/// The ordered, non-empty set of voice identifiers the actuation server
/// offered at startup. The active voice is always the first identifier, in
/// the order the server returned them; no other selection logic exists.
#[derive(Debug)]
pub struct VoiceCatalog {
    ids: Vec<u16>,
}

impl View for VoiceCatalog {
    type V = Seq<u16>;

    closed spec fn view(&self) -> Seq<u16> {
        self.ids@
    }
}

impl VoiceCatalog {
    /// A catalog is never empty: emptiness is rejected at construction.
    pub open spec fn wf(&self) -> bool {
        self@.len() > 0
    }

    /// Validate the identifier list the server returned: an empty list is
    /// the owed startup error, any other list is kept in server order.
    pub fn from_ids(ids: Vec<u16>) -> (r: Result<VoiceCatalog, CatalogError>)
        ensures
            ids@.len() == 0 ==> r == Err::<VoiceCatalog, CatalogError>(CatalogError::EmptyCatalog),
            ids@.len() > 0 ==> (r matches Ok(c) && c@ == ids@ && c.wf()),
    {
        if ids.len() == 0 {
            Err(CatalogError::EmptyCatalog)
        } else {
            Ok(VoiceCatalog { ids })
        }
    }

    /// The active voice: the first identifier the server returned, fixed
    /// for the lifetime of the catalog.
    pub fn active(&self) -> (r: u16)
        requires
            self.wf(),
        ensures
            r == self@[0],
    {
        self.ids[0]
    }

    pub fn len(&self) -> (r: usize)
        ensures
            r == self@.len(),
    {
        self.ids.len()
    }

    /// The identifiers in server order.
    pub fn ids(&self) -> (r: &Vec<u16>)
        ensures
            r@ == self@,
    {
        &self.ids
    }
}

} // verus!
