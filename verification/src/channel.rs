use vstd::prelude::*;

use crate::event::ChatEvent;
use crate::event::ChatEventV;
use crate::RELAY_CAPACITY;

verus! {

/// Bounded FIFO queue carrying chat events from the ingestion side to the
/// dispatch side. Capacity is fixed at [`RELAY_CAPACITY`]; an enqueue on a
/// full queue fails immediately and leaves the queue unchanged — there is no
/// blocking, no overflow buffering and no drop-oldest policy.
#[derive(Debug)]
pub struct RelayChannel {
    items: Vec<ChatEvent>,
}

impl View for RelayChannel {
    type V = Seq<ChatEventV>;

    closed spec fn view(&self) -> Seq<ChatEventV> {
        self.items@.map_values(|e: ChatEvent| e@)
    }
}

impl RelayChannel {
    /// The queue never holds more than [`RELAY_CAPACITY`] events.
    pub open spec fn wf(&self) -> bool {
        self@.len() <= RELAY_CAPACITY
    }

    /// A fresh, empty queue.
    pub fn new() -> (r: RelayChannel)
        ensures
            r.wf(),
            r@ == Seq::<ChatEventV>::empty(),
    {
        let r = RelayChannel { items: Vec::new() };
        proof {
            assert(r@ =~= Seq::<ChatEventV>::empty());
        }
        r
    }

    pub fn len(&self) -> (r: usize)
        ensures
            r == self@.len(),
    {
        self.items.len()
    }

    pub fn is_empty(&self) -> (r: bool)
        ensures
            r == (self@.len() == 0),
    {
        self.items.len() == 0
    }

    /// Non-blocking enqueue. Succeeds exactly when the queue is not full;
    /// on failure the rejected event is handed back and the queue is
    /// unchanged.
    pub fn try_enqueue(&mut self, ev: ChatEvent) -> (r: Result<(), ChatEvent>)
        requires
            old(self).wf(),
        ensures
            final(self).wf(),
            old(self)@.len() < RELAY_CAPACITY ==> {
                &&& r is Ok
                &&& final(self)@ == old(self)@.push(ev@)
            },
            old(self)@.len() == RELAY_CAPACITY ==> {
                &&& r matches Err(e) && e@ == ev@
                &&& final(self)@ == old(self)@
            },
    {
        if self.items.len() < RELAY_CAPACITY {
            let ghost pre = self@;
            let ghost evv = ev@;
            self.items.push(ev);
            proof {
                assert(self@ =~= pre.push(evv));
            }
            Ok(())
        } else {
            Err(ev)
        }
    }

    /// Remove and return the oldest event, or `None` when the queue is
    /// empty. FIFO order: the event handed out is always the one enqueued
    /// first among those still queued.
    pub fn dequeue(&mut self) -> (r: Option<ChatEvent>)
        requires
            old(self).wf(),
        ensures
            final(self).wf(),
            old(self)@.len() == 0 ==> r is None && final(self)@ == old(self)@,
            old(self)@.len() > 0 ==> {
                &&& r matches Some(e) && e@ == old(self)@[0]
                &&& final(self)@ == old(self)@.drop_first()
            },
    {
        if self.items.len() == 0 {
            None
        } else {
            let ghost pre = self@;
            let e = self.items.remove(0);
            proof {
                assert(self@ =~= pre.drop_first());
            }
            Some(e)
        }
    }
}

} // verus!
