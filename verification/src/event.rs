use vstd::prelude::*;

verus! {

/// One normalized user-authored chat message, as handed over by the
/// ingestion side: who wrote it and what they wrote.
#[derive(Debug)]
pub struct ChatEvent {
    pub sender: String,
    pub text: String,
}

/// Mathematical model of a [`ChatEvent`]: both fields as character sequences.
pub ghost struct ChatEventV {
    pub sender: Seq<char>,
    pub text: Seq<char>,
}

impl View for ChatEvent {
    type V = ChatEventV;

    open spec fn view(&self) -> ChatEventV {
        ChatEventV { sender: self.sender@, text: self.text@ }
    }
}

impl ChatEvent {
    pub fn new(sender: String, text: String) -> (r: ChatEvent)
        ensures
            r@ == (ChatEventV { sender: sender@, text: text@ }),
    {
        ChatEvent { sender, text }
    }
}

} // verus!
