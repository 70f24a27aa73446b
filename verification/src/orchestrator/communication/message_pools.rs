use vstd::prelude::*;

use crate::dialects::SerpeDialect;

verus! {

broadcast use vstd::std_specs::slice::group_slice_axioms;

/// The messages an agent sent during the current tick, in arrival order.
pub struct MessageSnapshot {
    pub messages: Vec<SerpeDialect>,
}

impl MessageSnapshot {
    pub fn clear(&mut self)
        ensures
            final(self).messages@ == Seq::<SerpeDialect>::empty(),
    {
        self.messages.clear();
    }

    pub fn append(&mut self, message: SerpeDialect)
        ensures
            final(self).messages@ == old(self).messages@.push(message),
    {
        self.messages.push(message);
    }

    /// Iterates over the messages in arrival order.
    pub fn iter(&self) -> (it: std::slice::Iter<'_, SerpeDialect>)
        ensures
            vstd::std_specs::iter::IteratorSpec::remaining(&it) == self.messages@.as_ref(),
    {
        self.messages.as_slice().iter()
    }
}

impl Default for MessageSnapshot {
    fn default() -> (snapshot: Self)
        ensures
            snapshot.messages@ == Seq::<SerpeDialect>::empty(),
    {
        MessageSnapshot { messages: Vec::new() }
    }
}

/// The messages queued for one agent, sent in order at the end of the tick.
pub struct MessageSenderPool {
    pub messages: Vec<SerpeDialect>,
}

impl MessageSenderPool {
    pub fn clear(&mut self)
        ensures
            final(self).messages@ == Seq::<SerpeDialect>::empty(),
    {
        self.messages.clear();
    }

    pub fn append(&mut self, message: SerpeDialect)
        ensures
            final(self).messages@ == old(self).messages@.push(message),
    {
        self.messages.push(message);
    }

    /// Iterates over the queued messages in the order they will be sent.
    pub fn iter(&self) -> (it: std::slice::Iter<'_, SerpeDialect>)
        ensures
            vstd::std_specs::iter::IteratorSpec::remaining(&it) == self.messages@.as_ref(),
    {
        self.messages.as_slice().iter()
    }
}

impl Default for MessageSenderPool {
    fn default() -> (pool: Self)
        ensures
            pool.messages@ == Seq::<SerpeDialect>::empty(),
    {
        MessageSenderPool { messages: Vec::new() }
    }
}

} // verus!
