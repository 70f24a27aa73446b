pub mod messages;

use vstd::prelude::*;

use crate::channel::{delivered, delivered_message, Inbox, Received};

verus! {

/// The inbox of diagnostic requests that the diagnostic system answers once
/// per tick. `M` is the request message type, which carries the channel the
/// answer goes back on.
#[verifier::reject_recursive_types(M)]
pub struct DiagnosticResource<M> {
    receiver: Inbox<M>,
}

impl<M> DiagnosticResource<M> {
    /// Every receive attempt made on the request channel, with what it gave.
    pub closed spec fn attempts(&self) -> Seq<Received<M>> {
        self.receiver.log()
    }

    pub fn new(receiver: tokio::sync::mpsc::Receiver<M>) -> (resource: Self)
        ensures
            resource.attempts() == Seq::<Received<M>>::empty(),
    {
        Self { receiver: Inbox::new(receiver) }
    }

    /// Makes one receive attempt on the request channel and returns the
    /// request it delivered; an empty or closed channel gives `None`.
    pub fn next_request(&mut self) -> (request: Option<M>)
        ensures
            final(self).attempts().len() == old(self).attempts().len() + 1,
            final(self).attempts().drop_last() == old(self).attempts(),
            request == delivered(final(self).attempts().last()),
    {
        let received = self.receiver.receive();
        assert(self.receiver.log().drop_last() =~= old(self).attempts());
        delivered_message(received)
    }
}

} // verus!
