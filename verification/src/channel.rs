//! The bounded tokio channels that connect the orchestrator's tasks, seen from
//! the verified code: opaque endpoints and non-blocking send and receive.
use vstd::prelude::*;

verus! {

/// Receiving half of a bounded `tokio::sync::mpsc` channel; opaque here.
#[verifier::external_type_specification]
#[verifier::external_body]
#[verifier::reject_recursive_types(T)]
pub struct ExReceiver<T>(tokio::sync::mpsc::Receiver<T>);

/// Sending half of a bounded `tokio::sync::mpsc` channel; opaque here.
#[verifier::external_type_specification]
#[verifier::external_body]
#[verifier::reject_recursive_types(T)]
pub struct ExSender<T>(tokio::sync::mpsc::Sender<T>);

/// What one non-blocking receive attempt gave.
pub enum Received<T> {
    /// A message was waiting.
    Message(T),
    /// Nothing is waiting, but senders are still alive.
    Empty,
    /// Every sender is gone: nothing will ever arrive again.
    Disconnected,
}

/// The message a receive attempt delivered, if it delivered one.
pub open spec fn delivered<T>(received: Received<T>) -> Option<T> {
    match received {
        Received::Message(message) => Some(message),
        _ => None,
    }
}

/// Reads a receive attempt as "a message, or nothing now": an empty channel
/// and a disconnected one both give `None`.
pub fn delivered_message<T>(received: Received<T>) -> (message: Option<T>)
    ensures
        message == delivered(received),
{
    match received {
        Received::Message(message) => Some(message),
        Received::Empty => None,
        Received::Disconnected => None,
    }
}

/// Calls `tokio::sync::mpsc::Receiver::try_recv` and names its outcome.
/// Which outcome comes back depends on what the other tasks sent and whether
/// they still hold a sender, so nothing is promised of it.
#[verifier::external_body]
fn try_receive<T>(receiver: &mut tokio::sync::mpsc::Receiver<T>) -> (received: Received<T>) {
    match receiver.try_recv() {
        Ok(message) => Received::Message(message),
        Err(tokio::sync::mpsc::error::TryRecvError::Empty) => Received::Empty,
        Err(tokio::sync::mpsc::error::TryRecvError::Disconnected) => Received::Disconnected,
    }
}

/// Calls `tokio::sync::mpsc::Sender::try_send` and reports whether the message
/// was queued. Whether it is depends on the channel's free capacity and on the
/// receiver still being alive, so nothing is promised of the result.
#[verifier::external_body]
fn try_deliver<T>(sender: &tokio::sync::mpsc::Sender<T>, message: T) -> (queued: bool) {
    sender.try_send(message).is_ok()
}


/// How many offers in `history` the channel refused.
pub open spec fn refusals<T>(history: Seq<(T, bool)>) -> nat
    decreases history.len(),
{
    if history.len() == 0 {
        0
    } else {
        refusals(history.drop_last()) + if history.last().1 {
            0nat
        } else {
            1nat
        }
    }
}

/// The messages of `history`, in the order they were offered.
pub open spec fn offered_messages<T>(history: Seq<(T, bool)>) -> Seq<T> {
    history.map_values(|offer: (T, bool)| offer.0)
}

/// The receiving end of a channel together with the record of every receive
/// attempt made on it through this value, in order.
#[verifier::reject_recursive_types(T)]
pub struct Inbox<T> {
    receiver: tokio::sync::mpsc::Receiver<T>,
    attempts: Ghost<Seq<Received<T>>>,
}

impl<T> Inbox<T> {
    /// Every receive attempt made so far, with what it gave.
    pub closed spec fn log(&self) -> Seq<Received<T>> {
        self.attempts@
    }

    pub fn new(receiver: tokio::sync::mpsc::Receiver<T>) -> (inbox: Self)
        ensures
            inbox.log() == Seq::<Received<T>>::empty(),
    {
        Inbox { receiver, attempts: Ghost(Seq::empty()) }
    }

    /// One non-blocking receive attempt; it is recorded in the log.
    pub fn receive(&mut self) -> (received: Received<T>)
        ensures
            final(self).log() == old(self).log().push(received),
    {
        let received = try_receive(&mut self.receiver);
        let ghost attempt = received;
        self.attempts = Ghost(self.attempts@.push(attempt));
        received
    }
}

/// The sending end of a channel together with the record of every message
/// offered to it through this value, in order, and whether it was queued.
#[verifier::reject_recursive_types(T)]
pub struct Outbox<T> {
    sender: tokio::sync::mpsc::Sender<T>,
    offers: Ghost<Seq<(T, bool)>>,
}

impl<T> Outbox<T> {
    /// Every message offered so far, with whether the channel queued it.
    pub closed spec fn history(&self) -> Seq<(T, bool)> {
        self.offers@
    }

    pub fn new(sender: tokio::sync::mpsc::Sender<T>) -> (outbox: Self)
        ensures
            outbox.history() == Seq::<(T, bool)>::empty(),
    {
        Outbox { sender, offers: Ghost(Seq::empty()) }
    }

    /// Offers `message` to the channel without waiting; the offer and its
    /// outcome are recorded in the history.
    pub fn offer(&mut self, message: T) -> (queued: bool)
        ensures
            final(self).history() == old(self).history().push((message, queued)),
    {
        let ghost offered = message;
        let queued = try_deliver(&self.sender, message);
        self.offers = Ghost(self.offers@.push((offered, queued)));
        queued
    }
}

} // verus!
