use vstd::prelude::*;

use crate::dialects::messages::{Heartbeat, HeartbeatAck};
use crate::dialects::SerpeDialect;
use crate::orchestrator::communication::message_pools::{MessageSenderPool, MessageSnapshot};

verus! {

/// One `HeartbeatAck` for every heartbeat in `messages`, in order.
pub open spec fn heartbeat_acks(messages: Seq<SerpeDialect>) -> Seq<SerpeDialect>
    decreases messages.len(),
{
    if messages.len() == 0 {
        Seq::empty()
    } else {
        let earlier = heartbeat_acks(messages.drop_last());
        if messages.last() is Heartbeat {
            earlier.push(SerpeDialect::HeartbeatAck(HeartbeatAck {}))
        } else {
            earlier
        }
    }
}

/// The last heartbeat in `messages`, if there is one.
pub open spec fn last_heartbeat(messages: Seq<SerpeDialect>) -> Option<Heartbeat>
    decreases messages.len(),
{
    if messages.len() == 0 {
        None
    } else {
        match messages.last() {
            SerpeDialect::Heartbeat(heartbeat) => Some(heartbeat),
            _ => last_heartbeat(messages.drop_last()),
        }
    }
}

/// The latest heartbeat is the one at the largest index holding a heartbeat:
/// a heartbeat appended to any messages is the latest; there is a latest
/// heartbeat exactly when some message is a heartbeat; and the latest one
/// occurs with no heartbeat after it.
pub proof fn lemma_latest_heartbeat(messages: Seq<SerpeDialect>, heartbeat: Heartbeat)
    ensures
        last_heartbeat(messages.push(SerpeDialect::Heartbeat(heartbeat))) == Some(heartbeat),
        last_heartbeat(messages) is Some <==> exists|i: int|
            0 <= i < messages.len() && #[trigger] messages[i] is Heartbeat,
        last_heartbeat(messages) matches Some(h) ==> exists|i: int|
            0 <= i < messages.len() && #[trigger] messages[i] == SerpeDialect::Heartbeat(h)
                && forall|j: int| i < j < messages.len() ==> !(#[trigger] messages[j] is Heartbeat),
    decreases messages.len(),
{
    assert(messages.push(SerpeDialect::Heartbeat(heartbeat)).drop_last() =~= messages);
    if messages.len() > 0 {
        let earlier = messages.drop_last();
        lemma_latest_heartbeat(earlier, heartbeat);
        let n = messages.len() - 1;
        assert(messages[n] == messages.last());
        if messages.last() is Heartbeat {
            assert(messages[n] is Heartbeat);
        } else {
            if last_heartbeat(messages) is Some {
                let h = last_heartbeat(messages)->Some_0;
                let i = choose|i: int|
                    0 <= i < earlier.len() && #[trigger] earlier[i] == SerpeDialect::Heartbeat(h)
                        && forall|j: int| i < j < earlier.len() ==> !(#[trigger] earlier[j] is Heartbeat);
                assert(messages[i] == earlier[i]);
                assert forall|j: int| i < j < messages.len() implies !(#[trigger] messages[j] is Heartbeat) by {
                    if j < n {
                        assert(messages[j] == earlier[j]);
                    }
                }
            }
            if exists|i: int| 0 <= i < messages.len() && #[trigger] messages[i] is Heartbeat {
                let i = choose|i: int| 0 <= i < messages.len() && #[trigger] messages[i] is Heartbeat;
                assert(i < n);
                assert(earlier[i] == messages[i]);
            }
            if exists|i: int| 0 <= i < earlier.len() && #[trigger] earlier[i] is Heartbeat {
                let i = choose|i: int| 0 <= i < earlier.len() && #[trigger] earlier[i] is Heartbeat;
                assert(messages[i] == earlier[i]);
            }
        }
    }
}

pub open spec fn is_heartbeat(m: SerpeDialect) -> bool {
    m is Heartbeat
}

/// Every heartbeat of a tick is answered by exactly one `HeartbeatAck`, and
/// nothing else is sent in answer.
pub proof fn lemma_one_ack_per_heartbeat(messages: Seq<SerpeDialect>)
    ensures
        heartbeat_acks(messages).len() == messages.filter(|m: SerpeDialect| is_heartbeat(m)).len(),
        forall|i: int|
            0 <= i < heartbeat_acks(messages).len() ==> #[trigger] heartbeat_acks(messages)[i]
                == SerpeDialect::HeartbeatAck(HeartbeatAck {}),
    decreases messages.len(),
{
    reveal(Seq::filter);
    if messages.len() > 0 {
        lemma_one_ack_per_heartbeat(messages.drop_last());
    }
}

/// Answers every heartbeat of the tick with a `HeartbeatAck` and returns the
/// latest position report, which becomes the agent's position.
pub fn process_heartbeats(snapshot: &MessageSnapshot, sender_pool: &mut MessageSenderPool) -> (latest:
    Option<Heartbeat>)
    ensures
        final(sender_pool).messages@ == old(sender_pool).messages@ + heartbeat_acks(
            snapshot.messages@,
        ),
        latest == last_heartbeat(snapshot.messages@),
{
    let ghost pool0 = sender_pool.messages@;
    let n = snapshot.messages.len();
    let mut latest: Option<Heartbeat> = None;
    let mut i: usize = 0;
    assert(snapshot.messages@.take(0) =~= Seq::<SerpeDialect>::empty());
    assert(pool0 + Seq::<SerpeDialect>::empty() =~= pool0);
    while i < n
        invariant
            n == snapshot.messages@.len(),
            i <= n,
            sender_pool.messages@ == pool0 + heartbeat_acks(snapshot.messages@.take(i as int)),
            latest == last_heartbeat(snapshot.messages@.take(i as int)),
        decreases n - i,
    {
        let message = snapshot.messages[i];
        let ghost seen = snapshot.messages@.take(i as int);
        assert(snapshot.messages@.take(i + 1).drop_last() =~= seen);
        assert(snapshot.messages@.take(i + 1).last() == message);
        match message {
            SerpeDialect::Heartbeat(heartbeat) => {
                latest = Some(heartbeat);
                sender_pool.append(SerpeDialect::HeartbeatAck(HeartbeatAck {}));
                assert(sender_pool.messages@ =~= pool0 + heartbeat_acks(
                    snapshot.messages@.take(i + 1),
                ));
            },
            _ => {},
        }
        i = i + 1;
    }
    assert(snapshot.messages@.take(n as int) =~= snapshot.messages@);
    latest
}

} // verus!
