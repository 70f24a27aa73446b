pub mod message_pools;
pub mod messages;

use vstd::prelude::*;

use self::message_pools::{MessageSenderPool, MessageSnapshot};
use crate::channel::{offered_messages, refusals, Inbox, Outbox, Received};
use crate::dialects::messages::{Register, RegisterAck, UnregisterAck};
use crate::dialects::{is_agent_report, SerpeDialect};
use crate::orchestrator::domain::SystemID;
use crate::orchestrator::misc::system_id_table::{
    all_ids_used, is_lowest_free_id, SystemIdTable,
};

verus! {

/// How many messages one connection may hand over in a single tick.
pub const MAX_MESSAGE_ITERATIONS: u32 = 64;

#[derive(Clone, Copy, Debug, PartialEq, Eq, Structural)]
pub enum ConnectionStatus {
    Connected,
    Disconnected,
}

pub open spec fn connection_status_text(status: ConnectionStatus) -> Seq<char> {
    match status {
        ConnectionStatus::Connected => "CONNECTED"@,
        ConnectionStatus::Disconnected => "DISCONNECTED"@,
    }
}

impl ConnectionStatus {
    /// Upper-case name shown by the diagnostic interface.
    pub fn to_string(&self) -> (text: String)
        ensures
            text@ == connection_status_text(*self),
    {
        match self {
            ConnectionStatus::Connected => "CONNECTED".to_owned(),
            ConnectionStatus::Disconnected => "DISCONNECTED".to_owned(),
        }
    }
}

/// The channels that link the orchestrator to one agent's network task.
pub struct SessionConnection {
    pub system_id: SystemID,
    pub status: ConnectionStatus,
    incoming: Inbox<SerpeDialect>,
    outgoing: Outbox<SerpeDialect>,
}

impl SessionConnection {
    /// The system id of the agent on this connection.
    pub closed spec fn assigned_id(&self) -> SystemID {
        self.system_id
    }

    pub closed spec fn link_status(&self) -> ConnectionStatus {
        self.status
    }

    /// Every receive attempt made on the agent's incoming channel.
    pub closed spec fn received(&self) -> Seq<Received<SerpeDialect>> {
        self.incoming.log()
    }

    /// Every message offered to the agent's outgoing channel, with whether it
    /// was queued.
    pub closed spec fn sent(&self) -> Seq<(SerpeDialect, bool)> {
        self.outgoing.history()
    }

    /// A connection that starts out connected, with nothing received or sent.
    pub fn new(
        system_id: SystemID,
        incoming_receiver: tokio::sync::mpsc::Receiver<SerpeDialect>,
        outgoing_sender: tokio::sync::mpsc::Sender<SerpeDialect>,
    ) -> (connection: Self)
        ensures
            connection.assigned_id() == system_id,
            connection.link_status() == ConnectionStatus::Connected,
            connection.received() == Seq::<Received<SerpeDialect>>::empty(),
            connection.sent() == Seq::<(SerpeDialect, bool)>::empty(),
    {
        SessionConnection {
            system_id,
            status: ConnectionStatus::Connected,
            incoming: Inbox::new(incoming_receiver),
            outgoing: Outbox::new(outgoing_sender),
        }
    }

    /// A connected connection over endpoints already in use; their records
    /// carry over.
    pub fn from_endpoints(
        system_id: SystemID,
        incoming: Inbox<SerpeDialect>,
        outgoing: Outbox<SerpeDialect>,
    ) -> (connection: Self)
        ensures
            connection.assigned_id() == system_id,
            connection.link_status() == ConnectionStatus::Connected,
            connection.received() == incoming.log(),
            connection.sent() == outgoing.history(),
    {
        SessionConnection { system_id, status: ConnectionStatus::Connected, incoming, outgoing }
    }
}

/// The receive attempts made on `after`'s incoming channel since `before`.
pub open spec fn received_since(before: SessionConnection, after: SessionConnection) -> Seq<
    Received<SerpeDialect>,
> {
    after.received().subrange(before.received().len() as int, after.received().len() as int)
}

/// The offers made to `after`'s outgoing channel since `before`.
pub open spec fn sent_since(before: SessionConnection, after: SessionConnection) -> Seq<
    (SerpeDialect, bool),
> {
    after.sent().subrange(before.sent().len() as int, after.sent().len() as int)
}

/// `after` is `before` with more receive attempts and offers recorded, and the
/// same system id.
pub open spec fn extends(before: SessionConnection, after: SessionConnection) -> bool {
    &&& after.assigned_id() == before.assigned_id()
    &&& before.received().len() <= after.received().len()
    &&& after.received().subrange(0, before.received().len() as int) == before.received()
    &&& before.sent().len() <= after.sent().len()
    &&& after.sent().subrange(0, before.sent().len() as int) == before.sent()
}

/// The acknowledgement that tells an agent its system id.
pub open spec fn registration_ack(system_id: SystemID) -> SerpeDialect {
    SerpeDialect::RegisterAck(RegisterAck { system_id })
}

/// The first message of a connection must be a registration; its content is
/// what the connection task hands on to the orchestrator.
pub fn check_registration(first_message: &SerpeDialect) -> (request: Option<Register>)
    ensures
        match *first_message {
            SerpeDialect::Register(register) => request == Some(register),
            _ => request is None,
        },
{
    match first_message {
        SerpeDialect::Register(register) => Some(*register),
        _ => None,
    }
}

/// Messages the orchestrator itself originates and writes to an agent's socket.
pub open spec fn is_orchestrator_message(m: SerpeDialect) -> bool {
    ||| m is RegisterAck
    ||| m is UnregisterAck
    ||| m is HeartbeatAck
    ||| m is MissionRequest
    ||| m is MissionAcceptAck
    ||| m is MissionFinishedAck
}

/// Whether the writing half of a connection puts `message` on the wire;
/// anything else queued for an agent is skipped.
pub fn is_sendable(message: &SerpeDialect) -> (sendable: bool)
    ensures
        sendable == is_orchestrator_message(*message),
{
    match message {
        SerpeDialect::RegisterAck(_) | SerpeDialect::UnregisterAck(_)
        | SerpeDialect::HeartbeatAck(_) | SerpeDialect::MissionRequest(_)
        | SerpeDialect::MissionAcceptAck(_) | SerpeDialect::MissionFinishedAck(_) => true,
        _ => false,
    }
}

/// What one read of an agent's socket gave.
pub enum FrameEvent {
    /// A frame with a valid checksum that decoded to a message.
    Decoded(SerpeDialect),
    /// The socket failed with an I/O error: the agent closed the connection.
    ConnectionClosed,
    /// Receiving failed for another reason.
    ReceiveFailed,
    /// A frame arrived whose checksum does not match.
    BadChecksum,
    /// A frame arrived whose payload is no message of the dialect.
    Undecodable,
}

/// What the reading half of a connection does with one read.
#[derive(Clone, Copy, Debug, PartialEq, Eq, Structural)]
pub enum ListenAction {
    /// Hand the message on to the orchestrator.
    Forward(SerpeDialect),
    /// Drop the frame and keep reading.
    Skip,
    /// Stop reading; the connection ended normally.
    Finish,
    /// Stop reading with an error.
    Fail,
}

/// Decoded messages go on to the orchestrator, damaged or unknown frames are
/// dropped, and reading stops when the socket fails: normally when the agent
/// closed it, with an error otherwise.
pub fn listen_step(event: FrameEvent) -> (action: ListenAction)
    ensures
        match event {
            FrameEvent::Decoded(message) => action == ListenAction::Forward(message),
            FrameEvent::ConnectionClosed => action == ListenAction::Finish,
            FrameEvent::ReceiveFailed => action == ListenAction::Fail,
            FrameEvent::BadChecksum | FrameEvent::Undecodable => action == ListenAction::Skip,
        },
{
    match event {
        FrameEvent::Decoded(message) => ListenAction::Forward(message),
        FrameEvent::ConnectionClosed => ListenAction::Finish,
        FrameEvent::ReceiveFailed => ListenAction::Fail,
        FrameEvent::BadChecksum => ListenAction::Skip,
        FrameEvent::Undecodable => ListenAction::Skip,
    }
}

/// The decision taken on a registration request, before the acknowledgement
/// is sent: refused while `max_number_of_drones` agents are connected,
/// otherwise the lowest free system id, if any is left.
pub fn admit_registration(max_number_of_drones: usize, id_table: &mut SystemIdTable) -> (assigned:
    Option<SystemID>)
    ensures
        max_number_of_drones <= old(id_table)@.len() ==> assigned is None && final(id_table)@
            == old(id_table)@,
        max_number_of_drones > old(id_table)@.len() ==> match assigned {
            Some(id) => is_lowest_free_id(old(id_table)@, id) && final(id_table)@ == old(
                id_table,
            )@.insert(id),
            None => all_ids_used(old(id_table)@) && final(id_table)@ == old(id_table)@,
        },
        final(id_table)@ == old(id_table)@ || final(id_table)@.len() <= max_number_of_drones,
{
    if max_number_of_drones <= id_table.count() {
        return None;
    }
    id_table.allocate()
}

/// Acknowledges a registration on the agent's connection: offers it a
/// `RegisterAck` carrying its system id. When the acknowledgement cannot be
/// queued, the system id goes back to the table.
pub fn acknowledge_registration(
    connection: &mut SessionConnection,
    id_table: &mut SystemIdTable,
) -> (queued: bool)
    ensures
        final(connection).sent() == old(connection).sent().push(
            (registration_ack(old(connection).assigned_id()), queued),
        ),
        final(connection).assigned_id() == old(connection).assigned_id(),
        final(connection).link_status() == old(connection).link_status(),
        final(connection).received() == old(connection).received(),
        queued ==> final(id_table)@ == old(id_table)@,
        !queued ==> final(id_table)@ == old(id_table)@.remove(old(connection).assigned_id()),
{
    let system_id = connection.system_id;
    let queued = connection.outgoing.offer(
        SerpeDialect::RegisterAck(RegisterAck { system_id }),
    );
    if !queued {
        id_table.release(system_id);
    }
    queued
}

/// Why a registration request was not accepted. A request refused before
/// the acknowledgement gives the agent's channel endpoints back untouched.
pub enum RegistrationRefusal {
    /// `max_number_of_drones` agents are already connected.
    NetworkFull(Inbox<SerpeDialect>, Outbox<SerpeDialect>),
    /// All system ids 1..=255 are in use.
    NoFreeId(Inbox<SerpeDialect>, Outbox<SerpeDialect>),
    /// The agent's channel did not queue the acknowledgement; its system id
    /// went back to the table. The connection records the refused offer.
    AckNotQueued(SessionConnection),
}

/// Handles one registration request on the agent's channel endpoints: admits
/// it and acknowledges it. The agent keeps its system id, and gets its
/// connection, only when the acknowledgement was queued; a request refused
/// before that is neither read from nor answered.
pub fn register_agent(
    max_number_of_drones: usize,
    incoming: Inbox<SerpeDialect>,
    outgoing: Outbox<SerpeDialect>,
    id_table: &mut SystemIdTable,
) -> (registered: Result<SessionConnection, RegistrationRefusal>)
    ensures
        registered matches Err(RegistrationRefusal::NetworkFull(_, _)) <==> max_number_of_drones
            <= old(id_table)@.len(),
        registered matches Err(RegistrationRefusal::NoFreeId(_, _)) <==> max_number_of_drones
            > old(id_table)@.len() && all_ids_used(old(id_table)@),
        match registered {
            Ok(c) => {
                &&& max_number_of_drones > old(id_table)@.len()
                &&& is_lowest_free_id(old(id_table)@, c.assigned_id())
                &&& final(id_table)@ == old(id_table)@.insert(c.assigned_id())
                &&& final(id_table)@.len() <= max_number_of_drones
                &&& c.link_status() == ConnectionStatus::Connected
                &&& c.received() == incoming.log()
                &&& c.sent() == outgoing.history().push((registration_ack(c.assigned_id()), true))
            },
            Err(RegistrationRefusal::AckNotQueued(c)) => {
                &&& max_number_of_drones > old(id_table)@.len()
                &&& is_lowest_free_id(old(id_table)@, c.assigned_id())
                &&& final(id_table)@ == old(id_table)@
                &&& c.link_status() == ConnectionStatus::Connected
                &&& c.received() == incoming.log()
                &&& c.sent() == outgoing.history().push((registration_ack(c.assigned_id()), false))
            },
            Err(RegistrationRefusal::NetworkFull(i, o)) | Err(RegistrationRefusal::NoFreeId(i, o)) => {
                &&& final(id_table)@ == old(id_table)@
                &&& i.log() == incoming.log()
                &&& o.history() == outgoing.history()
            },
        },
{
    let ghost before = id_table@;
    if max_number_of_drones <= id_table.count() {
        return Err(RegistrationRefusal::NetworkFull(incoming, outgoing));
    }
    match admit_registration(max_number_of_drones, id_table) {
        None => Err(RegistrationRefusal::NoFreeId(incoming, outgoing)),
        Some(system_id) => {
            let mut connection = SessionConnection::from_endpoints(system_id, incoming, outgoing);
            if acknowledge_registration(&mut connection, id_table) {
                Ok(connection)
            } else {
                assert(before.insert(system_id).remove(system_id) =~= before);
                Err(RegistrationRefusal::AckNotQueued(connection))
            }
        },
    }
}

/// The system ids handed out by successive accepted registrations, starting
/// from the ids in use in `start`, with no release in between: each one is
/// the lowest id free after the earlier ones.
pub open spec fn successive_admissions(start: Set<SystemID>, ids: Seq<SystemID>) -> bool {
    forall|k: int|
        0 <= k < ids.len() ==> is_lowest_free_id(
            start.union(ids.take(k).to_set()),
            #[trigger] ids[k],
        )
}

/// All registrations accepted in one tick get distinct system ids, none of
/// them 0 and none already in use when the tick began.
pub proof fn lemma_tick_registrations_distinct_and_unused(
    start: Set<SystemID>,
    ids: Seq<SystemID>,
)
    requires
        successive_admissions(start, ids),
    ensures
        forall|i: int, j: int| 0 <= i < j < ids.len() ==> #[trigger] ids[i] != #[trigger] ids[j],
        forall|k: int| 0 <= k < ids.len() ==> #[trigger] ids[k] != 0 && !start.contains(ids[k]),
{
    assert forall|i: int, j: int| 0 <= i < j < ids.len() implies #[trigger] ids[i]
        != #[trigger] ids[j] by {
        assert(ids.take(j)[i] == ids[i]);
        assert(ids.take(j).contains(ids[i]));
        assert(ids.take(j).to_set().contains(ids[i]));
        assert(is_lowest_free_id(start.union(ids.take(j).to_set()), ids[j]));
    }
    assert forall|k: int| 0 <= k < ids.len() implies #[trigger] ids[k] != 0 && !start.contains(
        ids[k],
    ) by {
        assert(is_lowest_free_id(start.union(ids.take(k).to_set()), ids[k]));
    }
}

/// With no release in between, two registrations get distinct system ids,
/// neither 0 nor one that was already in use.
pub proof fn lemma_registrations_get_distinct_unused_ids(
    used: Set<SystemID>,
    first: SystemID,
    second: SystemID,
)
    requires
        is_lowest_free_id(used, first),
        is_lowest_free_id(used.insert(first), second),
    ensures
        first != second,
        first != 0 && second != 0,
        !used.contains(first) && !used.contains(second),
{
}

/// What the receive loop does after one receive attempt.
#[derive(Clone, Copy, Debug, PartialEq, Eq, Structural)]
pub enum InboxStep {
    /// Keep reading.
    Continue,
    /// The agent unregistered: acknowledge it, drop the session, keep reading.
    Unregistered,
    /// Nothing more to read this tick.
    Stop,
}

pub open spec fn inbox_step(received: Received<SerpeDialect>) -> InboxStep {
    match received {
        Received::Message(SerpeDialect::Unregister(_)) => InboxStep::Unregistered,
        Received::Message(_) => InboxStep::Continue,
        Received::Empty => InboxStep::Stop,
        Received::Disconnected => InboxStep::Stop,
    }
}

/// Applies one receive attempt of a connection: an `Unregister` gives the
/// system id back; an agent report is kept in the snapshot; any other message
/// is dropped; a disconnected channel marks the connection disconnected.
pub fn handle_incoming(
    received: Received<SerpeDialect>,
    system_id: SystemID,
    status: &mut ConnectionStatus,
    snapshot: &mut MessageSnapshot,
    id_table: &mut SystemIdTable,
) -> (step: InboxStep)
    ensures
        step == inbox_step(received),
        final(id_table)@ == (if step == InboxStep::Unregistered {
            old(id_table)@.remove(system_id)
        } else {
            old(id_table)@
        }),
        final(snapshot).messages@ == (match received {
            Received::Message(m) => if is_agent_report(m) {
                old(snapshot).messages@.push(m)
            } else {
                old(snapshot).messages@
            },
            _ => old(snapshot).messages@,
        }),
        *final(status) == (if received is Disconnected {
            ConnectionStatus::Disconnected
        } else {
            *old(status)
        }),
{
    match received {
        Received::Message(message) => {
            match message {
                SerpeDialect::Unregister(_) => {
                    id_table.release(system_id);
                    InboxStep::Unregistered
                },
                SerpeDialect::Heartbeat(_) | SerpeDialect::MissionAccept(_)
                | SerpeDialect::MissionUpdate(_) | SerpeDialect::MissionFinished(_) => {
                    snapshot.append(message);
                    InboxStep::Continue
                },
                _ => InboxStep::Continue,
            }
        },
        Received::Empty => InboxStep::Stop,
        Received::Disconnected => {
            *status = ConnectionStatus::Disconnected;
            InboxStep::Stop
        },
    }
}

/// The agent reports among the delivered messages, in order of arrival.
pub open spec fn reports_of(events: Seq<Received<SerpeDialect>>) -> Seq<SerpeDialect>
    decreases events.len(),
{
    if events.len() == 0 {
        Seq::empty()
    } else {
        let earlier = reports_of(events.drop_last());
        match events.last() {
            Received::Message(m) => if is_agent_report(m) {
                earlier.push(m)
            } else {
                earlier
            },
            _ => earlier,
        }
    }
}

/// What a drain keeps, one receive attempt at a time: nothing from no
/// attempts; a delivered `Heartbeat`, `MissionAccept`, `MissionUpdate` or
/// `MissionFinished` is kept after the earlier reports; any other delivered
/// message, an empty channel and a disconnected one add nothing.
pub proof fn lemma_reports_kept_in_arrival_order(
    events: Seq<Received<SerpeDialect>>,
    message: SerpeDialect,
)
    ensures
        reports_of(Seq::<Received<SerpeDialect>>::empty()) == Seq::<SerpeDialect>::empty(),
        (message is Heartbeat || message is MissionAccept || message is MissionUpdate
            || message is MissionFinished) ==> reports_of(events.push(Received::Message(message)))
            == reports_of(events).push(message),
        !(message is Heartbeat || message is MissionAccept || message is MissionUpdate
            || message is MissionFinished) ==> reports_of(events.push(Received::Message(message)))
            == reports_of(events),
        reports_of(events.push(Received::Empty)) == reports_of(events),
        reports_of(events.push(Received::Disconnected)) == reports_of(events),
{
    assert(events.push(Received::Message(message)).drop_last() =~= events);
    assert(events.push(Received::<SerpeDialect>::Empty).drop_last() =~= events);
    assert(events.push(Received::<SerpeDialect>::Disconnected).drop_last() =~= events);
}

/// Every message `reports_of` keeps is a `Heartbeat`, `MissionAccept`,
/// `MissionUpdate` or `MissionFinished` that was delivered, and each of those
/// delivered is kept: the kept reports are never more than the attempts.
pub proof fn lemma_reports_are_delivered_reports(events: Seq<Received<SerpeDialect>>)
    ensures
        reports_of(events).len() <= events.len(),
        forall|k: int|
            0 <= k < reports_of(events).len() ==> {
                let m = #[trigger] reports_of(events)[k];
                &&& (m is Heartbeat || m is MissionAccept || m is MissionUpdate
                    || m is MissionFinished)
                &&& events.contains(Received::Message(m))
            },
        forall|j: int|
            0 <= j < events.len() ==> (#[trigger] events[j] matches Received::Message(m) && (
            m is Heartbeat || m is MissionAccept || m is MissionUpdate || m is MissionFinished))
                ==> reports_of(events).contains(events[j]->Message_0),
    decreases events.len(),
{
    if events.len() > 0 {
        let earlier = events.drop_last();
        lemma_reports_are_delivered_reports(earlier);
        assert forall|k: int| 0 <= k < reports_of(events).len() implies {
            let m = #[trigger] reports_of(events)[k];
            &&& (m is Heartbeat || m is MissionAccept || m is MissionUpdate
                || m is MissionFinished)
            &&& events.contains(Received::Message(m))
        } by {
            if k < reports_of(earlier).len() {
                assert(reports_of(events)[k] == reports_of(earlier)[k]);
                let m = reports_of(earlier)[k];
                let j = choose|j: int| 0 <= j < earlier.len() && earlier[j] == Received::Message(m);
                assert(events[j] == earlier[j]);
            } else {
                assert(events[events.len() - 1] == events.last());
            }
        }
        assert forall|j: int|
            0 <= j < events.len() && (#[trigger] events[j] matches Received::Message(m) && (
            m is Heartbeat || m is MissionAccept || m is MissionUpdate || m is MissionFinished))
            implies reports_of(events).contains(events[j]->Message_0) by {
            if j < earlier.len() {
                assert(earlier[j] == events[j]);
                let m = events[j]->Message_0;
                let k = choose|k: int| 0 <= k < reports_of(earlier).len() && reports_of(earlier)[k] == m;
                assert(reports_of(events)[k] == m);
            } else {
                let m = events[j]->Message_0;
                assert(reports_of(events)[reports_of(events).len() - 1] == m);
            }
        }
    }
}

/// The acknowledgement of a registration is a `RegisterAck` whose system id
/// is the one the agent was given.
pub proof fn lemma_registration_ack_carries_the_id(system_id: SystemID)
    ensures
        registration_ack(system_id) == SerpeDialect::RegisterAck(RegisterAck { system_id }),
        registration_ack(system_id) matches SerpeDialect::RegisterAck(ack) && ack.system_id
            == system_id,
{
}

/// The writing half sends exactly what the orchestrator originates:
/// `RegisterAck`, `UnregisterAck`, `HeartbeatAck`, `MissionRequest`,
/// `MissionAcceptAck` and `MissionFinishedAck`, and none of the agents' own
/// messages.
pub proof fn lemma_sendable_messages(m: SerpeDialect)
    ensures
        is_orchestrator_message(m) <==> (m is RegisterAck || m is UnregisterAck
            || m is HeartbeatAck || m is MissionRequest || m is MissionAcceptAck
            || m is MissionFinishedAck),
        m is Register ==> !is_orchestrator_message(m),
        m is Unregister ==> !is_orchestrator_message(m),
        m is Heartbeat ==> !is_orchestrator_message(m),
        m is MissionAccept ==> !is_orchestrator_message(m),
        m is MissionUpdate ==> !is_orchestrator_message(m),
        m is MissionFinished ==> !is_orchestrator_message(m),
        is_orchestrator_message(SerpeDialect::UnregisterAck(UnregisterAck {})),
{
}

/// Some delivered message is an `Unregister`.
pub open spec fn unregisters(events: Seq<Received<SerpeDialect>>) -> bool
    decreases events.len(),
{
    if events.len() == 0 {
        false
    } else {
        unregisters(events.drop_last()) || events.last() matches Received::Message(
            SerpeDialect::Unregister(_),
        )
    }
}

/// The receive attempts of one drain of a connection: messages, at most
/// `MAX_MESSAGE_ITERATIONS` attempts, and a stop at the first attempt that
/// delivered no message.
pub open spec fn is_drain(events: Seq<Received<SerpeDialect>>) -> bool {
    &&& events.len() <= MAX_MESSAGE_ITERATIONS
    &&& forall|i: int| 0 <= i < events.len() - 1 ==> #[trigger] events[i] is Message
    &&& events.len() < MAX_MESSAGE_ITERATIONS ==> events.len() > 0 && !(events.last() is Message)
}

/// The connection status after a drain: disconnected when the drain ended on
/// a disconnected channel, unchanged otherwise.
pub open spec fn status_after(events: Seq<Received<SerpeDialect>>, before: ConnectionStatus) -> ConnectionStatus {
    if events.len() > 0 && events.last() is Disconnected {
        ConnectionStatus::Disconnected
    } else {
        before
    }
}

/// One `UnregisterAck` for every `Unregister` among the delivered messages.
pub open spec fn unregister_acks(events: Seq<Received<SerpeDialect>>) -> Seq<SerpeDialect>
    decreases events.len(),
{
    if events.len() == 0 {
        Seq::empty()
    } else {
        let earlier = unregister_acks(events.drop_last());
        if events.last() matches Received::Message(SerpeDialect::Unregister(_)) {
            earlier.push(SerpeDialect::UnregisterAck(UnregisterAck {}))
        } else {
            earlier
        }
    }
}

proof fn lemma_offered_messages_push(history: Seq<(SerpeDialect, bool)>, offer: (SerpeDialect, bool))
    ensures
        offered_messages(history.push(offer)) == offered_messages(history).push(offer.0),
{
    assert(offered_messages(history.push(offer)) =~= offered_messages(history).push(offer.0));
}

/// Reads what one agent sent since the last tick. The snapshot is emptied
/// first; then at most `MAX_MESSAGE_ITERATIONS` receive attempts are made,
/// stopping at the first one that finds the channel empty or disconnected.
/// The snapshot ends up holding the agent reports among the delivered
/// messages, in arrival order; each `Unregister` gives the system id back and
/// is answered with an `UnregisterAck` on the agent's channel. Returns whether
/// the agent unregistered.
pub fn receive_messages(
    connection: &mut SessionConnection,
    snapshot: &mut MessageSnapshot,
    id_table: &mut SystemIdTable,
) -> (unregistered: bool)
    ensures
        extends(*old(connection), *final(connection)),
        is_drain(received_since(*old(connection), *final(connection))),
        final(snapshot).messages@ == reports_of(received_since(*old(connection), *final(connection))),
        final(connection).link_status() == status_after(
            received_since(*old(connection), *final(connection)),
            old(connection).link_status(),
        ),
        unregistered == unregisters(received_since(*old(connection), *final(connection))),
        offered_messages(sent_since(*old(connection), *final(connection))) == unregister_acks(
            received_since(*old(connection), *final(connection)),
        ),
        final(id_table)@ == (if unregistered {
            old(id_table)@.remove(old(connection).assigned_id())
        } else {
            old(id_table)@
        }),
{
    let ghost status0 = connection.status;
    let ghost log0 = connection.received();
    let ghost sent0 = connection.sent();
    let ghost table0 = id_table@;
    let ghost mut events: Seq<Received<SerpeDialect>> = Seq::empty();
    let ghost mut acks: Seq<(SerpeDialect, bool)> = Seq::empty();
    let system_id = connection.system_id;
    let mut unregistered = false;
    let mut i: u32 = 0;
    snapshot.clear();
    assert(log0 + events =~= log0);
    assert(sent0 + acks =~= sent0);
    assert(offered_messages(acks) =~= Seq::<SerpeDialect>::empty());
    while i < MAX_MESSAGE_ITERATIONS
        invariant_except_break
            i <= MAX_MESSAGE_ITERATIONS,
            events.len() == i,
            forall|k: int| 0 <= k < events.len() ==> #[trigger] events[k] is Message,
            connection.status == status0,
        invariant
            connection.system_id == system_id,
            connection.received() == log0 + events,
            connection.sent() == sent0 + acks,
            offered_messages(acks) == unregister_acks(events),
            snapshot.messages@ == reports_of(events),
            unregistered == unregisters(events),
            id_table@ == (if unregistered {
                table0.remove(system_id)
            } else {
                table0
            }),
        ensures
            is_drain(events),
            connection.status == status_after(events, status0),
        decreases MAX_MESSAGE_ITERATIONS - i,
    {
        let received = connection.incoming.receive();
        let ghost before = events;
        proof {
            events = events.push(received);
            assert(events.drop_last() =~= before);
            assert(connection.received() =~= log0 + events);
        }
        let step = handle_incoming(
            received,
            system_id,
            &mut connection.status,
            snapshot,
            id_table,
        );
        assert(snapshot.messages@ =~= reports_of(events));
        match step {
            InboxStep::Continue => {},
            InboxStep::Unregistered => {
                assert(table0.remove(system_id).remove(system_id) =~= table0.remove(system_id));
                unregistered = true;
                let queued = connection.outgoing.offer(
                    SerpeDialect::UnregisterAck(UnregisterAck {}),
                );
                proof {
                    let offer = (SerpeDialect::UnregisterAck(UnregisterAck {}), queued);
                    lemma_offered_messages_push(acks, offer);
                    acks = acks.push(offer);
                    assert(connection.sent() =~= sent0 + acks);
                }
            },
            InboxStep::Stop => {
                break ;
            },
        }
        i = i + 1;
    }
    assert((log0 + events).subrange(log0.len() as int, (log0 + events).len() as int) =~= events);
    assert((log0 + events).subrange(0, log0.len() as int) =~= log0);
    assert((sent0 + acks).subrange(sent0.len() as int, (sent0 + acks).len() as int) =~= acks);
    assert((sent0 + acks).subrange(0, sent0.len() as int) =~= sent0);
    unregistered
}

/// Offers every queued message to the agent's channel, once each and in
/// order, a refused one not stopping the rest, and empties the queue.
/// Returns how many offers the channel refused.
pub fn send_messages(connection: &mut SessionConnection, sender_pool: &mut MessageSenderPool) -> (failed:
    usize)
    ensures
        extends(*old(connection), *final(connection)),
        final(connection).received() == old(connection).received(),
        final(connection).link_status() == old(connection).link_status(),
        offered_messages(sent_since(*old(connection), *final(connection))) == old(
            sender_pool,
        ).messages@,
        failed == refusals(sent_since(*old(connection), *final(connection))),
        final(sender_pool).messages@ == Seq::<SerpeDialect>::empty(),
{
    let ghost sent0 = connection.sent();
    let ghost mut offers: Seq<(SerpeDialect, bool)> = Seq::empty();
    let mut failed: usize = 0;
    let n = sender_pool.messages.len();
    let mut i: usize = 0;
    assert(sent0 + offers =~= sent0);
    assert(offered_messages(offers) =~= sender_pool.messages@.take(0));
    while i < n
        invariant
            n == sender_pool.messages@.len(),
            i <= n,
            offers.len() == i,
            failed <= i,
            connection.sent() == sent0 + offers,
            offered_messages(offers) == sender_pool.messages@.take(i as int),
            failed == refusals(offers),
            connection.received() == old(connection).received(),
            connection.status == old(connection).status,
            connection.system_id == old(connection).system_id,
        decreases n - i,
    {
        let message = sender_pool.messages[i];
        let queued = connection.outgoing.offer(message);
        proof {
            let offer = (message, queued);
            lemma_offered_messages_push(offers, offer);
            assert(offers.push(offer).drop_last() =~= offers);
            offers = offers.push(offer);
            assert(connection.sent() =~= sent0 + offers);
            assert(sender_pool.messages@.take(i + 1) =~= sender_pool.messages@.take(i as int).push(
                message,
            ));
        }
        if !queued {
            failed = failed + 1;
        }
        i = i + 1;
    }
    assert(sender_pool.messages@.take(n as int) =~= sender_pool.messages@);
    assert((sent0 + offers).subrange(sent0.len() as int, (sent0 + offers).len() as int) =~= offers);
    assert((sent0 + offers).subrange(0, sent0.len() as int) =~= sent0);
    assert(connection.received().subrange(0, connection.received().len() as int)
        =~= connection.received());
    sender_pool.clear();
    failed
}

} // verus!
