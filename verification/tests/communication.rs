use serpe_orchestrator::channel::{delivered_message, Inbox, Outbox, Received};
use serpe_orchestrator::dialects::messages::{
    Heartbeat, HeartbeatAck, MissionAccept, MissionFinished, MissionRequest, MissionUpdate,
    Register, RegisterAck, Unregister, UnregisterAck,
};
use serpe_orchestrator::dialects::SerpeDialect;
use serpe_orchestrator::orchestrator::communication::message_pools::{
    MessageSenderPool, MessageSnapshot,
};
use serpe_orchestrator::orchestrator::communication::{
    admit_registration, check_registration, handle_incoming, is_sendable, receive_messages,
    listen_step, register_agent, send_messages, ConnectionStatus, FrameEvent, InboxStep,
    ListenAction, RegistrationRefusal, SessionConnection,
    MAX_MESSAGE_ITERATIONS,
};
use serpe_orchestrator::orchestrator::misc::system_id_table::SystemIdTable;

fn heartbeat() -> SerpeDialect {
    SerpeDialect::Heartbeat(Heartbeat { longitude: 7, latitude: 9 })
}

#[test]
fn session_loses_connection_updates_connection_status() {
    let mut status = ConnectionStatus::Connected;
    let mut snapshot = MessageSnapshot::default();
    let mut table = SystemIdTable::new();
    let step = handle_incoming(Received::Disconnected, 1, &mut status, &mut snapshot, &mut table);
    assert_eq!(step, InboxStep::Stop);
    assert_eq!(status, ConnectionStatus::Disconnected);
    assert!(snapshot.messages.is_empty());
}

#[test]
fn receiving_from_a_dropped_agent_marks_connection_disconnected() {
    let (incoming_tx, incoming_rx) = tokio::sync::mpsc::channel(8);
    let (outgoing_tx, _outgoing_rx) = tokio::sync::mpsc::channel(8);
    let mut table = SystemIdTable::new();
    let id = table.allocate().unwrap();
    let mut connection = SessionConnection::new(id, incoming_rx, outgoing_tx);
    incoming_tx.try_send(heartbeat()).unwrap();
    drop(incoming_tx);
    let mut snapshot = MessageSnapshot::default();
    let unregistered = receive_messages(&mut connection, &mut snapshot, &mut table);
    assert!(!unregistered);
    assert_eq!(connection.status, ConnectionStatus::Disconnected);
    assert_eq!(snapshot.messages, vec![heartbeat()]);
    assert_eq!(table.count(), 1);
}

#[test]
fn handle_incoming_keeps_only_agent_reports() {
    let mut status = ConnectionStatus::Connected;
    let mut snapshot = MessageSnapshot::default();
    let mut table = SystemIdTable::new();
    let reports = [
        heartbeat(),
        SerpeDialect::MissionAccept(MissionAccept {}),
        SerpeDialect::MissionUpdate(MissionUpdate {}),
        SerpeDialect::MissionFinished(MissionFinished {}),
    ];
    for m in reports.iter() {
        let step = handle_incoming(Received::Message(*m), 1, &mut status, &mut snapshot, &mut table);
        assert_eq!(step, InboxStep::Continue);
    }
    let others = [
        SerpeDialect::RegisterAck(RegisterAck { system_id: 4 }),
        SerpeDialect::HeartbeatAck(HeartbeatAck {}),
        SerpeDialect::MissionRequest(MissionRequest {}),
        SerpeDialect::Register(Register { agent_id: 1, longitude: 0, latitude: 0 }),
    ];
    for m in others.iter() {
        let step = handle_incoming(Received::Message(*m), 1, &mut status, &mut snapshot, &mut table);
        assert_eq!(step, InboxStep::Continue);
    }
    assert_eq!(snapshot.messages, reports.to_vec());
    let step = handle_incoming(Received::Empty, 1, &mut status, &mut snapshot, &mut table);
    assert_eq!(step, InboxStep::Stop);
    assert_eq!(status, ConnectionStatus::Connected);
}

#[test]
fn unregister_releases_system_id_and_acknowledges() {
    let (incoming_tx, incoming_rx) = tokio::sync::mpsc::channel(8);
    let (outgoing_tx, mut outgoing_rx) = tokio::sync::mpsc::channel(8);
    let mut table = SystemIdTable::new();
    let id = table.allocate().unwrap();
    let mut connection = SessionConnection::new(id, incoming_rx, outgoing_tx);
    incoming_tx.try_send(SerpeDialect::Unregister(Unregister {})).unwrap();
    let mut snapshot = MessageSnapshot::default();
    let unregistered = receive_messages(&mut connection, &mut snapshot, &mut table);
    assert!(unregistered);
    assert_eq!(table.count(), 0);
    assert_eq!(connection.status, ConnectionStatus::Connected);
    assert_eq!(
        outgoing_rx.try_recv().unwrap(),
        SerpeDialect::UnregisterAck(UnregisterAck {})
    );
}

#[test]
fn receiving_stops_after_the_iteration_limit() {
    let (incoming_tx, incoming_rx) = tokio::sync::mpsc::channel(200);
    let (outgoing_tx, _outgoing_rx) = tokio::sync::mpsc::channel(8);
    let mut table = SystemIdTable::new();
    let mut connection = SessionConnection::new(table.allocate().unwrap(), incoming_rx, outgoing_tx);
    for _ in 0..100 {
        incoming_tx.try_send(heartbeat()).unwrap();
    }
    let mut snapshot = MessageSnapshot::default();
    receive_messages(&mut connection, &mut snapshot, &mut table);
    assert_eq!(snapshot.messages.len(), MAX_MESSAGE_ITERATIONS as usize);
    receive_messages(&mut connection, &mut snapshot, &mut table);
    assert_eq!(snapshot.messages.len(), 36);
}

#[test]
fn registration_is_refused_when_network_is_full() {
    let mut table = SystemIdTable::new();
    assert_eq!(admit_registration(2, &mut table), Some(1));
    assert_eq!(admit_registration(2, &mut table), Some(2));
    assert_eq!(admit_registration(2, &mut table), None);
    assert_eq!(table.count(), 2);
    assert_eq!(admit_registration(0, &mut SystemIdTable::new()), None);
}

#[test]
fn registering_session_first_response_is_acknowledge() {
    let (sender, mut receiver) = tokio::sync::mpsc::channel(4);
    let (_incoming_tx, incoming_rx) = tokio::sync::mpsc::channel(4);
    let mut table = SystemIdTable::new();
    let connection = register_agent(100, Inbox::new(incoming_rx), Outbox::new(sender), &mut table).ok().unwrap();
    assert_eq!(connection.system_id, 1);
    assert_eq!(connection.status, ConnectionStatus::Connected);
    let msg = receiver.try_recv().expect("Expected to receive a message");
    if let SerpeDialect::RegisterAck(msg) = msg {
        assert_ne!(msg.system_id, 0);
    } else {
        panic!("Expected RegisterAck message");
    }
}

#[test]
fn failed_acknowledgement_gives_the_id_back() {
    let (sender, receiver) = tokio::sync::mpsc::channel(4);
    drop(receiver);
    let (_incoming_tx, incoming_rx) = tokio::sync::mpsc::channel(4);
    let mut table = SystemIdTable::new();
    match register_agent(100, Inbox::new(incoming_rx), Outbox::new(sender), &mut table) {
        Err(RegistrationRefusal::AckNotQueued(connection)) => assert_eq!(connection.system_id, 1),
        _ => panic!("Expected the acknowledgement to be refused"),
    }
    assert_eq!(table.count(), 0);
}

#[test]
fn first_message_must_be_a_registration() {
    let register = Register { agent_id: 250, longitude: 1, latitude: 2 };
    assert_eq!(check_registration(&SerpeDialect::Register(register)), Some(register));
    assert_eq!(check_registration(&heartbeat()), None);
}

#[test]
fn only_orchestrator_messages_are_written() {
    assert!(is_sendable(&SerpeDialect::RegisterAck(RegisterAck { system_id: 1 })));
    assert!(is_sendable(&SerpeDialect::HeartbeatAck(HeartbeatAck {})));
    assert!(is_sendable(&SerpeDialect::MissionRequest(MissionRequest {})));
    assert!(!is_sendable(&heartbeat()));
    assert!(!is_sendable(&SerpeDialect::Unregister(Unregister {})));
}

#[test]
fn queued_messages_are_sent_in_order_and_cleared() {
    let (outgoing_tx, mut outgoing_rx) = tokio::sync::mpsc::channel(1);
    let (_incoming_tx, incoming_rx) = tokio::sync::mpsc::channel(1);
    let mut connection = SessionConnection::new(3, incoming_rx, outgoing_tx);
    let mut pool = MessageSenderPool::default();
    pool.append(SerpeDialect::HeartbeatAck(HeartbeatAck {}));
    pool.append(SerpeDialect::MissionRequest(MissionRequest {}));
    assert_eq!(pool.iter().count(), 2);
    let failed = send_messages(&mut connection, &mut pool);
    assert_eq!(failed, 1);
    assert!(pool.messages.is_empty());
    assert_eq!(outgoing_rx.try_recv().unwrap(), SerpeDialect::HeartbeatAck(HeartbeatAck {}));
}

#[test]
fn receive_register_creates_entity() {
    let (sender, _receiver) = tokio::sync::mpsc::channel(4);
    let (_incoming_tx, incoming_rx) = tokio::sync::mpsc::channel(4);
    let mut table = SystemIdTable::new();
    let connection = register_agent(100, Inbox::new(incoming_rx), Outbox::new(sender), &mut table);
    assert!(connection.is_ok());
    assert_eq!(table.count(), 1);
}

#[test]
fn unregister_message_empties_world() {
    // Given: an agent registered and acknowledged
    let (outgoing_tx, mut receiver) = tokio::sync::mpsc::channel(8);
    let (sender, incoming_rx) = tokio::sync::mpsc::channel(8);
    let mut table = SystemIdTable::new();
    let mut connection = register_agent(100, Inbox::new(incoming_rx), Outbox::new(outgoing_tx), &mut table).ok().unwrap();

    // When
    sender
        .try_send(SerpeDialect::Unregister(Unregister {}))
        .expect("Message send failed");
    let mut snapshot = MessageSnapshot::default();
    let unregistered = receive_messages(&mut connection, &mut snapshot, &mut table);
    let _ = receiver.try_recv().expect("Expected message"); // register ack

    // Then
    assert!(unregistered);
    assert_eq!(table.count(), 0);
    let msg = receiver.try_recv().expect("Expected message");
    if let SerpeDialect::UnregisterAck(_) = msg {
    } else {
        panic!("Expected UnregisterAck message");
    }
}

#[test]
fn delivered_message_reads_only_messages() {
    assert_eq!(delivered_message(Received::Message(5u8)), Some(5));
    assert_eq!(delivered_message(Received::<u8>::Empty), None);
    assert_eq!(delivered_message(Received::<u8>::Disconnected), None);
}

#[test]
fn each_tick_starts_from_an_empty_snapshot() {
    let (incoming_tx, incoming_rx) = tokio::sync::mpsc::channel(8);
    let (outgoing_tx, _outgoing_rx) = tokio::sync::mpsc::channel(8);
    let mut table = SystemIdTable::new();
    let mut connection = SessionConnection::new(table.allocate().unwrap(), incoming_rx, outgoing_tx);
    let mut snapshot = MessageSnapshot::default();
    snapshot.append(heartbeat());
    receive_messages(&mut connection, &mut snapshot, &mut table);
    assert!(snapshot.messages.is_empty());
    incoming_tx.try_send(SerpeDialect::MissionUpdate(MissionUpdate {})).unwrap();
    incoming_tx.try_send(heartbeat()).unwrap();
    receive_messages(&mut connection, &mut snapshot, &mut table);
    assert_eq!(
        snapshot.messages,
        vec![SerpeDialect::MissionUpdate(MissionUpdate {}), heartbeat()]
    );
}

#[test]
fn registration_refusals_name_their_reason() {
    let mut table = SystemIdTable::new();
    let (tx, _rx) = tokio::sync::mpsc::channel(4);
    let (_itx, irx) = tokio::sync::mpsc::channel(4);
    assert!(matches!(
        register_agent(0, Inbox::new(irx), Outbox::new(tx), &mut table),
        Err(RegistrationRefusal::NetworkFull(_, _))
    ));
    for _ in 0..255 {
        table.allocate();
    }
    let (tx, _rx) = tokio::sync::mpsc::channel(4);
    let (_itx, irx) = tokio::sync::mpsc::channel(4);
    assert!(matches!(
        register_agent(1000, Inbox::new(irx), Outbox::new(tx), &mut table),
        Err(RegistrationRefusal::NoFreeId(_, _))
    ));
    assert_eq!(table.count(), 255);
}

#[test]
fn listen_reacts_to_each_frame_outcome() {
    assert_eq!(listen_step(FrameEvent::Decoded(heartbeat())), ListenAction::Forward(heartbeat()));
    assert_eq!(listen_step(FrameEvent::ConnectionClosed), ListenAction::Finish);
    assert_eq!(listen_step(FrameEvent::ReceiveFailed), ListenAction::Fail);
    assert_eq!(listen_step(FrameEvent::BadChecksum), ListenAction::Skip);
    assert_eq!(listen_step(FrameEvent::Undecodable), ListenAction::Skip);
}

#[test]
fn refused_agent_is_sent_nothing() {
    let mut table = SystemIdTable::new();
    let (tx, mut rx) = tokio::sync::mpsc::channel(4);
    let (_itx, irx) = tokio::sync::mpsc::channel(4);
    let refusal = register_agent(0, Inbox::new(irx), Outbox::new(tx), &mut table);
    assert!(matches!(refusal, Err(RegistrationRefusal::NetworkFull(_, _))));
    assert!(rx.try_recv().is_err());
    assert_eq!(table.count(), 0);
}
