use serpe_orchestrator::orchestrator::domain::session::SessionState;
use serpe_orchestrator::orchestrator::domain::state::RuntimeState;
use serpe_orchestrator::orchestrator::systems::diagnostic::on_session_collection;
use std::time::Instant;

#[test]
fn registering_new_session() {
    // Arrange
    let mut state = RuntimeState::new(Instant::now());

    // Act
    let result = state.register_session();

    // Assert
    assert!(result.is_ok());
}

#[test]
fn registering_session_then_retrieve_it() {
    // Arrange
    let mut state = RuntimeState::new(Instant::now());
    let result = state.register_session();
    let session_id = result.expect("Expected the result to be ok!");

    // Act
    let session = state.obtain_session(&session_id);

    // Assert
    assert!(session.is_some(), "Retrieving session was not possible!");
}

#[test]
fn registering_session_then_retrieving_it_has_same_id() {
    // Arrange
    let mut state = RuntimeState::new(Instant::now());
    let result = state.register_session();
    let session_id = result.expect("Expected the result to be ok!");

    // Act
    let session = state.obtain_session(&session_id).expect("Session should be present!");

    // Assert
    assert_eq!(session_id, session.session_id);
}

#[test]
fn session_ids_start_at_one_and_increase() {
    let mut state = RuntimeState::new(Instant::now());
    assert_eq!(state.last_issued_session_id(), 0);
    assert_eq!(state.register_session(), Ok(1));
    assert_eq!(state.register_session(), Ok(2));
    assert_eq!(state.generate_session_id(), 3);
    assert_eq!(state.register_session(), Ok(4));
    assert_eq!(state.last_issued_session_id(), 4);
    assert_eq!(state.session_table().len(), 3);
    assert!(state.obtain_session(&3).is_none());
}

#[test]
fn unknown_session_is_not_found() {
    let mut state = RuntimeState::new(Instant::now());
    assert!(state.obtain_session(&1).is_none());
    state.register_session().unwrap();
    assert!(state.obtain_session(&2).is_none());
    let session = state.obtain_session(&1).unwrap();
    assert_eq!(session.state, SessionState::IDLE);
}

#[test]
fn start_time_is_kept() {
    let start = Instant::now();
    let state = RuntimeState::new(start);
    assert_eq!(state.start_time(), start);
}

#[test]
fn session_collection_lists_every_session_once() {
    let mut state = RuntimeState::new(Instant::now());
    assert!(on_session_collection(&state).is_empty());
    for _ in 0..5 {
        state.register_session().unwrap();
    }
    let mut sessions = on_session_collection(&state);
    sessions.sort_by_key(|(id, _)| *id);
    let ids: Vec<u64> = sessions.iter().map(|(id, _)| *id).collect();
    assert_eq!(ids, vec![1, 2, 3, 4, 5]);
    assert!(sessions.iter().all(|(_, s)| *s == SessionState::IDLE));
}
