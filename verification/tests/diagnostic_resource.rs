use serpe_orchestrator::orchestrator::diagnostic::messages::DiagnosticRequest;
use serpe_orchestrator::orchestrator::diagnostic::DiagnosticResource;

#[test]
fn requests_are_read_one_per_call() {
    let (tx, rx) = tokio::sync::mpsc::channel(4);
    let mut resource = DiagnosticResource::new(rx);
    assert_eq!(resource.next_request(), None);
    tx.try_send(DiagnosticRequest::ServerInformation).unwrap();
    tx.try_send(DiagnosticRequest::Environment).unwrap();
    assert_eq!(resource.next_request(), Some(DiagnosticRequest::ServerInformation));
    assert_eq!(resource.next_request(), Some(DiagnosticRequest::Environment));
    drop(tx);
    assert_eq!(resource.next_request(), None);
}
