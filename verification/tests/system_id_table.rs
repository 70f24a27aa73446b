use serpe_orchestrator::orchestrator::misc::system_id_table::SystemIdTable;

#[test]
fn allocation_starts_at_one_and_takes_the_lowest_free_id() {
    let mut table = SystemIdTable::new();
    assert_eq!(table.count(), 0);
    assert_eq!(table.allocate(), Some(1));
    assert_eq!(table.allocate(), Some(2));
    assert_eq!(table.allocate(), Some(3));
    table.release(2);
    assert_eq!(table.count(), 2);
    assert_eq!(table.allocate(), Some(2));
    assert_eq!(table.allocate(), Some(4));
    assert_eq!(table.count(), 4);
}

#[test]
fn all_255_ids_then_none() {
    let mut table = SystemIdTable::default();
    for expected in 1..=255u16 {
        assert_eq!(table.allocate(), Some(expected as u8));
    }
    assert_eq!(table.count(), 255);
    assert_eq!(table.allocate(), None);
    assert_eq!(table.count(), 255);
    table.release(200);
    assert_eq!(table.allocate(), Some(200));
}

#[test]
fn releasing_unused_or_gcs_id_changes_nothing() {
    let mut table = SystemIdTable::new();
    table.allocate();
    table.release(0);
    table.release(77);
    assert_eq!(table.count(), 1);
    table.release(1);
    table.release(1);
    assert_eq!(table.count(), 0);
    assert_eq!(table.allocate(), Some(1));
}
