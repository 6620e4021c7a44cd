use cdylib_shim::orchestrator::{LoadError, Orchestrator};
use cdylib_shim::slots::SlotTable;

#[test]
fn load_fills_every_slot_with_its_lookup_result() {
    // after Loaded, get(E) is the non-sentinel address lookup returned
    let mut orch: Orchestrator<u32> = Orchestrator::new(3);
    let resolution = vec![Some(0x1111u64), Some(0x2222u64), Some(0x3333u64)];
    assert_eq!(orch.load(7, &resolution), Ok(true));
    assert_eq!(orch.get(0), Some(0x1111));
    assert_eq!(orch.get(1), Some(0x2222));
    assert_eq!(orch.get(2), Some(0x3333));
}

#[test]
fn racing_loads_observe_one_execution_and_one_table() {
    // the first-use guard: the second load attempt is a no-op, whatever
    // resolution it brings, and the table stays the winner's
    let mut orch: Orchestrator<u32> = Orchestrator::new(2);
    let first = vec![Some(0xaaaau64), Some(0xbbbbu64)];
    let second = vec![Some(0x1u64), Some(0x2u64)];
    assert_eq!(orch.load(1, &first), Ok(true));
    assert_eq!(orch.load(2, &second), Ok(false));
    assert_eq!(orch.get(0), Some(0xaaaa));
    assert_eq!(orch.get(1), Some(0xbbbb));
}

#[test]
fn missing_export_aborts_the_transition() {
    let mut orch: Orchestrator<u32> = Orchestrator::new(3);
    let resolution = vec![Some(0x1111u64), None, Some(0x3333u64)];
    assert_eq!(orch.load(7, &resolution), Err(LoadError::MissingExport(1)));
    // the shim must not pretend to be ready: a later, complete resolution
    // may still load it
    let good = vec![Some(0x1u64), Some(0x2u64), Some(0x3u64)];
    assert_eq!(orch.load(8, &good), Ok(true));
    assert_eq!(orch.get(1), Some(0x2));
}

#[test]
fn zero_address_counts_as_missing() {
    let mut orch: Orchestrator<u32> = Orchestrator::new(2);
    let resolution = vec![Some(0x1111u64), Some(0u64)];
    assert_eq!(orch.load(7, &resolution), Err(LoadError::MissingExport(1)));
}

#[test]
fn detach_hands_the_handle_back_once() {
    let mut orch: Orchestrator<u32> = Orchestrator::new(1);
    assert_eq!(orch.load(42, &vec![Some(0x1u64)]), Ok(true));
    assert_eq!(orch.detach(), Some(42));
    assert_eq!(orch.detach(), None);
}

#[test]
fn stepwise_load_matches_the_guarded_one() {
    let mut orch: Orchestrator<u32> = Orchestrator::new(2);
    assert!(orch.begin_load(9));
    assert_eq!(orch.fill_slots(&vec![Some(0x10u64), Some(0x20u64)]), Ok(()));
    // the user load callback would run here, before the shim is ready
    orch.complete_load();
    assert_eq!(orch.get(0), Some(0x10));
    assert_eq!(orch.get(1), Some(0x20));
    assert_eq!(orch.export_count(), 2);
}

#[test]
fn slot_table_reads_what_was_written() {
    let mut t = SlotTable::new(2);
    assert_eq!(t.len(), 2);
    assert_eq!(t.get(0), None); // the sentinel reads as unresolved
    t.set(0, 0xdead);
    assert_eq!(t.get(0), Some(0xdead));
    assert_eq!(t.get(1), None);
}
