use consensus_select::engine::AuraEngine;
use consensus_select::lazy::BuildOnAccess;
use std::cell::Cell;

#[test]
fn cell_starts_unbuilt() {
    let cell: BuildOnAccess<AuraEngine, _> = BuildOnAccess::new(|| AuraEngine::new(4, 2));
    assert!(!cell.is_built());
}

#[test]
fn cell_builds_on_first_access() {
    let mut cell = BuildOnAccess::new(|| AuraEngine::new(4, 2));
    let engine = cell.get_mut();
    assert_eq!(engine.authority_count, 4);
    assert_eq!(engine.local_authority_index, 2);
    assert!(cell.is_built());
}

#[test]
fn factory_runs_exactly_once() {
    let runs = Cell::new(0u32);
    let mut cell = BuildOnAccess::new(|| {
        runs.set(runs.get() + 1);
        AuraEngine::new(3, 0)
    });
    assert_eq!(runs.get(), 0);
    let first = *cell.get_mut();
    let second = *cell.get_mut();
    let third = *cell.get_mut();
    assert_eq!(runs.get(), 1);
    assert_eq!(first, second);
    assert_eq!(second, third);
}
