use consensus_select::block::{
    BlockHeader, BlockOrigin, ParachainCandidate, PersistedValidationData, VerificationFailure,
};
use consensus_select::engine::{AuraEngine, RelayChainEngine};
use consensus_select::probe::RuntimeCapabilityProbe;
use consensus_select::selector::{ConsensusSelector, EngineKind, VerifierSelector};
use std::cell::Cell;

fn header(number: u64, parent_number: u64, slot: u64, author: u64) -> BlockHeader {
    BlockHeader { number, parent_number, slot, author }
}

fn validation_data(relay_parent_number: u64, inclusion_signaled: bool) -> PersistedValidationData {
    PersistedValidationData { relay_parent_number, inclusion_signaled }
}

/// Capability false for blocks 0..10, true from block 10 on.
fn migrated_at_ten() -> RuntimeCapabilityProbe {
    let mut probe = RuntimeCapabilityProbe::new();
    for block in 0..20u64 {
        probe.record(block, block >= 10);
    }
    probe
}

#[test]
fn producer_routes_relay_when_incapable() {
    let mut selector =
        ConsensusSelector::new(migrated_at_ten(), || AuraEngine::new(2, 1), RelayChainEngine::new());
    let genesis = header(0, 0, 0, 0);
    assert_eq!(selector.current_mode(0), EngineKind::RelayChain);
    // gated by the relay chain's inclusion signal
    assert_eq!(selector.produce_candidate(&genesis, 1, &validation_data(1, false)), None);
    assert_eq!(
        selector.produce_candidate(&genesis, 2, &validation_data(2, true)),
        Some(ParachainCandidate { header: header(1, 0, 0, 0), relay_parent: 2 })
    );
    assert!(!selector.is_aura_built());
    assert!(!selector.is_latched());
}

#[test]
fn producer_routes_aura_when_capable() {
    let mut selector =
        ConsensusSelector::new(migrated_at_ten(), || AuraEngine::new(2, 1), RelayChainEngine::new());
    let parent = header(10, 9, 10, 0);
    assert_eq!(selector.current_mode(10), EngineKind::Aura);
    assert_eq!(
        selector.produce_candidate(&parent, 3, &validation_data(3, true)),
        Some(ParachainCandidate { header: header(11, 10, 11, 1), relay_parent: 3 })
    );
    assert!(selector.is_aura_built());
    assert!(selector.is_latched());
}

#[test]
fn producer_skips_foreign_slot_in_aura_mode() {
    let mut selector =
        ConsensusSelector::new(migrated_at_ten(), || AuraEngine::new(2, 0), RelayChainEngine::new());
    let parent = header(10, 9, 10, 1);
    // slot 11 belongs to authority 1: no candidate, yet the engine is built
    assert_eq!(selector.produce_candidate(&parent, 3, &validation_data(3, true)), None);
    assert!(selector.is_aura_built());
}

#[test]
fn latch_is_one_directional() {
    let mut selector =
        ConsensusSelector::new(migrated_at_ten(), || AuraEngine::new(2, 1), RelayChainEngine::new());
    // first touch at a capable parent latches Aura mode
    selector.produce_candidate(&header(10, 9, 10, 0), 1, &validation_data(1, true));
    assert!(selector.is_latched());
    // a parent whose probe would answer false no longer reverts the choice
    assert_eq!(selector.current_mode(0), EngineKind::Aura);
    let candidate = selector.produce_candidate(&header(0, 0, 0, 0), 2, &validation_data(2, true));
    // routed to Aura: slot 1 belongs to authority 1, so a candidate is authored
    assert_eq!(
        candidate,
        Some(ParachainCandidate { header: header(1, 0, 1, 1), relay_parent: 2 })
    );
}

#[test]
fn aura_engine_constructed_once() {
    let runs = Cell::new(0u32);
    let mut selector = ConsensusSelector::new(
        migrated_at_ten(),
        || {
            runs.set(runs.get() + 1);
            AuraEngine::new(2, 1)
        },
        RelayChainEngine::new(),
    );
    // relay-mode traffic does not build the Aura engine
    selector.produce_candidate(&header(0, 0, 0, 0), 1, &validation_data(1, true));
    assert_eq!(runs.get(), 0);
    for i in 0..5u64 {
        selector.produce_candidate(&header(10 + i, 9 + i, 10 + i, 0), 2 + i, &validation_data(2, true));
    }
    assert_eq!(runs.get(), 1);
}

#[test]
fn verifier_routes_by_parent_capability() {
    let mut verifier =
        VerifierSelector::new(migrated_at_ten(), || AuraEngine::new(2, 1), RelayChainEngine::new());
    // parent 5 is pre-migration: relayed pass-through, slot and author unchecked
    let relayed = header(6, 5, 0, 0);
    assert!(verifier.verify(BlockOrigin::NetworkBroadcast, relayed, None, None).is_ok());
    assert!(!verifier.is_aura_built());
    // parent 10 is post-migration: the Aura rules apply
    let aura_ok = header(11, 10, 11, 1);
    assert!(verifier.verify(BlockOrigin::NetworkBroadcast, aura_ok, None, None).is_ok());
    assert!(verifier.is_aura_built());
}

#[test]
fn verifier_rejects_invalid_aura_header() {
    let mut verifier =
        VerifierSelector::new(migrated_at_ten(), || AuraEngine::new(2, 1), RelayChainEngine::new());
    // slot 11 belongs to authority 1; a header claiming author 0 is rejected
    let forged = header(11, 10, 11, 0);
    let outcome = verifier.verify(BlockOrigin::NetworkBroadcast, forged, None, None);
    assert_eq!(outcome, Err(VerificationFailure::SlotAuthorMismatch));
    // the rejection leaves the verifier working: a valid sibling passes
    let honest = header(11, 10, 11, 1);
    assert!(verifier.verify(BlockOrigin::NetworkBroadcast, honest, None, None).is_ok());
}

#[test]
fn produced_blocks_verify_under_same_parent() {
    // mode agreement: author with one selector, verify with the other,
    // over the same recorded chain state
    let mut producer =
        ConsensusSelector::new(migrated_at_ten(), || AuraEngine::new(2, 1), RelayChainEngine::new());
    let mut verifier =
        VerifierSelector::new(migrated_at_ten(), || AuraEngine::new(2, 1), RelayChainEngine::new());

    // capability false at this parent: relayed on both paths
    let pre = header(3, 2, 0, 0);
    let candidate = producer.produce_candidate(&pre, 1, &validation_data(1, true)).unwrap();
    assert_eq!(producer.current_mode(pre.number), verifier.current_mode(pre.number));
    assert!(verifier.verify(BlockOrigin::NetworkBroadcast, candidate.header, None, None).is_ok());

    // capability true at this parent: Aura on both paths
    let post = header(10, 9, 10, 0);
    let candidate = producer.produce_candidate(&post, 2, &validation_data(2, true)).unwrap();
    assert_eq!(producer.current_mode(post.number), verifier.current_mode(post.number));
    assert!(verifier.verify(BlockOrigin::NetworkBroadcast, candidate.header, None, None).is_ok());
}

#[test]
fn shell_to_aura_migration_scenario() {
    let mut producer =
        ConsensusSelector::new(migrated_at_ten(), || AuraEngine::new(2, 1), RelayChainEngine::new());
    let mut verifier =
        VerifierSelector::new(migrated_at_ten(), || AuraEngine::new(2, 1), RelayChainEngine::new());

    // at genesis the capability is false: the relayed engine authors, and
    // only when the relay chain's inclusion signal allows it
    let genesis = header(0, 0, 0, 0);
    assert_eq!(producer.produce_candidate(&genesis, 1, &validation_data(1, false)), None);
    let b1 = producer.produce_candidate(&genesis, 2, &validation_data(2, true)).unwrap();
    assert_eq!(b1.header, header(1, 0, 0, 0));
    assert!(verifier.verify(BlockOrigin::NetworkBroadcast, b1.header, None, None).is_ok());
    assert!(!producer.is_aura_built());

    // capability flips true at block 10: the Aura engine is built once and
    // authors exactly when the next slot is this node's
    let g10 = header(10, 9, 10, 0);
    let b11 = producer.produce_candidate(&g10, 3, &validation_data(3, true)).unwrap();
    assert_eq!(b11.header, header(11, 10, 11, 1));
    assert!(producer.is_aura_built());
    // slot 12 belongs to authority 0: not this node's turn
    assert_eq!(producer.produce_candidate(&b11.header, 4, &validation_data(4, true)), None);

    // blocks descending from block 10 take the Aura verify path: the slot's
    // owner must be the claimed author
    assert!(verifier.verify(BlockOrigin::NetworkBroadcast, b11.header, None, None).is_ok());
    let forged = header(12, 11, 12, 1); // slot 12 % 2 == 0 != 1
    assert_eq!(
        verifier.verify(BlockOrigin::NetworkBroadcast, forged, None, None),
        Err(VerificationFailure::SlotAuthorMismatch)
    );
}
