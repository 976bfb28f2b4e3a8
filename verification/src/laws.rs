//! The guarantees the selection layer lives by, stated and proved once.

use crate::block::{BlockHeader, ParachainCandidate, PersistedValidationData};
use crate::engine::{AuraEngine, RelayChainEngine};
use crate::lazy::BuildOnAccess;
use crate::probe::spec_capability;
use crate::selector::{spec_mode, EngineKind};
use vstd::prelude::*;

verus! {

/// Capability consistency: state is immutable once imported, so any two
/// probes of the same state at the same block reference return the same
/// boolean.
pub proof fn lemma_capability_consistent(caps: Map<u64, bool>, block: u64, b1: bool, b2: bool)
    requires
        b1 == spec_capability(caps, block),
        b2 == spec_capability(caps, block),
    ensures
        b1 == b2,
{
}

/// Mode agreement across the migration: a candidate authored by one node's
/// Aura engine against a capability-bearing parent routes to the Aura path
/// on every node that reads the same chain state — whatever latch state
/// either selector is in — and passes the Aura verification rules of any
/// node with the same authority set, whichever authority that node is.
pub proof fn lemma_aura_block_agreement(
    producer: AuraEngine,
    verifier: AuraEngine,
    producer_latched: bool,
    verifier_latched: bool,
    caps: Map<u64, bool>,
    parent: BlockHeader,
    relay_parent: u64,
    c: ParachainCandidate,
)
    requires
        producer.wf(),
        verifier.wf(),
        producer.authority_count == verifier.authority_count,
        parent.number < u64::MAX,
        parent.slot < u64::MAX,
        spec_capability(caps, parent.number),
        producer.spec_produce(parent, relay_parent) == Some(c),
    ensures
        spec_mode(producer_latched, caps, parent.number) == EngineKind::Aura,
        c.header.parent_number == parent.number,
        spec_mode(verifier_latched, caps, c.header.parent_number) == EngineKind::Aura,
        verifier.spec_verify_ok(c.header),
{
}

/// Mode agreement before the migration: while neither selector has latched,
/// a candidate the relay-chain-relayed engine authors against a parent
/// without the capability routes to the relayed path on the verification
/// side too, and passes its rules.
pub proof fn lemma_relayed_block_agreement(
    engine: RelayChainEngine,
    caps: Map<u64, bool>,
    parent: BlockHeader,
    relay_parent: u64,
    validation_data: PersistedValidationData,
    c: ParachainCandidate,
)
    requires
        parent.number < u64::MAX,
        !spec_capability(caps, parent.number),
        engine.spec_produce(parent, relay_parent, validation_data) == Some(c),
    ensures
        spec_mode(false, caps, parent.number) == EngineKind::RelayChain,
        c.header.parent_number == parent.number,
        spec_mode(false, caps, c.header.parent_number) == EngineKind::RelayChain,
        engine.spec_verify_ok(c.header),
{
}

/// Single construction: over any run of accesses to one cell, every access
/// after the first observes the very same built value.  `states` are the
/// cell's states before each access and after the last one; `results` the
/// values the accesses handed out, none of them written through afterwards.
pub proof fn lemma_single_construction<R, F: FnOnce() -> R>(
    states: Seq<BuildOnAccess<R, F>>,
    results: Seq<R>,
)
    requires
        states.len() == results.len() + 1,
        results.len() >= 1,
        forall|j: int|
            0 <= j < results.len() ==> BuildOnAccess::builds_to(#[trigger] states[j], results[j]),
        forall|j: int|
            0 <= j < results.len() ==> states[j + 1] == BuildOnAccess::<R, F>::Initialized(
                #[trigger] results[j],
            ),
    ensures
        forall|j: int| 0 <= j < results.len() ==> #[trigger] results[j] == results[0],
    decreases results.len(),
{
    if results.len() > 1 {
        let n = results.len() as int;
        lemma_single_construction(states.drop_last(), results.drop_last());
        assert forall|j: int| 0 <= j < n implies #[trigger] results[j] == results[0] by {
            if j < n - 1 {
                assert(results.drop_last()[j] == results[0]);
            } else {
                assert(states[n - 1] == BuildOnAccess::<R, F>::Initialized(results[n - 2]));
                assert(BuildOnAccess::builds_to(states[n - 1], results[n - 1]));
                assert(results[n - 1] == results[n - 2]);
                assert(results.drop_last()[n - 2] == results[0]);
            }
        }
    }
}

/// One-directional transition: a latched selector picks the Aura engine for
/// every parent, whatever the probe at that parent would say.
pub proof fn lemma_latch_sticky(caps: Map<u64, bool>, parent: u64)
    ensures
        spec_mode(true, caps, parent) == EngineKind::Aura,
{
}

} // verus!
