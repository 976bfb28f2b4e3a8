//! Protocol-state-aware dispatch between the two consensus engines.
//!
//! `ConsensusSelector` routes each authoring opportunity, and
//! `VerifierSelector` each incoming block, to the Aura engine or to the
//! relay-chain-relayed engine.  Both key the choice on the parent block of
//! the work at hand and read the same capability probe, so that for any one
//! parent the authoring path and the verification path agree on the
//! protocol.
//!
//! Each selector starts in relay-chain mode.  The first time it observes the
//! Aura capability on a parent it latches into Aura mode for the rest of its
//! lifetime and builds the Aura engine on first use; the runtime migration is
//! a one-way upgrade, so later probes are not consulted again and a rollback
//! is not handled.

use crate::block::{
    BlockHeader, BlockOrigin, ImportParams, ParachainCandidate, PersistedValidationData,
    VerificationOutcome,
};
use crate::engine::{AuraEngine, RelayChainEngine};
use crate::lazy::BuildOnAccess;
use crate::probe::{spec_capability, RuntimeCapabilityProbe};
use vstd::prelude::*;

verus! {

/// Which of the two engines handles a given block.
#[derive(Clone, Copy, Debug, PartialEq, Eq, Structural)]
pub enum EngineKind {
    Aura,
    RelayChain,
}

/// The engine a selector picks for a block whose parent is `parent`, given
/// the recorded capabilities `caps` and whether the selector has already
/// latched into Aura mode.
pub open spec fn spec_mode(latched: bool, caps: Map<u64, bool>, parent: u64) -> EngineKind {
    if latched || spec_capability(caps, parent) {
        EngineKind::Aura
    } else {
        EngineKind::RelayChain
    }
}

/// A cell for the deferred Aura engine whose factory may still run and can
/// only yield a well-formed engine; a cached engine is well-formed too.
pub open spec fn aura_cell_wf<F: FnOnce() -> AuraEngine>(
    cell: BuildOnAccess<AuraEngine, F>,
) -> bool {
    &&& cell.wf()
    &&& (cell matches BuildOnAccess::Uninitialized(of) ==> forall|e: AuraEngine|
        call_ensures(of->0, (), e) ==> e.wf())
    &&& (cell matches BuildOnAccess::Initialized(e) ==> e.wf())
}

/// The authoring-side selector: dispatches each candidate-production request
/// to the Aura engine (building it on first use) or to the always-available
/// relay-chain-relayed engine, according to the parent's capability.
pub struct ConsensusSelector<F> {
    probe: RuntimeCapabilityProbe,
    aura_consensus: BuildOnAccess<AuraEngine, F>,
    relay_chain_consensus: RelayChainEngine,
    aura_latched: bool,
}

impl<F: FnOnce() -> AuraEngine> ConsensusSelector<F> {
    /// The per-block capability this selector's probe can see.
    pub closed spec fn capabilities(self) -> Map<u64, bool> {
        self.probe.capabilities()
    }

    /// The state of the deferred Aura engine.
    pub closed spec fn aura_cell(self) -> BuildOnAccess<AuraEngine, F> {
        self.aura_consensus
    }

    /// The eagerly available relay-chain-relayed engine.
    pub closed spec fn relay_engine(self) -> RelayChainEngine {
        self.relay_chain_consensus
    }

    /// Whether this selector has observed the Aura capability and latched.
    pub closed spec fn latched(self) -> bool {
        self.aura_latched
    }

    pub closed spec fn wf(self) -> bool {
        &&& self.probe.wf()
        &&& aura_cell_wf(self.aura_consensus)
    }

    /// A selector in relay-chain mode, holding a pending factory for the
    /// Aura engine.
    pub fn new(
        probe: RuntimeCapabilityProbe,
        aura_factory: F,
        relay_chain_consensus: RelayChainEngine,
    ) -> (s: Self)
        requires
            probe.wf(),
            call_requires(aura_factory, ()),
            forall|e: AuraEngine| call_ensures(aura_factory, (), e) ==> e.wf(),
        ensures
            s.wf(),
            s.capabilities() == probe.capabilities(),
            s.aura_cell() == BuildOnAccess::<AuraEngine, F>::Uninitialized(Some(aura_factory)),
            s.relay_engine() == relay_chain_consensus,
            !s.latched(),
    {
        ConsensusSelector {
            probe,
            aura_consensus: BuildOnAccess::new(aura_factory),
            relay_chain_consensus,
            aura_latched: false,
        }
    }

    /// The engine this selector would pick for a block extending `parent`,
    /// without dispatching anything.  A pure query: no latch moves, no
    /// engine is built.
    pub fn current_mode(&self, parent: u64) -> (k: EngineKind)
        requires
            self.wf(),
        ensures
            k == spec_mode(self.latched(), self.capabilities(), parent),
    {
        if self.aura_latched || self.probe.has_aura_capability(parent) {
            EngineKind::Aura
        } else {
            EngineKind::RelayChain
        }
    }

    /// Whether the Aura engine has been built.
    pub fn is_aura_built(&self) -> (r: bool)
        ensures
            r == self.aura_cell().is_initialized(),
    {
        self.aura_consensus.is_built()
    }

    /// Whether this selector has latched into Aura mode.
    pub fn is_latched(&self) -> (r: bool)
        ensures
            r == self.latched(),
    {
        self.aura_latched
    }

    /// Handle one authoring opportunity: probe the capability at `parent`
    /// and delegate production to the matching engine, returning its answer
    /// verbatim (`None` — no candidate this round — included).
    ///
    /// In Aura mode the engine is built on first use and never rebuilt; the
    /// probe itself is never written to, and once Aura mode has been chosen
    /// it is kept for every later parent.
    pub fn produce_candidate(
        &mut self,
        parent: &BlockHeader,
        relay_parent: u64,
        validation_data: &PersistedValidationData,
    ) -> (r: Option<ParachainCandidate>)
        requires
            old(self).wf(),
            parent.number < u64::MAX,
            parent.slot < u64::MAX,
        ensures
            final(self).wf(),
            final(self).capabilities() == old(self).capabilities(),
            final(self).relay_engine() == old(self).relay_engine(),
            final(self).latched() == (spec_mode(
                old(self).latched(),
                old(self).capabilities(),
                parent.number,
            ) == EngineKind::Aura),
            spec_mode(old(self).latched(), old(self).capabilities(), parent.number)
                == EngineKind::Aura ==> {
                &&& final(self).aura_cell().is_initialized()
                &&& BuildOnAccess::builds_to(old(self).aura_cell(), final(self).aura_cell().value())
                &&& r == final(self).aura_cell().value().spec_produce(*parent, relay_parent)
            },
            spec_mode(old(self).latched(), old(self).capabilities(), parent.number)
                == EngineKind::RelayChain ==> {
                &&& final(self).aura_cell() == old(self).aura_cell()
                &&& r == old(self).relay_engine().spec_produce(
                    *parent,
                    relay_parent,
                    *validation_data,
                )
            },
    {
        let capable = self.aura_latched || self.probe.has_aura_capability(parent.number);
        if capable {
            self.aura_latched = true;
            let engine = self.aura_consensus.get_mut();
            engine.produce_candidate(parent, relay_parent, validation_data)
        } else {
            self.relay_chain_consensus.produce_candidate(parent, relay_parent, validation_data)
        }
    }
}

/// The verification-side selector: mirrors `ConsensusSelector` for incoming
/// blocks, keyed on the parent of the header being verified, so that a block
/// authored under a protocol is verified under the same one.
pub struct VerifierSelector<F> {
    probe: RuntimeCapabilityProbe,
    aura_verifier: BuildOnAccess<AuraEngine, F>,
    relay_chain_verifier: RelayChainEngine,
    aura_latched: bool,
}

impl<F: FnOnce() -> AuraEngine> VerifierSelector<F> {
    /// The per-block capability this selector's probe can see.
    pub closed spec fn capabilities(self) -> Map<u64, bool> {
        self.probe.capabilities()
    }

    /// The state of the deferred Aura verifier.
    pub closed spec fn aura_cell(self) -> BuildOnAccess<AuraEngine, F> {
        self.aura_verifier
    }

    /// The eagerly available relay-chain-relayed verifier.
    pub closed spec fn relay_engine(self) -> RelayChainEngine {
        self.relay_chain_verifier
    }

    /// Whether this selector has observed the Aura capability and latched.
    pub closed spec fn latched(self) -> bool {
        self.aura_latched
    }

    pub closed spec fn wf(self) -> bool {
        &&& self.probe.wf()
        &&& aura_cell_wf(self.aura_verifier)
    }

    /// A verifier in relay-chain mode, holding a pending factory for the
    /// Aura verifier.
    pub fn new(
        probe: RuntimeCapabilityProbe,
        aura_factory: F,
        relay_chain_verifier: RelayChainEngine,
    ) -> (s: Self)
        requires
            probe.wf(),
            call_requires(aura_factory, ()),
            forall|e: AuraEngine| call_ensures(aura_factory, (), e) ==> e.wf(),
        ensures
            s.wf(),
            s.capabilities() == probe.capabilities(),
            s.aura_cell() == BuildOnAccess::<AuraEngine, F>::Uninitialized(Some(aura_factory)),
            s.relay_engine() == relay_chain_verifier,
            !s.latched(),
    {
        VerifierSelector {
            probe,
            aura_verifier: BuildOnAccess::new(aura_factory),
            relay_chain_verifier,
            aura_latched: false,
        }
    }

    /// The engine this selector would pick for a block whose parent is
    /// `parent`, without verifying anything.
    pub fn current_mode(&self, parent: u64) -> (k: EngineKind)
        requires
            self.wf(),
        ensures
            k == spec_mode(self.latched(), self.capabilities(), parent),
    {
        if self.aura_latched || self.probe.has_aura_capability(parent) {
            EngineKind::Aura
        } else {
            EngineKind::RelayChain
        }
    }

    /// Whether the Aura verifier has been built.
    pub fn is_aura_built(&self) -> (r: bool)
        ensures
            r == self.aura_cell().is_initialized(),
    {
        self.aura_verifier.is_built()
    }

    /// Whether this selector has latched into Aura mode.
    pub fn is_latched(&self) -> (r: bool)
        ensures
            r == self.latched(),
    {
        self.aura_latched
    }

    /// Verify one incoming block: probe the capability at the header's
    /// parent and delegate to the matching engine.  A failure of the
    /// delegated check surfaces as a named reason for the import pipeline to
    /// reject the block with; it is never swallowed.
    pub fn verify(
        &mut self,
        origin: BlockOrigin,
        header: BlockHeader,
        justifications: Option<Vec<u8>>,
        body: Option<Vec<Vec<u8>>>,
    ) -> (r: VerificationOutcome)
        requires
            old(self).wf(),
        ensures
            final(self).wf(),
            final(self).capabilities() == old(self).capabilities(),
            final(self).relay_engine() == old(self).relay_engine(),
            final(self).latched() == (spec_mode(
                old(self).latched(),
                old(self).capabilities(),
                header.parent_number,
            ) == EngineKind::Aura),
            spec_mode(old(self).latched(), old(self).capabilities(), header.parent_number)
                == EngineKind::Aura ==> {
                &&& final(self).aura_cell().is_initialized()
                &&& BuildOnAccess::builds_to(old(self).aura_cell(), final(self).aura_cell().value())
                &&& ({
                    let engine = final(self).aura_cell().value();
                    if engine.spec_verify_ok(header) {
                        r == Ok::<ImportParams, crate::block::VerificationFailure>(
                            ImportParams { origin, header, body, justifications },
                        )
                    } else {
                        r == Err::<ImportParams, crate::block::VerificationFailure>(
                            engine.spec_verify_failure(header),
                        )
                    }
                })
            },
            spec_mode(old(self).latched(), old(self).capabilities(), header.parent_number)
                == EngineKind::RelayChain ==> {
                &&& final(self).aura_cell() == old(self).aura_cell()
                &&& (old(self).relay_engine().spec_verify_ok(header) ==> r == Ok::<
                    ImportParams,
                    crate::block::VerificationFailure,
                >(ImportParams { origin, header, body, justifications }))
                &&& (!old(self).relay_engine().spec_verify_ok(header) ==> r == Err::<
                    ImportParams,
                    crate::block::VerificationFailure,
                >(crate::block::VerificationFailure::NonSequentialNumber))
            },
    {
        let capable = self.aura_latched || self.probe.has_aura_capability(header.parent_number);
        if capable {
            self.aura_latched = true;
            let engine = self.aura_verifier.get_mut();
            engine.verify(origin, header, justifications, body)
        } else {
            self.relay_chain_verifier.verify(origin, header, justifications, body)
        }
    }
}

} // verus!
