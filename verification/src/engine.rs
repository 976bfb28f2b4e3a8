//! The two consensus engines the selectors dispatch between.
//!
//! Both engines meet the same capability contract: `produce_candidate`
//! attempts to author a block extending a parent (returning `None` when this
//! node is not the current author — a normal outcome, not an error), and
//! `verify` checks an incoming block's header against the engine's rules.
//!
//! The Aura engine follows a round-robin slot schedule over a fixed authority
//! set; the relay-chain-relayed engine defers leadership entirely to the
//! relay chain and performs only minimal local checks on verification.

use crate::block::{
    BlockHeader, BlockOrigin, ImportParams, ParachainCandidate, PersistedValidationData,
    VerificationFailure, VerificationOutcome,
};
use vstd::prelude::*;

verus! {

/// The Aura slot-based engine: one authority out of `authority_count` owns
/// each slot, round-robin; this node is the authority at
/// `local_authority_index`.
#[derive(Clone, Copy, Debug, PartialEq, Eq, Structural)]
pub struct AuraEngine {
    pub authority_count: u64,
    pub local_authority_index: u64,
}

impl AuraEngine {
    /// The authority set is non-empty and this node is one of them.
    pub open spec fn wf(self) -> bool {
        0 < self.authority_count && self.local_authority_index < self.authority_count
    }

    pub fn new(authority_count: u64, local_authority_index: u64) -> (s: Self)
        requires
            0 < authority_count,
            local_authority_index < authority_count,
        ensures
            s == (AuraEngine { authority_count, local_authority_index }),
            s.wf(),
    {
        AuraEngine { authority_count, local_authority_index }
    }

    /// Whether slot `slot` belongs to this node under the round-robin
    /// schedule.
    pub open spec fn spec_claims_slot(self, slot: int) -> bool {
        slot % (self.authority_count as int) == self.local_authority_index as int
    }

    /// What authoring against `parent` anchored to `relay_parent` returns: a
    /// candidate for the next slot when that slot is this node's, `None`
    /// otherwise.
    pub open spec fn spec_produce(
        self,
        parent: BlockHeader,
        relay_parent: u64,
    ) -> Option<ParachainCandidate> {
        if self.spec_claims_slot(parent.slot + 1) {
            Some(
                ParachainCandidate {
                    header: BlockHeader {
                        number: (parent.number + 1) as u64,
                        parent_number: parent.number,
                        slot: (parent.slot + 1) as u64,
                        author: self.local_authority_index,
                    },
                    relay_parent,
                },
            )
        } else {
            None
        }
    }

    /// Attempt to author a block extending `parent`, anchored to
    /// `relay_parent` and the validation data published there.  Returns
    /// `None` when the next slot is not this node's turn.
    pub fn produce_candidate(
        &self,
        parent: &BlockHeader,
        relay_parent: u64,
        validation_data: &PersistedValidationData,
    ) -> (r: Option<ParachainCandidate>)
        requires
            self.wf(),
            parent.number < u64::MAX,
            parent.slot < u64::MAX,
        ensures
            r == self.spec_produce(*parent, relay_parent),
    {
        let next_slot = parent.slot + 1;
        if next_slot % self.authority_count == self.local_authority_index {
            Some(
                ParachainCandidate {
                    header: BlockHeader {
                        number: parent.number + 1,
                        parent_number: parent.number,
                        slot: next_slot,
                        author: self.local_authority_index,
                    },
                    relay_parent,
                },
            )
        } else {
            None
        }
    }

    /// The Aura validity rules on an incoming header: it must extend its
    /// parent by one, and the claimed author must own the claimed slot.
    pub open spec fn spec_verify_ok(self, header: BlockHeader) -> bool {
        &&& header.number == header.parent_number + 1
        &&& header.author as int == header.slot as int % (self.authority_count as int)
    }

    /// The exact failure `verify` reports for a header it rejects.
    pub open spec fn spec_verify_failure(self, header: BlockHeader) -> VerificationFailure {
        if header.number != header.parent_number + 1 {
            VerificationFailure::NonSequentialNumber
        } else {
            VerificationFailure::SlotAuthorMismatch
        }
    }

    /// Validate an incoming block under the Aura rules, handing back the
    /// import parameters unchanged on success and a named reason otherwise.
    pub fn verify(
        &self,
        origin: BlockOrigin,
        header: BlockHeader,
        justifications: Option<Vec<u8>>,
        body: Option<Vec<Vec<u8>>>,
    ) -> (r: VerificationOutcome)
        requires
            self.wf(),
        ensures
            self.spec_verify_ok(header) ==> r == Ok::<ImportParams, VerificationFailure>(
                ImportParams { origin, header, body, justifications },
            ),
            !self.spec_verify_ok(header) ==> r == Err::<ImportParams, VerificationFailure>(
                self.spec_verify_failure(header),
            ),
    {
        if header.parent_number == u64::MAX || header.number != header.parent_number + 1 {
            Err(VerificationFailure::NonSequentialNumber)
        } else if header.author != header.slot % self.authority_count {
            Err(VerificationFailure::SlotAuthorMismatch)
        } else {
            Ok(ImportParams { origin, header, body, justifications })
        }
    }
}

/// The relay-chain-relayed engine: the parachain runs no leader election of
/// its own; proposals are gated by the relay chain's inclusion signal, and
/// verification defers to relay-chain inclusion apart from a minimal local
/// check.
#[derive(Clone, Copy, Debug, PartialEq, Eq, Structural)]
pub struct RelayChainEngine {}

impl RelayChainEngine {
    pub fn new() -> (s: Self)
        ensures
            s == (RelayChainEngine {  }),
    {
        RelayChainEngine {  }
    }

    /// What authoring against `parent` returns: a candidate extending the
    /// parent whenever the relay chain's inclusion signal allows one, `None`
    /// otherwise.  A relayed block claims no slot of its own: it repeats the
    /// parent's slot and authority index zero.
    pub open spec fn spec_produce(
        self,
        parent: BlockHeader,
        relay_parent: u64,
        validation_data: PersistedValidationData,
    ) -> Option<ParachainCandidate> {
        if validation_data.inclusion_signaled {
            Some(
                ParachainCandidate {
                    header: BlockHeader {
                        number: (parent.number + 1) as u64,
                        parent_number: parent.number,
                        slot: parent.slot,
                        author: 0,
                    },
                    relay_parent,
                },
            )
        } else {
            None
        }
    }

    /// Attempt to author a block extending `parent`.  Returns `None` when
    /// the relay chain has not signaled that a new candidate may be
    /// proposed.
    pub fn produce_candidate(
        &self,
        parent: &BlockHeader,
        relay_parent: u64,
        validation_data: &PersistedValidationData,
    ) -> (r: Option<ParachainCandidate>)
        requires
            parent.number < u64::MAX,
        ensures
            r == self.spec_produce(*parent, relay_parent, *validation_data),
    {
        if validation_data.inclusion_signaled {
            Some(
                ParachainCandidate {
                    header: BlockHeader {
                        number: parent.number + 1,
                        parent_number: parent.number,
                        slot: parent.slot,
                        author: 0,
                    },
                    relay_parent,
                },
            )
        } else {
            None
        }
    }

    /// The relayed validity rule on an incoming header: only that it extends
    /// its parent by one; everything further is the relay chain's to judge.
    pub open spec fn spec_verify_ok(self, header: BlockHeader) -> bool {
        header.number == header.parent_number + 1
    }

    /// Validate an incoming block under the relayed rules: a pass-through
    /// that hands the import parameters back unchanged after the minimal
    /// local check.
    pub fn verify(
        &self,
        origin: BlockOrigin,
        header: BlockHeader,
        justifications: Option<Vec<u8>>,
        body: Option<Vec<Vec<u8>>>,
    ) -> (r: VerificationOutcome)
        ensures
            self.spec_verify_ok(header) ==> r == Ok::<ImportParams, VerificationFailure>(
                ImportParams { origin, header, body, justifications },
            ),
            !self.spec_verify_ok(header) ==> r == Err::<ImportParams, VerificationFailure>(
                VerificationFailure::NonSequentialNumber,
            ),
    {
        if header.parent_number == u64::MAX || header.number != header.parent_number + 1 {
            Err(VerificationFailure::NonSequentialNumber)
        } else {
            Ok(ImportParams { origin, header, body, justifications })
        }
    }
}

} // verus!
