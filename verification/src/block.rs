//! Plain data carried between the selectors and the consensus engines.

use vstd::prelude::*;
use vstd::string::StringExecFns;

verus! {

/// A parachain block header, reduced to the fields the consensus layer reads.
///
/// A block is identified by its `number`; `parent_number` links it to the
/// block it extends.  `slot` is the Aura slot the block claims to have been
/// authored in, and `author` the index of the authority that claims it.
#[derive(Clone, Copy, Debug, PartialEq, Eq, Structural)]
pub struct BlockHeader {
    pub number: u64,
    pub parent_number: u64,
    pub slot: u64,
    pub author: u64,
}

/// Validation data the relay chain publishes for this parachain at a given
/// relay-chain parent: the anchor block and whether the previous candidate's
/// inclusion allows a new relay-chain-relayed proposal.
#[derive(Clone, Copy, Debug, PartialEq, Eq, Structural)]
pub struct PersistedValidationData {
    pub relay_parent_number: u64,
    pub inclusion_signaled: bool,
}

/// A proposed block together with the relay-chain parent it is anchored to.
#[derive(Clone, Copy, Debug, PartialEq, Eq, Structural)]
pub struct ParachainCandidate {
    pub header: BlockHeader,
    pub relay_parent: u64,
}

/// Where a block arriving at the import pipeline came from.
#[derive(Clone, Copy, Debug, PartialEq, Eq, Structural)]
pub enum BlockOrigin {
    Own,
    NetworkBroadcast,
    NetworkInitialSync,
    File,
}

/// Parameters the import pipeline needs to admit a verified block: the
/// verified header and whatever body and justifications arrived with it.
#[derive(Clone, Debug, PartialEq, Eq)]
pub struct ImportParams {
    pub origin: BlockOrigin,
    pub header: BlockHeader,
    pub body: Option<Vec<Vec<u8>>>,
    pub justifications: Option<Vec<u8>>,
}

/// A named reason for rejecting a block during verification.
#[derive(Clone, Copy, Debug, PartialEq, Eq, Structural)]
pub enum VerificationFailure {
    /// The header's number does not follow its parent's number.
    NonSequentialNumber,
    /// The header's claimed author does not own the header's slot.
    SlotAuthorMismatch,
}

impl VerificationFailure {
    /// The reason as text, for the import pipeline's report.
    pub open spec fn spec_message(self) -> Seq<char> {
        match self {
            VerificationFailure::NonSequentialNumber => "block number does not follow parent"@,
            VerificationFailure::SlotAuthorMismatch => "slot not owned by claimed author"@,
        }
    }

    /// Render the failure as a descriptive string.
    pub fn message(&self) -> (r: String)
        ensures
            r@ == self.spec_message(),
    {
        match self {
            VerificationFailure::NonSequentialNumber => {
                String::from_str("block number does not follow parent")
            },
            VerificationFailure::SlotAuthorMismatch => {
                String::from_str("slot not owned by claimed author")
            },
        }
    }
}

/// The outcome of verifying one block: import parameters on success, a named
/// failure reason otherwise.
pub type VerificationOutcome = Result<ImportParams, VerificationFailure>;

} // verus!
