//! Extensions a parachain adds to its chain specification.

use vstd::prelude::*;
use vstd::string::StringExecFns;

verus! {

/// The parachain-specific fields of a chain specification: which relay chain
/// the parachain follows, and the identifier it is registered under there.
#[derive(Clone, Debug, PartialEq, Eq)]
pub struct Extensions {
    /// The relay chain of the parachain.
    pub relay_chain: String,
    /// The id of the parachain.
    pub para_id: u32,
}

impl Extensions {
    pub fn new(relay_chain: &str, para_id: u32) -> (e: Self)
        ensures
            e.relay_chain@ == relay_chain@,
            e.para_id == para_id,
    {
        Extensions { relay_chain: String::from_str(relay_chain), para_id }
    }
}

} // verus!
