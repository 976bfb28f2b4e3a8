//! Probing a block's runtime state for the Aura capability.
//!
//! The chain's state backend persists, for every imported block, the runtime
//! that was active as of that block.  The probe answers one question about
//! it: does the runtime reachable from a given block expose the Aura
//! authoring and verification interface?  State is immutable once a block is
//! imported, so the answer for a given block never changes; distinct blocks
//! may answer differently, because a runtime upgrade lands at some block.

use vstd::prelude::*;

verus! {

/// The probe could not be answered: no state is available for the queried
/// block (it was never imported here, or its state has been pruned).
#[derive(Clone, Copy, Debug, PartialEq, Eq, Structural)]
pub struct ProbeError;

/// Whether the runtime state reachable from block `block` exposes the Aura
/// interface, given the capability recorded per imported block in `caps`.
/// A block with no recorded state counts as not capable: capability absence
/// is the conservative default, never an error up the stack.
pub open spec fn spec_capability(caps: Map<u64, bool>, block: u64) -> bool {
    caps.dom().contains(block) && caps[block]
}

/// A pure query view over the state the client persists: for each imported
/// block, whether the runtime as of that block exposes the Aura interface.
pub struct RuntimeCapabilityProbe {
    entries: Vec<(u64, bool)>,
}

/// The capability map described by a sequence of per-block records.
pub open spec fn caps_of(entries: Seq<(u64, bool)>) -> Map<u64, bool>
    decreases entries.len(),
{
    if entries.len() == 0 {
        Map::empty()
    } else {
        caps_of(entries.drop_last()).insert(entries.last().0, entries.last().1)
    }
}

/// A block queried by `caps_of` is found exactly when some record names it.
proof fn lemma_caps_of_dom(entries: Seq<(u64, bool)>, block: u64)
    ensures
        caps_of(entries).dom().contains(block) <==> exists|i: int|
            0 <= i < entries.len() && entries[i].0 == block,
    decreases entries.len(),
{
    if entries.len() > 0 {
        lemma_caps_of_dom(entries.drop_last(), block);
        if caps_of(entries).dom().contains(block) {
            if entries.last().0 == block {
                assert(entries[entries.len() - 1].0 == block);
            } else {
                let i = choose|i: int|
                    0 <= i < entries.drop_last().len() && entries.drop_last()[i].0 == block;
                assert(entries[i].0 == block);
            }
        }
        if exists|i: int| 0 <= i < entries.len() && entries[i].0 == block {
            let i = choose|i: int| 0 <= i < entries.len() && entries[i].0 == block;
            if i < entries.len() - 1 {
                assert(entries.drop_last()[i].0 == block);
            }
        }
    }
}

/// With no two records naming the same block, `caps_of` answers any named
/// block with that record's flag.
proof fn lemma_caps_of_at(entries: Seq<(u64, bool)>, i: int)
    requires
        forall|p: int, q: int|
            0 <= p < q < entries.len() ==> (#[trigger] entries[p]).0 != (#[trigger] entries[q]).0,
        0 <= i < entries.len(),
    ensures
        caps_of(entries).dom().contains(entries[i].0),
        caps_of(entries)[entries[i].0] == entries[i].1,
    decreases entries.len(),
{
    lemma_caps_of_dom(entries, entries[i].0);
    if i < entries.len() - 1 {
        assert(entries.drop_last()[i] == entries[i]);
        lemma_caps_of_at(entries.drop_last(), i);
        assert(entries.last().0 != entries[i].0);
    }
}

impl RuntimeCapabilityProbe {
    /// The per-block capability this probe can see.
    pub closed spec fn capabilities(self) -> Map<u64, bool> {
        caps_of(self.entries@)
    }

    /// No block is recorded twice: state is written once at import.
    pub closed spec fn wf(self) -> bool {
        forall|p: int, q: int|
            0 <= p < q < self.entries@.len() ==> (#[trigger] self.entries@[p]).0 != (
            #[trigger] self.entries@[q]).0
    }

    /// A probe over a backend that has imported nothing yet.
    pub fn new() -> (s: Self)
        ensures
            s.wf(),
            s.capabilities() == Map::<u64, bool>::empty(),
    {
        RuntimeCapabilityProbe { entries: Vec::new() }
    }

    /// Record the capability of a newly imported block.  Imported state is
    /// immutable, so a block already recorded may not be recorded again.
    pub fn record(&mut self, block: u64, capable: bool)
        requires
            old(self).wf(),
            !old(self).capabilities().dom().contains(block),
        ensures
            final(self).wf(),
            final(self).capabilities() == old(self).capabilities().insert(block, capable),
    {
        proof {
            lemma_caps_of_dom(self.entries@, block);
        }
        self.entries.push((block, capable));
        proof {
            assert(self.entries@.drop_last() == old(self).entries@);
        }
    }

    /// Query the state at `block`.  Answers `Err` when no state is available
    /// there; otherwise exactly the recorded flag.
    pub fn try_probe(&self, block: u64) -> (r: Result<bool, ProbeError>)
        requires
            self.wf(),
        ensures
            r matches Ok(b) ==> self.capabilities().dom().contains(block) && b
                == self.capabilities()[block],
            r is Err ==> !self.capabilities().dom().contains(block),
    {
        let n = self.entries.len();
        let mut i: usize = 0;
        while i < n
            invariant
                self.wf(),
                n == self.entries@.len(),
                0 <= i <= n,
                forall|j: int| 0 <= j < i ==> (#[trigger] self.entries@[j]).0 != block,
            decreases n - i,
        {
            let (b, capable) = self.entries[i];
            if b == block {
                proof {
                    lemma_caps_of_at(self.entries@, i as int);
                }
                return Ok(capable);
            }
            i += 1;
        }
        proof {
            lemma_caps_of_dom(self.entries@, block);
        }
        Err(ProbeError)
    }

    /// Whether the runtime at `block` exposes the Aura interface.  A failed
    /// probe counts as not capable rather than an error: refusing to produce
    /// or verify at all would stall the chain.
    pub fn has_aura_capability(&self, block: u64) -> (r: bool)
        requires
            self.wf(),
        ensures
            r == spec_capability(self.capabilities(), block),
    {
        match self.try_probe(block) {
            Ok(capable) => capable,
            Err(_) => false,
        }
    }
}

} // verus!
