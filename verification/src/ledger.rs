//! What the library reads of the host chain.

use vstd::prelude::*;

verus! {

/// A reading of the host's clock, height and chain hash, taken by the caller
/// at the moment of a call. The library never changes it and never looks at
/// the host itself: everything it derives is a function of this reading and
/// of its other arguments.
#[derive(Clone, Debug, PartialEq, Eq)]
pub struct LedgerContext {
    /// Seconds since the epoch, as the host reports them.
    pub timestamp: u64,
    /// Height of the chain.
    pub sequence: u32,
    /// The chain's current hash.
    pub hash: Vec<u8>,
}

/// The mathematical content of a [`LedgerContext`].
pub struct LedgerContextView {
    pub timestamp: u64,
    pub sequence: u32,
    pub hash: Seq<u8>,
}

impl View for LedgerContext {
    type V = LedgerContextView;

    open spec fn view(&self) -> LedgerContextView {
        LedgerContextView { timestamp: self.timestamp, sequence: self.sequence, hash: self.hash@ }
    }
}

impl LedgerContext {
    /// A reading with the given clock, height and hash.
    pub fn new(timestamp: u64, sequence: u32, hash: Vec<u8>) -> (ledger: LedgerContext)
        ensures
            ledger@ == (LedgerContextView { timestamp, sequence, hash: hash@ }),
    {
        LedgerContext { timestamp, sequence, hash }
    }
}

} // verus!
