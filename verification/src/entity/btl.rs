use vstd::prelude::*;

verus! {

/// The blocks-to-live (BTL) of an entity: how many blocks it lives for.
/// Each block is roughly 2 seconds of life. A BTL is never zero.
#[derive(Debug, Clone, Copy, PartialEq, Eq)]
pub struct BlocksToLive(u64);

/// The BTL that `Default` gives: 15 blocks, about 30 seconds of life.
pub const DEFAULT_BTL: u64 = 15;

impl BlocksToLive {
    #[verifier::type_invariant]
    spec fn non_zero(self) -> bool {
        self.0 != 0
    }

    /// The number of blocks.
    pub closed spec fn blocks(self) -> u64 {
        self.0
    }

    /// Make a BTL of `btl` blocks; `btl` must be non-zero.
    pub fn new(btl: u64) -> (b: BlocksToLive)
        requires
            btl != 0,
        ensures
            b.blocks() == btl,
    {
        BlocksToLive(btl)
    }

    /// The BTL that covers `secs` seconds of life, at 2 seconds per block
    /// (rounded down); `secs` must be at least 2.
    pub fn from_secs(secs: u64) -> (b: BlocksToLive)
        requires
            secs / 2 != 0,
        ensures
            b.blocks() == secs / 2,
    {
        Self::new(secs / 2)
    }

    /// The number of blocks.
    pub fn value(&self) -> (r: u64)
        ensures
            r == self.blocks(),
            r != 0,
    {
        proof {
            use_type_invariant(self);
        }
        self.0
    }
}

impl Default for BlocksToLive {
    /// 15 blocks, about 30 seconds of life: a BTL cannot be zero, and anything less
    /// would be too short to be useful.
    fn default() -> (b: BlocksToLive)
        ensures
            b.blocks() == DEFAULT_BTL,
    {
        Self::new(DEFAULT_BTL)
    }
}

impl vstd::std_specs::convert::FromSpecImpl<BlocksToLive> for u64 {
    open spec fn obeys_from_spec() -> bool {
        true
    }

    open spec fn from_spec(v: BlocksToLive) -> u64 {
        v.blocks()
    }
}

impl From<BlocksToLive> for u64 {
    fn from(value: BlocksToLive) -> (r: u64) {
        value.value()
    }
}

} // verus!
