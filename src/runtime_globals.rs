//! Runtime capabilities that generated code depends on, as a set of flags.
use vstd::prelude::*;

verus! {

/// The `__webpack_require__` function itself.
pub const REQUIRE: u64 = 1;

/// Loading of chunks on demand.
pub const ENSURE_CHUNK: u64 = 2;

/// The bundle-wide map of share scopes.
pub const SHARE_SCOPE_MAP: u64 = 4;

/// A set of runtime capabilities, one bit each.
#[derive(Clone, Copy, Debug, PartialEq, Eq, Structural)]
pub struct RuntimeGlobals {
    pub bits: u64,
}

impl RuntimeGlobals {
    /// The empty set.
    pub fn empty() -> (r: RuntimeGlobals)
        ensures
            r.bits == 0,
    {
        RuntimeGlobals { bits: 0 }
    }

    /// Whether every capability of `flags` is in the set.
    pub open spec fn has(self, flags: u64) -> bool {
        self.bits & flags == flags
    }

    pub fn contains(&self, flags: u64) -> (r: bool)
        ensures
            r == self.has(flags),
    {
        self.bits & flags == flags
    }

    /// Adds the capabilities of `flags`.
    pub fn insert(&mut self, flags: u64)
        ensures
            final(self).bits == old(self).bits | flags,
    {
        self.bits = self.bits | flags;
    }
}

/// Once added, a capability stays whatever else is added.
pub proof fn lemma_union_has(a: u64, b: u64)
    ensures
        (RuntimeGlobals { bits: a | b }).has(a),
        (RuntimeGlobals { bits: a | b }).has(b),
{
    assert((a | b) & a == a) by (bit_vector);
    assert((a | b) & b == b) by (bit_vector);
}

/// Adding to the empty set gives the flags added, and they are in it.
pub proof fn lemma_insert_into_empty(flags: u64)
    ensures
        0u64 | flags == flags,
        (RuntimeGlobals { bits: flags }).has(flags),
{
    assert(0u64 | flags == flags) by (bit_vector);
    assert(flags & flags == flags) by (bit_vector);
}

} // verus!
