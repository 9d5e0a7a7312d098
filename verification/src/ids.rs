//! Connection identifiers.
//!
//! Each accepted connection is named by a `u64` drawn from a per-process
//! counter. A raw remote endpoint address can be reused by rapid
//! reconnects, so the registry key is this nonce instead: the generator
//! hands out strictly increasing values, and so never hands out the same
//! identifier twice for as long as the process runs.

use vstd::prelude::*;

verus! {

/// Generator of fresh connection identifiers.
pub struct ConnIdGen {
    next: u64,
}

impl ConnIdGen {
    /// The next identifier this generator will hand out.
    pub closed spec fn spec_next(self) -> u64 {
        self.next
    }

    /// A new generator, starting at identifier 0.
    pub fn new() -> (r: Self)
        ensures
            r.spec_next() == 0,
    {
        ConnIdGen { next: 0 }
    }

    /// The value the next drawn identifier would have. A driver tests
    /// with this that the identifier space is not exhausted before it
    /// draws.
    pub fn peek_next(&self) -> (r: u64)
        ensures
            r == self.spec_next(),
    {
        self.next
    }

    /// Draw one fresh identifier.
    ///
    /// The result equals the generator's counter before the call, and the
    /// counter strictly increases, so no identifier is ever drawn twice.
    pub fn fresh(&mut self) -> (r: u64)
        requires
            old(self).spec_next() < u64::MAX,
        ensures
            r == old(self).spec_next(),
            final(self).spec_next() == old(self).spec_next() + 1,
    {
        let id = self.next;
        self.next = self.next + 1;
        id
    }
}

/// Identifiers drawn from one generator are never equal.
///
/// `fresh` returns the counter's current value and strictly increases the
/// counter, so an identifier drawn while the counter stood below `c` can
/// never equal one drawn once the counter reached `c`: identifiers of
/// distinct connections are pairwise distinct, however quickly the remote
/// endpoints reconnect.
pub proof fn lemma_fresh_ids_distinct(earlier: u64, later: u64, c: u64)
    requires
        earlier < c,
        c <= later,
    ensures
        earlier != later,
{
}

} // verus!
