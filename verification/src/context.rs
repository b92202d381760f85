//! The shared handle to the native graphics context.

use vstd::prelude::*;

verus! {

/// The native graphics context as its owners share it: how many hold it. The
/// native context is alive while somebody holds it and is torn down by the
/// release that leaves nobody.
pub struct Gl {
    owners: u64,
}

/// Mathematical content of a [`Gl`].
pub struct GlView {
    /// How many owners hold the context.
    pub owners: nat,
    /// How often the native context has been torn down.
    pub teardowns: nat,
}

impl View for Gl {
    type V = GlView;

    closed spec fn view(&self) -> GlView {
        GlView { owners: self.owners as nat, teardowns: if self.owners == 0 { 1 } else { 0 } }
    }
}

/// A context right after its creation: one owner, never torn down.
pub open spec fn fresh() -> GlView {
    GlView { owners: 1, teardowns: 0 }
}

/// The context after one more owner takes a share. Nobody can take a share of
/// a context that was torn down, nor more shares than can be counted.
pub open spec fn spec_acquire(s: GlView) -> GlView {
    if s.owners == 0 || s.owners >= u64::MAX {
        s
    } else {
        GlView { owners: s.owners + 1, ..s }
    }
}

/// The context after one owner lets go of its share. The last one to let go
/// tears the native context down.
pub open spec fn spec_release(s: GlView) -> GlView {
    if s.owners == 0 {
        s
    } else if s.owners == 1 {
        GlView { owners: 0, teardowns: s.teardowns + 1 }
    } else {
        GlView { owners: (s.owners - 1) as nat, ..s }
    }
}

/// The context after `n` owners more took a share.
pub open spec fn after_clones(s: GlView, n: nat) -> GlView
    decreases n,
{
    if n == 0 {
        s
    } else {
        spec_acquire(after_clones(s, (n - 1) as nat))
    }
}

/// The context after `k` owners let go.
pub open spec fn after_drops(s: GlView, k: nat) -> GlView
    decreases k,
{
    if k == 0 {
        s
    } else {
        spec_release(after_drops(s, (k - 1) as nat))
    }
}

impl Gl {
    /// The context is alive: somebody holds it.
    pub open spec fn alive(&self) -> bool {
        self@.owners > 0
    }

    /// Records the creation of the native context, held by one owner.
    pub fn load_with() -> (gl: Gl)
        ensures
            gl@ == fresh(),
    {
        Gl { owners: 1 }
    }

    /// How many owners hold the context.
    pub fn owners(&self) -> (n: u64)
        ensures
            n == self@.owners,
    {
        self.owners
    }

    /// Whether the native context is alive.
    pub fn is_alive(&self) -> (b: bool)
        ensures
            b == self.alive(),
    {
        self.owners > 0
    }

    /// Takes one more share of the context. Returns whether the share was
    /// taken.
    pub fn acquire(&mut self) -> (taken: bool)
        ensures
            final(self)@ == spec_acquire(old(self)@),
            taken == (old(self)@.owners > 0 && old(self)@.owners < u64::MAX),
    {
        if self.owners == 0 || self.owners == u64::MAX {
            false
        } else {
            self.owners = self.owners + 1;
            true
        }
    }

    /// Lets go of one share. Returns whether this release has to tear the
    /// native context down: it does exactly when it was the last share.
    pub fn release(&mut self) -> (teardown: bool)
        ensures
            final(self)@ == spec_release(old(self)@),
            teardown == (old(self)@.owners == 1),
            teardown == (final(self)@.teardowns == old(self)@.teardowns + 1),
    {
        if self.owners == 0 {
            false
        } else {
            self.owners = self.owners - 1;
            self.owners == 0
        }
    }
}

/// Taking shares of a live context only raises the count of owners.
pub proof fn lemma_after_clones(n: nat)
    requires
        n + 1 <= u64::MAX,
    ensures
        after_clones(fresh(), n) == (GlView { owners: n + 1, teardowns: 0 }),
    decreases n,
{
    if n > 0 {
        lemma_after_clones((n - 1) as nat);
    }
}

/// A context shared by `n` clones beside its first owner stays alive while
/// fewer than all of them have let go, and is torn down exactly once when all
/// have, however many releases follow.
pub proof fn lemma_last_owner_tears_down(n: nat, k: nat)
    requires
        n + 1 <= u64::MAX,
    ensures
        k <= n ==> after_drops(after_clones(fresh(), n), k) == (GlView {
            owners: (n + 1 - k) as nat,
            teardowns: 0,
        }),
        k > n ==> after_drops(after_clones(fresh(), n), k) == (GlView { owners: 0, teardowns: 1 }),
    decreases k,
{
    lemma_after_clones(n);
    if k > 0 {
        lemma_last_owner_tears_down(n, (k - 1) as nat);
    }
}

} // verus!
