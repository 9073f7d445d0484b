//! The pending-path store: file paths captured from launch arguments
//! (or relayed by a second process instance) held until the UI layer
//! consumes them exactly once.
//!
//! The store is explicitly owned state.  The driver that shares it
//! between execution contexts wraps it in its own lock; every
//! operation here is a plain value transformation with a contract.

use vstd::prelude::*;

verus! {

/// Launch-time file paths awaiting one-shot consumption.
pub struct PendingPaths {
    paths: Vec<String>,
}

impl View for PendingPaths {
    type V = Seq<Seq<char>>;

    closed spec fn view(&self) -> Seq<Seq<char>> {
        self.paths.deep_view()
    }
}

/// What a drain hands back: everything currently stored.
pub open spec fn drained_result(stored: Seq<Seq<char>>) -> Seq<Seq<char>> {
    stored
}

/// What a drain leaves behind: nothing.
pub open spec fn drained_state(stored: Seq<Seq<char>>) -> Seq<Seq<char>> {
    Seq::<Seq<char>>::empty()
}

impl PendingPaths {
    /// An empty store.
    pub fn new() -> (r: Self)
        ensures
            r@ == Seq::<Seq<char>>::empty(),
    {
        let r = PendingPaths { paths: Vec::new() };
        proof {
            assert(r@ =~= Seq::<Seq<char>>::empty());
        }
        r
    }

    /// How many paths are pending.
    pub fn len(&self) -> (n: usize)
        ensures
            n == self@.len(),
    {
        self.paths.len()
    }

    /// Replace whatever is stored with the given paths.
    pub fn replace_paths(&mut self, paths: Vec<String>)
        ensures
            final(self)@ == paths.deep_view(),
    {
        self.paths = paths;
    }

    /// Append the given paths after whatever is stored.
    pub fn append_paths(&mut self, paths: Vec<String>)
        ensures
            final(self)@ == old(self)@ + paths.deep_view(),
    {
        let ghost before = self.paths.deep_view();
        let ghost incoming = paths.deep_view();
        let mut incoming_vec = paths;
        self.paths.append(&mut incoming_vec);
        proof {
            assert(self.paths.deep_view() =~= before + incoming);
        }
    }

    /// Atomically hand back everything stored and leave the store
    /// empty: a second immediate drain returns nothing.
    pub fn drain(&mut self) -> (r: Vec<String>)
        ensures
            r.deep_view() == drained_result(old(self)@),
            final(self)@ == drained_state(old(self)@),
    {
        let mut out: Vec<String> = Vec::new();
        core::mem::swap(&mut out, &mut self.paths);
        proof {
            assert(self.paths.deep_view() =~= Seq::<Seq<char>>::empty());
        }
        out
    }
}

/// Law: a drain returns the full stored sequence exactly once — it
/// hands back everything, leaves the store empty, and an immediate
/// second drain hands back nothing.
pub proof fn lemma_drain_exactly_once(stored: Seq<Seq<char>>)
    ensures
        drained_result(stored) == stored,
        drained_state(stored) == Seq::<Seq<char>>::empty(),
        drained_result(drained_state(stored)) == Seq::<Seq<char>>::empty(),
        drained_state(drained_state(stored)) == Seq::<Seq<char>>::empty(),
{
}

} // verus!
