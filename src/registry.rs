//! The broker's table of registered backends, keyed by session identifier.
use vstd::prelude::*;
use vstd::hash_map::HashMapWithView;

verus! {

broadcast use vstd::std_specs::hash::group_hash_axioms;

/// Maps each session identifier to the control connection of the backend
/// registered under it. At most one entry exists per identifier.
#[verifier::reject_recursive_types(C)]
pub struct SessionRegistry<C> {
    entries: HashMapWithView<u8, C>,
}

/// What `take_for_pairing` hands out for `target`, and the table it leaves.
pub open spec fn take_spec<C>(m: Map<u8, C>, target: u8) -> (Option<C>, Map<u8, C>) {
    if m.contains_key(target) {
        (Some(m[target]), m.remove(target))
    } else {
        (None, m)
    }
}

impl<C> View for SessionRegistry<C> {
    type V = Map<u8, C>;

    closed spec fn view(&self) -> Map<u8, C> {
        self.entries@
    }
}

impl<C> SessionRegistry<C> {
    pub fn new() -> (r: Self)
        ensures
            r@ == Map::<u8, C>::empty(),
    {
        SessionRegistry { entries: HashMapWithView::new() }
    }

    /// Registers `conn` under `id`, replacing any earlier entry. The replaced
    /// connection is handed back so that the caller can close it.
    pub fn register(&mut self, id: u8, conn: C) -> (evicted: Option<C>)
        ensures
            final(self)@ == old(self)@.insert(id, conn),
            evicted == (if old(self)@.contains_key(id) {
                Some(old(self)@[id])
            } else {
                None
            }),
    {
        let evicted = self.entries.remove(&id);
        self.entries.insert(id, conn);
        proof {
            assert(self@ =~= old(self)@.insert(id, conn));
        }
        evicted
    }

    /// Removes and returns the entry for `target`, if there is one. A
    /// registered backend is handed out by at most one call.
    pub fn take_for_pairing(&mut self, target: u8) -> (r: Option<C>)
        ensures
            (r, final(self)@) == take_spec(old(self)@, target),
    {
        self.entries.remove(&target)
    }

    pub fn contains(&self, id: u8) -> (r: bool)
        ensures
            r == self@.contains_key(id),
    {
        self.entries.contains_key(&id)
    }

    pub fn len(&self) -> (r: usize)
        ensures
            r == self@.len(),
    {
        self.entries.len()
    }
}

} // verus!
