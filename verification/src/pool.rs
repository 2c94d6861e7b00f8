//! The generic descriptor-keyed resource pool.
//!
//! A pool pairs an append-only arena of resources with a lookup from
//! descriptor identity to handle. `get_or_create` memoizes creation: equal
//! descriptors always resolve to the same handle, creation runs at most once
//! per descriptor, and a failed creation leaves the pool untouched.

use vstd::prelude::*;

use crate::error::ResourceError;

verus! {

/// An opaque, copyable identifier for one slot of one pool's arena.
///
/// A key wraps an arena index; handles are stable for the pool's lifetime and
/// never reused, because pools never remove entries.
pub trait PoolKey: Sized + Copy {
    /// The arena index this key designates.
    spec fn index_spec(self) -> int;

    /// Wraps an arena index as a key.
    fn from_index(index: usize) -> (r: Self)
        ensures
            r.index_spec() == index as int,
    ;

    /// The arena index this key designates.
    fn index(self) -> (r: usize)
        ensures
            r as int == self.index_spec(),
    ;

    /// Keys designating the same arena index are the same key.
    proof fn lemma_index_injective(a: Self, b: Self)
        requires
            a.index_spec() == b.index_spec(),
        ensures
            a == b,
    ;
}

/// A descriptor: an immutable value that fully determines a resource's
/// identity. Its view `@` is that identity; two descriptors with equal views
/// denote the same resource.
pub trait PoolDesc: View + Sized {
    /// Decides equality of descriptor identity.
    fn desc_eq(&self, other: &Self) -> (r: bool)
        ensures
            r == (self@ == other@),
    ;

    /// An identity-preserving copy.
    fn dup(&self) -> (r: Self)
        ensures
            r@ == self@,
    ;
}

/// The mathematical content of a pool: descriptor identities paired with
/// resources, in creation order. The handle of entry `i` designates index `i`.
#[verifier::ext_equal]
pub ghost struct PoolModel<K, R> {
    pub entries: Seq<(K, R)>,
}

impl<K, R> PoolModel<K, R> {
    /// How many resources the pool holds.
    pub open spec fn len(self) -> int {
        self.entries.len() as int
    }

    /// Whether a descriptor identity is recorded.
    pub open spec fn contains_key(self, k: K) -> bool {
        exists|i: int| 0 <= i < self.entries.len() && #[trigger] self.entries[i].0 == k
    }

    /// The arena index recorded for a descriptor identity.
    pub open spec fn index_of(self, k: K) -> int {
        choose|i: int| 0 <= i < self.entries.len() && #[trigger] self.entries[i].0 == k
    }

    /// The resource stored at an arena index.
    pub open spec fn resource_at(self, i: int) -> R {
        self.entries[i].1
    }

    /// The descriptor identity stored at an arena index.
    pub open spec fn key_at(self, i: int) -> K {
        self.entries[i].0
    }

    /// No two entries share a descriptor identity.
    pub open spec fn keys_unique(self) -> bool {
        forall|i: int, j: int|
            0 <= i < j < self.entries.len() ==> #[trigger] self.entries[i].0 != #[trigger] self.entries[j].0
    }

    /// The pool extended by one entry.
    pub open spec fn insert(self, k: K, r: R) -> Self {
        PoolModel { entries: self.entries.push((k, r)) }
    }

    /// The pool after a request for `k` whose creation, if it runs, yields
    /// `r`: unchanged on a hit, extended by one entry on a miss.
    pub open spec fn after_request(self, k: K, r: R) -> Self {
        if self.contains_key(k) {
            self
        } else {
            self.insert(k, r)
        }
    }
}

/// Any arena index holding `k` is the recorded index of `k`, provided keys
/// are unique.
pub proof fn lemma_index_of_unique<K, R>(m: PoolModel<K, R>, k: K, i: int)
    requires
        m.keys_unique(),
        0 <= i < m.len(),
        m.entries[i].0 == k,
    ensures
        m.contains_key(k),
        m.index_of(k) == i,
{
    assert(m.contains_key(k));
    let ci = m.index_of(k);
    assert(0 <= ci < m.entries.len() && m.entries[ci].0 == k);
    if ci < i {
        assert(m.entries[ci].0 != m.entries[i].0);
    } else if i < ci {
        assert(m.entries[i].0 != m.entries[ci].0);
    }
}

/// A pool of resources of type `Res`, keyed by descriptors of type `Desc`,
/// addressed by handles of type `Handle`.
///
/// The arena and the lookup grow in lockstep: the lookup's `i`-th entry maps
/// the `i`-th created descriptor to the handle of arena slot `i`, so recorded
/// descriptors and populated arena slots are in one-to-one correspondence.
pub struct StaticResourcePool<Handle, Desc, Res> where Handle: PoolKey, Desc: PoolDesc {
    resources: Vec<Res>,
    lookup: Vec<(Desc, Handle)>,
}

impl<Handle: PoolKey, Desc: PoolDesc, Res> View for StaticResourcePool<Handle, Desc, Res> {
    type V = PoolModel<<Desc as View>::V, Res>;

    closed spec fn view(&self) -> PoolModel<<Desc as View>::V, Res> {
        PoolModel {
            entries: Seq::new(
                self.lookup@.len(),
                |i: int| (self.lookup@[i].0@, self.resources@[i]),
            ),
        }
    }
}

impl<Handle: PoolKey, Desc: PoolDesc, Res> StaticResourcePool<Handle, Desc, Res> {
    /// Well-formedness: lookup and arena have equal length, the `i`-th handle
    /// designates slot `i`, and no descriptor identity is recorded twice.
    pub closed spec fn wf(self) -> bool {
        &&& self.lookup@.len() == self.resources@.len()
        &&& forall|i: int|
            0 <= i < self.lookup@.len() ==> (#[trigger] self.lookup@[i]).1.index_spec() == i
        &&& forall|i: int, j: int|
            0 <= i < j < self.lookup@.len() ==> self.lookup@[i].0@ != self.lookup@[j].0@
    }

    /// A well-formed pool's model has unique keys.
    pub proof fn lemma_wf_model(&self)
        requires
            self.wf(),
        ensures
            self@.keys_unique(),
    {
        assert forall|i: int, j: int|
            0 <= i < j < self@.entries.len() implies #[trigger] self@.entries[i].0
            != #[trigger] self@.entries[j].0 by {
            assert(self.lookup@[i].0@ != self.lookup@[j].0@);
        }
    }

    /// An empty pool.
    pub fn new() -> (r: Self)
        ensures
            r.wf(),
            r@.len() == 0,
    {
        StaticResourcePool { resources: Vec::new(), lookup: Vec::new() }
    }

    /// How many resources have been created so far; one per distinct
    /// descriptor recorded.
    pub fn len(&self) -> (r: usize)
        ensures
            r as int == self@.len(),
    {
        self.lookup.len()
    }

    /// Whether a handle designates a populated arena slot of this pool.
    pub open spec fn handle_valid(self, h: Handle) -> bool {
        0 <= h.index_spec() < self@.len()
    }

    /// Runtime check of `handle_valid`.
    pub fn contains_handle(&self, h: Handle) -> (r: bool)
        ensures
            r == self.handle_valid(h),
    {
        h.index() < self.lookup.len()
    }

    /// Looks a descriptor up without creating anything.
    pub fn find(&self, desc: &Desc) -> (r: Option<Handle>)
        requires
            self.wf(),
        ensures
            match r {
                Some(h) => self@.contains_key(desc@) && self.handle_valid(h)
                    && h.index_spec() == self@.index_of(desc@),
                None => !self@.contains_key(desc@),
            },
    {
        let n = self.lookup.len();
        for i in 0..n
            invariant
                n == self.lookup@.len(),
                self.wf(),
                forall|j: int| 0 <= j < i ==> self.lookup@[j].0@ != desc@,
        {
            if self.lookup[i].0.desc_eq(desc) {
                let h = self.lookup[i].1;
                proof {
                    self.lemma_wf_model();
                    lemma_index_of_unique(self@, desc@, i as int);
                }
                return Some(h);
            }
        }
        proof {
            assert forall|i: int|
                0 <= i < self@.entries.len() implies #[trigger] self@.entries[i].0 != desc@ by {
                assert(self.lookup@[i].0@ != desc@);
            }
        }
        None
    }

    /// Records a freshly created resource under a descriptor not yet present.
    pub(crate) fn insert_new(&mut self, desc: &Desc, res: Res) -> (h: Handle)
        requires
            old(self).wf(),
            !old(self)@.contains_key(desc@),
        ensures
            final(self).wf(),
            final(self)@ == old(self)@.insert(desc@, res),
            h.index_spec() == old(self)@.len(),
            final(self).handle_valid(h),
    {
        let h = Handle::from_index(self.lookup.len());
        let key = desc.dup();
        let ghost gres = res;
        self.lookup.push((key, h));
        self.resources.push(res);
        proof {
            assert(self@.entries =~= old(self)@.entries.push((desc@, gres)));
            assert forall|i: int, j: int|
                0 <= i < j < self.lookup@.len() implies self.lookup@[i].0@
                != self.lookup@[j].0@ by {
                if j == self.lookup@.len() - 1 {
                    // the new key differs from every old one, else the
                    // descriptor would already have been present
                    assert(old(self)@.entries[i].0 == self.lookup@[i].0@);
                }
            }
        }
        h
    }

    /// The memoizing constructor.
    ///
    /// On a hit the pool is returned unchanged with the handle recorded for
    /// the descriptor, and `create` is not invoked. On a miss, `create` runs
    /// exactly once: if it succeeds, its resource is stored in a fresh arena
    /// slot and the new handle is recorded and returned; if it fails, the
    /// error is passed through and the pool is left exactly as it was, so a
    /// retry attempts creation again.
    pub fn get_or_create<F: FnOnce(&Desc) -> Result<Res, ResourceError>>(
        &mut self,
        desc: &Desc,
        create: F,
    ) -> (r: Result<Handle, ResourceError>)
        requires
            old(self).wf(),
            call_requires(create, (desc,)),
        ensures
            final(self).wf(),
            // append-only growth
            final(self)@.len() >= old(self)@.len(),
            // hit: nothing changes and the recorded handle is returned
            old(self)@.contains_key(desc@) ==> *final(self) == *old(self) && (r matches Ok(h)
                && h.index_spec() == old(self)@.index_of(desc@)),
            // miss: one creation decides the outcome
            !old(self)@.contains_key(desc@) ==> match r {
                Ok(h) => h.index_spec() == old(self)@.len() && exists|res: Res|
                    #[trigger] call_ensures(create, (desc,), Ok(res))
                        && final(self)@ == old(self)@.insert(desc@, res),
                Err(e) => *final(self) == *old(self) && call_ensures(create, (desc,), Err(e)),
            },
            // every returned handle resolves to this descriptor's slot
            r matches Ok(h) ==> final(self)@.contains_key(desc@)
                && h.index_spec() == final(self)@.index_of(desc@)
                && final(self).handle_valid(h),
            // a served request is one step of `after_request`, which the laws
            // below speak of
            r matches Ok(h) ==> exists|res: Res|
                final(self)@ == #[trigger] old(self)@.after_request(desc@, res),
    {
        match self.find(desc) {
            Some(h) => {
                proof {
                    let wres = self@.resource_at(self@.index_of(desc@));
                    assert(self@ == self@.after_request(desc@, wres));
                }
                Ok(h)
            },
            None => match create(desc) {
                Ok(res) => {
                    let ghost gres = res;
                    let h = self.insert_new(desc, res);
                    proof {
                        self.lemma_wf_model();
                        lemma_index_of_unique(self@, desc@, old(self)@.len());
                        assert(self@ == old(self)@.after_request(desc@, gres));
                    }
                    Ok(h)
                },
                Err(e) => Err(e),
            },
        }
    }

    /// Resolves a previously issued handle to its resource.
    ///
    /// A handle not issued by this pool is a programming error; callers must
    /// establish validity, which `contains_handle` decides at runtime.
    pub fn get_resource(&self, h: Handle) -> (r: &Res)
        requires
            self.wf(),
            self.handle_valid(h),
        ensures
            *r == self@.resource_at(h.index_spec()),
    {
        &self.resources[h.index()]
    }
}

impl<Handle: PoolKey, Desc: PoolDesc, Res> Default for StaticResourcePool<Handle, Desc, Res> {
    /// An empty pool.
    fn default() -> (r: Self)
        ensures
            r.wf(),
            r@.len() == 0,
    {
        StaticResourcePool::new()
    }
}

/// Dedup idempotence: once a request for a descriptor has been served, any
/// further request for it finds the pool unchanged and resolves to the handle
/// recorded by the first request.
pub proof fn lemma_dedup_idempotent<K, R>(m: PoolModel<K, R>, k: K, r1: R, r2: R)
    ensures
        m.after_request(k, r1).contains_key(k),
        m.after_request(k, r1).after_request(k, r2) == m.after_request(k, r1),
        !m.contains_key(k) ==> m.after_request(k, r1).len() == m.len() + 1,
{
    if !m.contains_key(k) {
        let m1 = m.insert(k, r1);
        assert(m1.entries[m.len()].0 == k);
        assert(m1.contains_key(k));
    }
}

/// The handle recorded when a descriptor is first inserted is the pool's
/// length at that moment, and keys stay unique.
pub proof fn lemma_insert_fresh<K, R>(m: PoolModel<K, R>, k: K, r: R)
    requires
        m.keys_unique(),
        !m.contains_key(k),
    ensures
        m.insert(k, r).keys_unique(),
        m.insert(k, r).contains_key(k),
        m.insert(k, r).index_of(k) == m.len(),
        m.insert(k, r).len() == m.len() + 1,
{
    let m1 = m.insert(k, r);
    assert forall|i: int, j: int|
        0 <= i < j < m1.entries.len() implies #[trigger] m1.entries[i].0
        != #[trigger] m1.entries[j].0 by {
        if j < m.entries.len() {
            assert(m.entries[i].0 != m.entries[j].0);
        } else {
            assert(m1.entries[i].0 == m.entries[i].0);
        }
    }
    assert(m1.entries[m.len()].0 == k);
    lemma_index_of_unique(m1, k, m.len());
}

/// Key discrimination: distinct descriptor identities recorded in one pool
/// always carry distinct handles, each resolving to its own arena slot.
pub proof fn lemma_key_discrimination<K, R>(m: PoolModel<K, R>, k1: K, k2: K)
    requires
        m.keys_unique(),
        m.contains_key(k1),
        m.contains_key(k2),
        k1 != k2,
    ensures
        m.index_of(k1) != m.index_of(k2),
        0 <= m.index_of(k1) < m.len(),
        0 <= m.index_of(k2) < m.len(),
{
    let i1 = m.index_of(k1);
    let i2 = m.index_of(k2);
    assert(0 <= i1 < m.entries.len() && m.entries[i1].0 == k1);
    assert(0 <= i2 < m.entries.len() && m.entries[i2].0 == k2);
}

/// Append-only growth: no request ever shrinks a pool.
pub proof fn lemma_append_only<K, R>(m: PoolModel<K, R>, k: K, r: R)
    ensures
        m.after_request(k, r).len() >= m.len(),
{
}

/// Handle stability: a recorded descriptor keeps its handle across any
/// further request, whatever descriptor that request is for.
pub proof fn lemma_handle_stable<K, R>(m: PoolModel<K, R>, k: K, k2: K, r: R)
    requires
        m.keys_unique(),
        m.contains_key(k),
    ensures
        m.after_request(k2, r).contains_key(k),
        m.after_request(k2, r).index_of(k) == m.index_of(k),
{
    let i = m.index_of(k);
    assert(0 <= i < m.entries.len() && m.entries[i].0 == k);
    let m1 = m.after_request(k2, r);
    assert(m1.entries[i].0 == k);
    if !m.contains_key(k2) {
        assert forall|a: int, b: int|
            0 <= a < b < m1.entries.len() implies #[trigger] m1.entries[a].0
            != #[trigger] m1.entries[b].0 by {
            if b < m.entries.len() {
                assert(m.entries[a].0 != m.entries[b].0);
            } else {
                assert(m1.entries[a].0 == m.entries[a].0);
            }
        }
    }
    lemma_index_of_unique(m1, k, i);
}

/// Dependency sharing: two requests for the same descriptor — however many
/// independent consumers issue them — create at most one resource between
/// them.
pub proof fn lemma_dependency_sharing<K, R>(m: PoolModel<K, R>, k: K, r1: R, r2: R)
    ensures
        m.after_request(k, r1).after_request(k, r2).len() <= m.len() + 1,
{
    lemma_dedup_idempotent(m, k, r1, r2);
}

} // verus!
