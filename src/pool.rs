//! A fixed-capacity pool of optional entities: allocation takes the first
//! free slot, and a full pool drops the new entity.
use vstd::prelude::*;

verus! {

/// Whether every slot is occupied.
pub open spec fn is_full<T>(s: Seq<Option<T>>) -> bool {
    forall|j: int| 0 <= j < s.len() ==> #[trigger] s[j] is Some
}

/// Whether `i` is the lowest free slot.
pub open spec fn is_first_free<T>(s: Seq<Option<T>>, i: int) -> bool {
    &&& 0 <= i < s.len()
    &&& s[i] is None
    &&& forall|j: int| 0 <= j < i ==> #[trigger] s[j] is Some
}

/// The number of occupied slots.
pub open spec fn live_count<T>(s: Seq<Option<T>>) -> nat
    decreases s.len(),
{
    if s.len() == 0 {
        0
    } else {
        live_count(s.drop_last()) + if s.last() is Some { 1nat } else { 0nat }
    }
}

/// The slots after allocating `v`: it lands in the lowest free slot, or is
/// dropped when there is none.
pub open spec fn allocated<T>(s: Seq<Option<T>>, v: T) -> Seq<Option<T>> {
    if is_full(s) {
        s
    } else {
        let i = choose|i: int| is_first_free(s, i);
        s.update(i, Some(v))
    }
}

/// A pool of `capacity` slots, each empty or holding one entity.
#[derive(Debug)]
pub struct Pool<T> {
    pub slots: Vec<Option<T>>,
}

impl<T: Copy> Pool<T> {
    /// A pool of `capacity` empty slots.
    pub fn new(capacity: usize) -> (r: Self)
        ensures
            r.slots@.len() == capacity,
            forall|j: int| 0 <= j < capacity ==> #[trigger] r.slots@[j] is None,
    {
        let mut slots: Vec<Option<T>> = Vec::new();
        let mut k: usize = 0;
        while k < capacity
            invariant
                k <= capacity,
                slots@.len() == k,
                forall|j: int| 0 <= j < k ==> #[trigger] slots@[j] is None,
            decreases capacity - k,
        {
            slots.push(None);
            k = k + 1;
        }
        Pool { slots }
    }

    pub fn capacity(&self) -> (r: usize)
        ensures
            r == self.slots@.len(),
    {
        self.slots.len()
    }

    /// The entity in slot `i`, if any.
    pub fn get(&self, i: usize) -> (r: Option<T>)
        requires
            i < self.slots@.len(),
        ensures
            r == self.slots@[i as int],
    {
        self.slots[i]
    }

    /// Replaces the entity in the occupied or free slot `i`.
    pub fn set(&mut self, i: usize, value: T)
        requires
            i < old(self).slots@.len(),
        ensures
            final(self).slots@ == old(self).slots@.update(i as int, Some(value)),
    {
        self.slots.set(i, Some(value));
    }

    /// Places `value` in the lowest free slot and returns its index; when
    /// every slot is taken, the pool is left as it was and `None` comes back.
    pub fn allocate(&mut self, value: T) -> (r: Option<usize>)
        ensures
            final(self).slots@ == allocated(old(self).slots@, value),
            match r {
                None => is_full(old(self).slots@),
                Some(i) => is_first_free(old(self).slots@, i as int),
            },
    {
        let n = self.slots.len();
        let mut k: usize = 0;
        while k < n
            invariant
                n == self.slots@.len(),
                self.slots@ == old(self).slots@,
                k <= n,
                forall|j: int| 0 <= j < k ==> #[trigger] self.slots@[j] is Some,
            decreases n - k,
        {
            if self.slots[k].is_none() {
                proof {
                    lemma_first_free_unique(self.slots@, k as int);
                }
                self.slots.set(k, Some(value));
                return Some(k);
            }
            k = k + 1;
        }
        None
    }

    /// Whether some slot is free.
    pub fn has_free(&self) -> (r: bool)
        ensures
            r == !is_full(self.slots@),
    {
        let n = self.slots.len();
        let mut k: usize = 0;
        while k < n
            invariant
                n == self.slots@.len(),
                k <= n,
                forall|j: int| 0 <= j < k ==> #[trigger] self.slots@[j] is Some,
            decreases n - k,
        {
            if self.slots[k].is_none() {
                return true;
            }
            k = k + 1;
        }
        false
    }

    /// Empties slot `i`.
    pub fn free(&mut self, i: usize)
        requires
            i < old(self).slots@.len(),
        ensures
            final(self).slots@ == old(self).slots@.update(i as int, None),
    {
        self.slots.set(i, None);
    }
}

/// There is at most one lowest free slot.
proof fn lemma_first_free_unique<T>(s: Seq<Option<T>>, i: int)
    requires
        is_first_free(s, i),
    ensures
        !is_full(s),
        forall|k: int| is_first_free(s, k) ==> k == i,
        (choose|k: int| is_first_free(s, k)) == i,
{
    assert(s[i] is None);
    assert forall|k: int| is_first_free(s, k) implies k == i by {
        if k < i {
            assert(s[k] is Some);
        } else if k > i {
            assert(s[i] is Some);
        }
    }
}

/// A pool never holds more live entities than it has slots.
pub proof fn lemma_live_count_bounded<T>(s: Seq<Option<T>>)
    ensures
        live_count(s) <= s.len(),
        is_full(s) ==> live_count(s) == s.len(),
    decreases s.len(),
{
    if s.len() > 0 {
        lemma_live_count_bounded(s.drop_last());
        if is_full(s) {
            assert(is_full(s.drop_last())) by {
                assert forall|j: int| 0 <= j < s.drop_last().len() implies #[trigger] s.drop_last()[j] is Some by {
                    assert(s[j] is Some);
                }
            }
            assert(s[s.len() - 1] is Some);
        }
    }
}

/// Filling a free slot raises the live count by one.
pub proof fn lemma_live_count_fill<T>(s: Seq<Option<T>>, i: int, v: T)
    requires
        0 <= i < s.len(),
        s[i] is None,
    ensures
        live_count(s.update(i, Some(v))) == live_count(s) + 1,
    decreases s.len(),
{
    let t = s.update(i, Some(v));
    if i == s.len() - 1 {
        assert(t.drop_last() =~= s.drop_last());
    } else {
        lemma_live_count_fill(s.drop_last(), i, v);
        assert(t.drop_last() =~= s.drop_last().update(i, Some(v)));
    }
}

/// Allocating into a pool keeps its capacity and never takes it past its
/// capacity; into a full pool it changes nothing; into a pool with a free
/// slot it adds exactly one live entity.
pub proof fn lemma_allocate_capacity<T>(s: Seq<Option<T>>, v: T)
    ensures
        allocated(s, v).len() == s.len(),
        live_count(allocated(s, v)) <= s.len(),
        is_full(s) ==> allocated(s, v) == s,
        !is_full(s) ==> live_count(allocated(s, v)) == live_count(s) + 1,
{
    if !is_full(s) {
        let j = choose|j: int| 0 <= j < s.len() && !(#[trigger] s[j] is Some);
        lemma_first_free_exists(s, j);
        let i = choose|i: int| is_first_free(s, i);
        lemma_live_count_fill(s, i, v);
    }
    lemma_live_count_bounded(allocated(s, v));
}

/// A pool with a free slot at `j` has a lowest free slot, at or below `j`.
pub proof fn lemma_first_free_exists<T>(s: Seq<Option<T>>, j: int)
    requires
        0 <= j < s.len(),
        s[j] is None,
    ensures
        exists|i: int| is_first_free(s, i) && i <= j,
    decreases j,
{
    if exists|k: int| 0 <= k < j && s[k] is None {
        let k = choose|k: int| 0 <= k < j && s[k] is None;
        lemma_first_free_exists(s, k);
    } else {
        assert(is_first_free(s, j));
    }
}

/// In a full pool, freeing slot `i` lets exactly one later allocation take
/// that very slot, after which the pool is full again and the next allocation
/// changes nothing.
pub proof fn lemma_free_then_reuse<T>(s: Seq<Option<T>>, i: int, v: T, w: T)
    requires
        is_full(s),
        0 <= i < s.len(),
    ensures
        is_first_free(s.update(i, None), i),
        allocated(s.update(i, None), v) == s.update(i, Some(v)),
        is_full(s.update(i, Some(v))),
        allocated(allocated(s.update(i, None), v), w) == s.update(i, Some(v)),
{
    let t = s.update(i, None);
    assert forall|j: int| 0 <= j < i implies #[trigger] t[j] is Some by {
        assert(s[j] is Some);
    }
    lemma_first_free_unique(t, i);
    let u = s.update(i, Some(v));
    assert forall|j: int| 0 <= j < u.len() implies #[trigger] u[j] is Some by {
        if j != i {
            assert(s[j] is Some);
        }
    }
}

} // verus!
