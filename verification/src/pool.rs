//! Object pool: a bounded collection of reusable slots threaded on a
//! free list.
//!
//! The pool keeps its unused slot indices on a singly linked list rooted at
//! `head` and threaded through the `next` array, manipulated as a stack:
//! `acquire` pops the head slot and hands its ownership to a guard, and
//! `release` pushes the guard's slot back.  A ghost sequence mirrors the
//! linked structure, and the contracts pin down the exactly-once slot
//! ownership: a slot index is either on the free list or checked out by one
//! guard, never both.

use core::marker::PhantomData;
use vstd::prelude::*;
use vstd::set_lib::{lemma_int_range, lemma_len_subset, set_int_range};

verus! {

/// Sentinel index terminating the free list.
pub const EMPTY: usize = usize::MAX;

/// Bounded object pool for fixed-size objects, built on a free-list stack
/// of slot indices.
pub struct ObjectPool<T> {
    /// Successor index of each slot, `EMPTY` at the end of the free list.
    next: Vec<usize>,
    /// Index of the first free slot, `EMPTY` when the pool is drained.
    head: usize,
    /// Number of slots, fixed at construction.
    capacity: usize,
    /// The free slot indices in stack order, mirroring the linked list.
    free: Ghost<Seq<usize>>,
    _marker: PhantomData<T>,
}

/// Guard for one checked-out slot; it owns the slot's value, if one was
/// written, and returns the slot to the pool through `ObjectPool::release`.
pub struct PoolGuard<T> {
    index: usize,
    value: Option<T>,
}

impl<T> PoolGuard<T> {
    /// The slot index this guard owns.
    pub closed spec fn index_spec(self) -> usize {
        self.index
    }

    /// Whether a value has been written into the guard.
    pub closed spec fn is_initialized(self) -> bool {
        self.value is Some
    }

    /// The value held by the guard.
    pub closed spec fn value_spec(self) -> Option<T> {
        self.value
    }

    /// The slot index this guard owns.
    pub fn index(&self) -> (r: usize)
        ensures
            r == self.index_spec(),
    {
        self.index
    }

    /// Write a value into the slot, marking the guard initialized.
    pub fn initialize(&mut self, value: T)
        ensures
            final(self).index_spec() == old(self).index_spec(),
            final(self).is_initialized(),
            final(self).value_spec() == Some(value),
    {
        self.value = Some(value);
    }

    /// Read the held value.  Reading an uninitialized guard is a
    /// programming-contract violation and is excluded by the precondition.
    pub fn get(&self) -> (r: &T)
        requires
            self.is_initialized(),
        ensures
            self.value_spec() == Some(*r),
    {
        match &self.value {
            Some(v) => v,
            None => vstd::pervasive::unreached(),
        }
    }

    /// Borrow the held value mutably.  Reading an uninitialized guard is a
    /// programming-contract violation and is excluded by the precondition.
    pub fn get_mut(&mut self) -> (r: &mut T)
        requires
            old(self).is_initialized(),
        ensures
            old(self).value_spec() == Some(*r),
            final(self).index_spec() == old(self).index_spec(),
            final(self).value_spec() == Some(*final(r)),
    {
        match &mut self.value {
            Some(v) => v,
            None => vstd::pervasive::unreached(),
        }
    }
}

/// A distinct sequence of indices below `n` holds at most `n` of them.
proof fn lemma_distinct_bounded_len(s: Seq<usize>, n: nat)
    requires
        s.no_duplicates(),
        forall|i: int| 0 <= i < s.len() ==> (s[i] as nat) < n,
    ensures
        s.len() <= n,
{
    let f = |x: usize| x as int;
    assert(vstd::relations::injective(f));
    s.lemma_no_duplicates_injective(f);
    let t = s.map_values(f);
    t.unique_seq_to_set();
    assert(t.to_set().subset_of(set_int_range(0, n as int))) by {
        assert(forall|x: int| t.to_set().contains(x) ==> 0 <= x < n as int) by {
            assert(forall|x: int| t.to_set().contains(x) ==> t.contains(x));
        };
    };
    lemma_int_range(0, n as int);
    lemma_len_subset(t.to_set(), set_int_range(0, n as int));
}

impl<T> ObjectPool<T> {
    /// The fixed slot count.
    pub closed spec fn spec_capacity(self) -> nat {
        self.capacity as nat
    }

    /// The free slot indices, in the order the list links them.
    pub closed spec fn free_list(self) -> Seq<usize> {
        self.free@
    }

    /// Number of slots currently on the free list.
    pub open spec fn available_spec(self) -> nat {
        self.free_list().len()
    }

    /// Number of slots currently checked out.
    pub open spec fn outstanding(self) -> int {
        self.spec_capacity() - self.available_spec()
    }

    /// Slot `i` is checked out: a valid index that is not on the free list.
    pub open spec fn owns_index(self, i: usize) -> bool {
        (i as nat) < self.spec_capacity() && !self.free_list().contains(i)
    }

    /// The guard holds a slot of this pool that is not on the free list.
    pub open spec fn owns(self, g: PoolGuard<T>) -> bool {
        self.owns_index(g.index_spec())
    }

    /// Well-formedness: the ghost free list mirrors the linked structure,
    /// every free index is a distinct in-range slot, and the list ends at
    /// the sentinel.
    pub closed spec fn wf(self) -> bool {
        &&& self.next@.len() == self.capacity
        &&& self.capacity < EMPTY
        &&& self.free@.no_duplicates()
        &&& (forall|i: int| 0 <= i < self.free@.len() ==> (#[trigger] self.free@[i]) < self.capacity)
        &&& self.head == (if self.free@.len() == 0 {
            EMPTY
        } else {
            self.free@[0]
        })
        &&& (forall|i: int|
            0 <= i < self.free@.len() - 1 ==> self.next@[#[trigger] self.free@[i] as int]
                == self.free@[i + 1])
        &&& (self.free@.len() > 0 ==> self.next@[self.free@.last() as int] == EMPTY)
    }

    /// The free list never holds more indices than the pool has slots.
    pub proof fn lemma_available_at_most_capacity(self)
        requires
            self.wf(),
        ensures
            self.available_spec() <= self.spec_capacity(),
            0 <= self.outstanding() <= self.spec_capacity(),
    {
        lemma_distinct_bounded_len(self.free@, self.capacity as nat);
    }

    /// A pool of capacity `c` admits exactly `c` outstanding guards: an
    /// acquisition can succeed if and only if fewer than `c` slots are
    /// checked out, so the `c+1`-th concurrent attempt comes up empty until
    /// a guard is released.
    pub proof fn lemma_exhaustion(self)
        requires
            self.wf(),
        ensures
            self.available_spec() > 0 <==> self.outstanding() < self.spec_capacity(),
            self.available_spec() == 0 <==> self.outstanding() == self.spec_capacity(),
    {
        self.lemma_available_at_most_capacity();
    }

    /// Create a pool with `capacity` uninitialized slots, linked
    /// 0 -> 1 -> ... -> capacity-1 -> EMPTY.
    pub fn new(capacity: usize) -> (r: ObjectPool<T>)
        requires
            capacity < EMPTY,
        ensures
            r.wf(),
            r.spec_capacity() == capacity,
            r.available_spec() == capacity,
            r.free_list() == Seq::new(capacity as nat, |i: int| i as usize),
    {
        let mut next: Vec<usize> = Vec::new();
        let mut i: usize = 0;
        while i < capacity
            invariant
                i <= capacity,
                capacity < EMPTY,
                next@.len() == i,
                forall|j: int|
                    0 <= j < i ==> (#[trigger] next@[j]) as int == (if j + 1 < capacity as int {
                        j + 1
                    } else {
                        EMPTY as int
                    }),
            decreases capacity - i,
        {
            if i + 1 < capacity {
                next.push(i + 1);
            } else {
                next.push(EMPTY);
            }
            i = i + 1;
        }
        let head = if capacity > 0 {
            0
        } else {
            EMPTY
        };
        let ghost free = Seq::new(capacity as nat, |i: int| i as usize);
        let pool = ObjectPool { next, head, capacity, free: Ghost(free), _marker: PhantomData };
        proof {
            assert(free.no_duplicates()) by {
                assert(forall|p: int, q: int|
                    0 <= p < free.len() && 0 <= q < free.len() && p != q ==> free[p] != free[q]);
            };
            assert(pool.wf());
        }
        pool
    }

    /// Try to check out a slot.  Returns `None` when the pool is drained:
    /// exhaustion is a backpressure signal, not an error.  On success the
    /// head slot of the free list moves to the returned guard, every
    /// previously outstanding slot stays outstanding, and the new guard's
    /// slot differs from all of them: no slot is ever owned twice.
    pub fn acquire(&mut self) -> (r: Option<PoolGuard<T>>)
        requires
            old(self).wf(),
        ensures
            final(self).wf(),
            final(self).spec_capacity() == old(self).spec_capacity(),
            r is Some <==> old(self).available_spec() > 0,
            old(self).available_spec() == 0 ==> *final(self) == *old(self),
            (match r {
                Some(g) => {
                    &&& g.index_spec() == old(self).free_list()[0]
                    &&& !g.is_initialized()
                    &&& final(self).free_list() == old(self).free_list().drop_first()
                    &&& final(self).owns(g)
                    &&& forall|i: usize|
                        old(self).owns_index(i) ==> i != g.index_spec()
                },
                None => *final(self) == *old(self),
            }),
            forall|i: usize| old(self).owns_index(i) ==> final(self).owns_index(i),
    {
        if self.head == EMPTY {
            proof {
                if self.free@.len() > 0 {
                    assert(self.head == self.free@[0]);
                    assert(self.free@[0] < self.capacity);
                }
            }
            None
        } else {
            let idx = self.head;
            proof {
                assert(self.free@.len() > 0);
                assert(idx == self.free@[0]);
                assert(idx < self.capacity);
            }
            let nxt = self.next[idx];
            self.head = nxt;
            proof {
                self.free@ = self.free@.drop_first();
            }
            let guard = PoolGuard { index: idx, value: None };
            proof {
                let oldf = old(self).free@;
                let newf = self.free@;
                assert(newf =~= oldf.drop_first());
                if newf.len() > 0 {
                    assert(oldf[1] == newf[0]);
                    assert(nxt == old(self).next@[oldf[0] as int]);
                }
                assert(forall|i: int|
                    0 <= i < newf.len() - 1 ==> self.next@[#[trigger] newf[i] as int] == newf[i
                        + 1]) by {
                    assert(forall|i: int| 0 <= i < newf.len() ==> newf[i] == oldf[i + 1]);
                };
                assert(self.wf());
                assert(!newf.contains(idx)) by {
                    if newf.contains(idx) {
                        let w = choose|w: int| 0 <= w < newf.len() && newf[w] == idx;
                        assert(oldf[w + 1] == idx);
                        assert(oldf[0] == idx);
                    }
                };
                assert(oldf.contains(oldf[0]));
                assert(forall|i: usize| old(self).owns_index(i) ==> self.owns_index(i)) by {
                    assert(forall|i: usize|
                        newf.contains(i) ==> oldf.contains(i)) by {
                        assert(forall|w: int| 0 <= w < newf.len() ==> newf[w] == oldf[w + 1]);
                        assert(forall|w: int|
                            0 <= w < newf.len() && oldf[w + 1] == newf[w] ==> oldf.contains(
                                oldf[w + 1],
                            ));
                    };
                };
            }
            Some(guard)
        }
    }

    /// Return a checked-out slot to the pool, dropping the held value if one
    /// was written.  The slot becomes the new head of the free list.
    pub fn release(&mut self, guard: PoolGuard<T>)
        requires
            old(self).wf(),
            old(self).owns(guard),
        ensures
            final(self).wf(),
            final(self).spec_capacity() == old(self).spec_capacity(),
            final(self).free_list() == seq![guard.index_spec()] + old(self).free_list(),
            final(self).available_spec() == old(self).available_spec() + 1,
    {
        let idx = guard.index;
        let h = self.head;
        self.next[idx] = h;
        self.head = idx;
        proof {
            let oldf = old(self).free@;
            self.free@ = seq![idx] + oldf;
            let newf = self.free@;
            assert(newf[0] == idx);
            assert(forall|i: int| 0 <= i < oldf.len() ==> newf[i + 1] == oldf[i]);
            assert(newf.no_duplicates()) by {
                assert(forall|p: int, q: int|
                    0 <= p < newf.len() && 0 <= q < newf.len() && p != q ==> newf[p] != newf[q])
                    by {
                    assert(forall|i: int| 0 <= i < oldf.len() ==> oldf.contains(oldf[i]));
                };
            };
            if oldf.len() > 0 {
                assert(self.next@[idx as int] == old(self).head);
                assert(old(self).head == oldf[0]);
                assert(newf.last() == oldf.last());
                assert(oldf.last() != idx) by {
                    assert(oldf.contains(oldf.last()));
                };
            }
            assert(forall|i: int|
                0 <= i < newf.len() - 1 ==> self.next@[#[trigger] newf[i] as int] == newf[i + 1])
                by {
                assert(forall|i: int|
                    1 <= i < newf.len() - 1 ==> (#[trigger] newf[i]) == oldf[i - 1] && newf[i + 1]
                        == oldf[i]);
                assert(forall|i: int|
                    0 <= i < oldf.len() - 1 ==> old(self).next@[#[trigger] oldf[i] as int]
                        == oldf[i + 1]);
                assert(forall|i: int| 0 <= i < oldf.len() ==> oldf.contains(oldf[i]));
            };
            assert(self.wf());
        }
    }

    /// Count the slots on the free list by walking it.  A diagnostic
    /// snapshot: the count equals the length of the free list.
    pub fn available(&self) -> (r: usize)
        requires
            self.wf(),
        ensures
            r == self.available_spec(),
    {
        proof {
            self.lemma_available_at_most_capacity();
        }
        let mut count: usize = 0;
        let mut current = self.head;
        while current != EMPTY && count < self.capacity
            invariant
                self.wf(),
                count <= self.free@.len(),
                self.free@.len() <= self.capacity,
                current == (if count == self.free@.len() {
                    EMPTY
                } else {
                    self.free@[count as int]
                }),
            decreases self.free@.len() - count,
        {
            proof {
                assert(count < self.free@.len());
                assert(current == self.free@[count as int]);
                assert(current < self.capacity);
            }
            let nxt = self.next[current];
            count = count + 1;
            current = nxt;
        }
        count
    }

    /// The fixed slot count.
    pub fn capacity(&self) -> (r: usize)
        ensures
            r == self.spec_capacity(),
    {
        self.capacity
    }
}

/// Free list after returning the slots of `returned`, first entry first, to
/// a pool whose free list is `free`: each release pushes one slot, exactly
/// as `ObjectPool::release` does.
pub open spec fn free_after_releases(free: Seq<usize>, returned: Seq<usize>) -> Seq<usize>
    decreases returned.len(),
{
    if returned.len() == 0 {
        free
    } else {
        free_after_releases(seq![returned[0]] + free, returned.drop_first())
    }
}

/// Each release grows the free list by exactly one slot.
proof fn lemma_free_after_releases_len(free: Seq<usize>, returned: Seq<usize>)
    ensures
        free_after_releases(free, returned).len() == free.len() + returned.len(),
    decreases returned.len(),
{
    if returned.len() > 0 {
        lemma_free_after_releases_len(seq![returned[0]] + free, returned.drop_first());
    }
}

/// Draining a pool empties its free list; returning all guards afterwards
/// leaves one free slot per returned guard, so after a full drain of a pool
/// of capacity `c` and a full return, `available()` is `c` again, whatever
/// the order of return.
pub proof fn lemma_refill_restores_capacity(returned: Seq<usize>)
    ensures
        free_after_releases(Seq::<usize>::empty(), returned).len() == returned.len(),
{
    lemma_free_after_releases_len(Seq::<usize>::empty(), returned);
}

/// Fixed byte size of the small buffer tier.
pub const SMALL_BUFFER_SIZE: usize = 1024;

/// Fixed byte size of the medium buffer tier.
pub const MEDIUM_BUFFER_SIZE: usize = 16 * 1024;

/// Fixed byte size of the large buffer tier.
pub const LARGE_BUFFER_SIZE: usize = 256 * 1024;

/// Request/response buffer pool: three independently sized object pools,
/// selected by requested size.
pub struct BufferPool {
    small: ObjectPool<Vec<u8>>,
    medium: ObjectPool<Vec<u8>>,
    large: ObjectPool<Vec<u8>>,
}

/// Statistics for a buffer pool.
#[derive(Debug, Clone, Copy, PartialEq, Eq, Structural)]
pub struct BufferPoolStats {
    pub small_available: usize,
    pub small_capacity: usize,
    pub medium_available: usize,
    pub medium_capacity: usize,
    pub large_available: usize,
    pub large_capacity: usize,
}

/// One acquisition step on a pool: on a drained pool nothing changes and
/// nothing is returned; otherwise the head free slot moves to the guard.
pub open spec fn acquire_step<T>(
    before: ObjectPool<T>,
    after: ObjectPool<T>,
    r: Option<PoolGuard<T>>,
) -> bool {
    &&& after.wf()
    &&& after.spec_capacity() == before.spec_capacity()
    &&& (r is Some <==> before.available_spec() > 0)
    &&& (match r {
        Some(g) => {
            &&& g.index_spec() == before.free_list()[0]
            &&& !g.is_initialized()
            &&& after.free_list() == before.free_list().drop_first()
        },
        None => after == before,
    })
}

impl BufferPool {
    /// All three tiers are well formed.
    pub closed spec fn wf(self) -> bool {
        &&& self.small.wf()
        &&& self.medium.wf()
        &&& self.large.wf()
    }

    /// The small tier.
    pub closed spec fn small_pool(self) -> ObjectPool<Vec<u8>> {
        self.small
    }

    /// The medium tier.
    pub closed spec fn medium_pool(self) -> ObjectPool<Vec<u8>> {
        self.medium
    }

    /// The large tier.
    pub closed spec fn large_pool(self) -> ObjectPool<Vec<u8>> {
        self.large
    }

    /// Create a buffer pool with the given tier capacities.  Every slot of
    /// every tier is cycled through a zeroed buffer of the tier's fixed
    /// size, so each tier starts with `available() == capacity`.
    pub fn new(small_count: usize, medium_count: usize, large_count: usize) -> (r: BufferPool)
        requires
            small_count < EMPTY,
            medium_count < EMPTY,
            large_count < EMPTY,
        ensures
            r.wf(),
            r.small_pool().spec_capacity() == small_count,
            r.small_pool().available_spec() == small_count,
            r.medium_pool().spec_capacity() == medium_count,
            r.medium_pool().available_spec() == medium_count,
            r.large_pool().spec_capacity() == large_count,
            r.large_pool().available_spec() == large_count,
    {
        let mut small = ObjectPool::<Vec<u8>>::new(small_count);
        let mut medium = ObjectPool::<Vec<u8>>::new(medium_count);
        let mut large = ObjectPool::<Vec<u8>>::new(large_count);
        prefill(&mut small, SMALL_BUFFER_SIZE);
        prefill(&mut medium, MEDIUM_BUFFER_SIZE);
        prefill(&mut large, LARGE_BUFFER_SIZE);
        BufferPool { small, medium, large }
    }

    /// Acquire a buffer from the smallest tier whose fixed size covers
    /// `size`; oversize requests are not pooled and return `None`.
    pub fn acquire_buffer(&mut self, size: usize) -> (r: Option<PoolGuard<Vec<u8>>>)
        requires
            old(self).wf(),
        ensures
            final(self).wf(),
            size <= SMALL_BUFFER_SIZE ==> acquire_step(old(self).small_pool(), final(self).small_pool(), r)
                && final(self).medium_pool() == old(self).medium_pool()
                && final(self).large_pool() == old(self).large_pool(),
            SMALL_BUFFER_SIZE < size <= MEDIUM_BUFFER_SIZE ==> acquire_step(
                old(self).medium_pool(),
                final(self).medium_pool(),
                r,
            ) && final(self).small_pool() == old(self).small_pool() && final(self).large_pool()
                == old(self).large_pool(),
            MEDIUM_BUFFER_SIZE < size <= LARGE_BUFFER_SIZE ==> acquire_step(
                old(self).large_pool(),
                final(self).large_pool(),
                r,
            ) && final(self).small_pool() == old(self).small_pool() && final(self).medium_pool()
                == old(self).medium_pool(),
            size > LARGE_BUFFER_SIZE ==> r is None && *final(self) == *old(self),
    {
        if size <= SMALL_BUFFER_SIZE {
            self.small.acquire()
        } else if size <= MEDIUM_BUFFER_SIZE {
            self.medium.acquire()
        } else if size <= LARGE_BUFFER_SIZE {
            self.large.acquire()
        } else {
            None
        }
    }

    /// Return a guard obtained from `acquire_buffer` for a request of
    /// `size` bytes to the tier it came from.
    pub fn release_buffer(&mut self, size: usize, guard: PoolGuard<Vec<u8>>)
        requires
            old(self).wf(),
            size <= LARGE_BUFFER_SIZE,
            size <= SMALL_BUFFER_SIZE ==> old(self).small_pool().owns(guard),
            SMALL_BUFFER_SIZE < size <= MEDIUM_BUFFER_SIZE ==> old(self).medium_pool().owns(guard),
            MEDIUM_BUFFER_SIZE < size <= LARGE_BUFFER_SIZE ==> old(self).large_pool().owns(guard),
        ensures
            final(self).wf(),
            size <= SMALL_BUFFER_SIZE ==> final(self).small_pool().available_spec()
                == old(self).small_pool().available_spec() + 1,
            SMALL_BUFFER_SIZE < size <= MEDIUM_BUFFER_SIZE
                ==> final(self).medium_pool().available_spec()
                == old(self).medium_pool().available_spec() + 1,
            MEDIUM_BUFFER_SIZE < size <= LARGE_BUFFER_SIZE
                ==> final(self).large_pool().available_spec()
                == old(self).large_pool().available_spec() + 1,
    {
        if size <= SMALL_BUFFER_SIZE {
            self.small.release(guard);
        } else if size <= MEDIUM_BUFFER_SIZE {
            self.medium.release(guard);
        } else {
            self.large.release(guard);
        }
    }

    /// Snapshot of availability and capacity per tier.
    pub fn stats(&self) -> (r: BufferPoolStats)
        requires
            self.wf(),
        ensures
            r.small_available == self.small_pool().available_spec(),
            r.small_capacity == self.small_pool().spec_capacity(),
            r.medium_available == self.medium_pool().available_spec(),
            r.medium_capacity == self.medium_pool().spec_capacity(),
            r.large_available == self.large_pool().available_spec(),
            r.large_capacity == self.large_pool().spec_capacity(),
    {
        BufferPoolStats {
            small_available: self.small.available(),
            small_capacity: self.small.capacity(),
            medium_available: self.medium.available(),
            medium_capacity: self.medium.capacity(),
            large_available: self.large.available(),
            large_capacity: self.large.capacity(),
        }
    }
}

/// Cycle every slot of a fresh pool through a zeroed buffer of the given
/// size: acquire, write the buffer, release.  The free list is unchanged.
fn prefill(pool: &mut ObjectPool<Vec<u8>>, buffer_size: usize)
    requires
        old(pool).wf(),
    ensures
        final(pool).wf(),
        final(pool).spec_capacity() == old(pool).spec_capacity(),
        final(pool).free_list() == old(pool).free_list(),
{
    let count = pool.capacity();
    let mut k: usize = 0;
    while k < count
        invariant
            pool.wf(),
            pool.spec_capacity() == old(pool).spec_capacity(),
            pool.free_list() == old(pool).free_list(),
        decreases count - k,
    {
        match pool.acquire() {
            Some(mut guard) => {
                guard.initialize(vec![0u8; buffer_size]);
                pool.release(guard);
                proof {
                    assert(pool.free_list() =~= old(pool).free_list());
                }
            },
            None => {},
        }
        k = k + 1;
    }
}

} // verus!
