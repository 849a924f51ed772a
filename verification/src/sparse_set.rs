//! A sparse set: a map from small integer positions to values, with
//! constant-time membership, insertion and removal, and densely packed
//! values for fast iteration.
//!
//! `sparse[pos]` holds the position's index into the dense arrays, or a
//! sentinel when the position is empty; `dense_idx[d]` points back at the
//! position owning dense slot `d`. Removal swaps the removed slot with the
//! last one and fixes the moved slot's back-pointer.

use vstd::prelude::*;
use vstd::map::*;

verus! {

/// Sentinel in `sparse` marking an empty position.
pub const EMPTY_SLOT: usize = usize::MAX;

/// While some position is empty, the dense storage is strictly smaller than
/// the sparse array: the back-pointers map dense slots injectively into the
/// occupied positions.
proof fn lemma_dense_smaller_than_sparse<T>(s: SparseSet<T>, empty_pos: int)
    requires
        s.inv(),
        0 <= empty_pos < s.sparse@.len(),
        s.sparse@[empty_pos] == EMPTY_SLOT,
    ensures
        s.dense@.len() < s.sparse@.len(),
{
    let idxs = s.dense_idx@.map_values(|x: usize| x as int);
    assert forall|a: int, b: int| 0 <= a < idxs.len() && 0 <= b < idxs.len() && a != b implies idxs[a]
        != idxs[b] by {
        assert(s.sparse@[s.dense_idx@[a] as int] == a);
        assert(s.sparse@[s.dense_idx@[b] as int] == b);
    }
    assert(idxs.no_duplicates());
    idxs.unique_seq_to_set();
    let occupied = vstd::set_lib::set_int_range(0, s.sparse@.len() as int).remove(empty_pos);
    assert(s.dense_idx@.len() <= usize::MAX) by {
        assert(vstd::std_specs::vec::spec_vec_len(&s.dense_idx) == s.dense_idx@.len());
    }
    assert forall|x: int| idxs.to_set().contains(x) implies occupied.contains(x) by {
        assert(idxs.contains(x));
        let d = choose|d: int| 0 <= d < idxs.len() && idxs[d] == x;
        assert(idxs[d] == x);
        assert(s.sparse@[s.dense_idx@[d] as int] == d);
    }
    vstd::set_lib::lemma_int_range(0, s.sparse@.len() as int);
    vstd::set_lib::lemma_len_subset(idxs.to_set(), occupied);
}

/// A map from integer positions to values of `T`, backed by a sparse index
/// array and dense value storage.
pub struct SparseSet<T> {
    pub sparse: Vec<usize>,
    pub dense: Vec<T>,
    pub dense_idx: Vec<usize>,
}

impl<T> SparseSet<T> {
    /// The two index arrays are inverse to one another: every dense slot's
    /// back-pointer names a sparse position pointing at that slot, and
    /// every occupied sparse position points at a dense slot pointing back.
    pub open spec fn inv(self) -> bool {
        &&& self.dense@.len() == self.dense_idx@.len()
        &&& self.sparse@.len() < EMPTY_SLOT
        &&& forall|d: int|
            0 <= d < self.dense_idx@.len() ==> ((#[trigger] self.dense_idx@[d]) as int)
                < self.sparse@.len() && self.sparse@[self.dense_idx@[d] as int] == d
        &&& forall|p: int|
            0 <= p < self.sparse@.len() ==> (#[trigger] self.sparse@[p]) == EMPTY_SLOT || (
            (self.sparse@[p] as int) < self.dense@.len() && self.dense_idx@[self.sparse@[p] as int]
                == p)
    }

    /// Whether a position holds a value.
    pub open spec fn spec_contains(self, pos: int) -> bool {
        0 <= pos < self.sparse@.len() && self.sparse@[pos] != EMPTY_SLOT
    }

    /// The value a position holds.
    pub open spec fn spec_at(self, pos: int) -> T {
        self.dense@[self.sparse@[pos] as int]
    }

    /// The set as a map from occupied positions to their values.
    pub open spec fn view(self) -> Map<int, T> {
        Map::new(|p: int| self.spec_contains(p), |p: int| self.spec_at(p))
    }

    /// An empty set.
    pub fn new() -> (r: Self)
        ensures
            r.inv(),
            r@ == Map::<int, T>::empty(),
            r.dense@.len() == 0,
    {
        let r = Self { sparse: Vec::new(), dense: Vec::new(), dense_idx: Vec::new() };
        proof {
            assert(r@ =~= Map::<int, T>::empty());
        }
        r
    }

    /// Whether a position holds a value. Positions past the sparse array
    /// are simply absent.
    pub fn contains(&self, idx: usize) -> (r: bool)
        requires
            self.inv(),
        ensures
            r == self.spec_contains(idx as int),
    {
        idx < self.sparse.len() && self.sparse[idx] != EMPTY_SLOT
    }

    /// Read the value at a position.
    pub fn get(&self, idx: usize) -> (r: Option<&T>)
        requires
            self.inv(),
        ensures
            match r {
                Some(v) => self.spec_contains(idx as int) && *v == self.spec_at(idx as int),
                None => !self.spec_contains(idx as int),
            },
    {
        if idx < self.sparse.len() && self.sparse[idx] != EMPTY_SLOT {
            Some(&self.dense[self.sparse[idx]])
        } else {
            None
        }
    }

    /// Insert a value at a position, growing the sparse array as needed;
    /// returns the value previously there, if any.
    pub fn insert(&mut self, pos: usize, elem: T) -> (r: Option<T>)
        requires
            old(self).inv(),
            pos + 1 < EMPTY_SLOT,
        ensures
            final(self).inv(),
            final(self)@ == old(self)@.insert(pos as int, elem),
            match r {
                Some(v) => old(self).spec_contains(pos as int) && v == old(self).spec_at(
                    pos as int,
                ),
                None => !old(self).spec_contains(pos as int),
            },
    {
        let ghost old_view = self@;
        while self.sparse.len() <= pos
            invariant
                pos + 1 < EMPTY_SLOT,
                self.inv(),
                self.dense == old(self).dense,
                self.dense_idx == old(self).dense_idx,
                self.sparse@.len() >= old(self).sparse@.len(),
                forall|p: int|
                    0 <= p < old(self).sparse@.len() ==> (#[trigger] self.sparse@[p]) == old(
                        self,
                    ).sparse@[p],
                forall|p: int|
                    old(self).sparse@.len() <= p < self.sparse@.len() ==> (
                    #[trigger] self.sparse@[p]) == EMPTY_SLOT,
                self@ == old_view,
            decreases pos + 1 - self.sparse@.len(),
        {
            self.sparse.push(EMPTY_SLOT);
            proof {
                assert(self@ =~= old_view);
            }
        }
        if self.sparse[pos] != EMPTY_SLOT {
            let dense_index = self.sparse[pos];
            self.dense.push(elem);
            let old_value = self.dense.swap_remove(dense_index);
            proof {
                assert(self.dense@ =~= old(self).dense@.update(dense_index as int, elem));
                assert(old(self).dense_idx@[dense_index as int] == pos as int);
                assert forall|p: int|
                    self.spec_contains(p) && p != pos implies old(self).spec_contains(p)
                    && self.spec_at(p) == old(self).spec_at(p) by {
                    if p >= old(self).sparse@.len() {
                        assert(self.sparse@[p] == EMPTY_SLOT);
                    }
                    assert(self.sparse@[p] == old(self).sparse@[p]);
                    assert(old(self).dense_idx@[old(self).sparse@[p] as int] == p);
                }
                assert forall|p: int|
                    old(self).spec_contains(p) implies self.spec_contains(p) by {
                    assert(self.sparse@[p] == old(self).sparse@[p]);
                }
                assert(self.spec_contains(pos as int));
                assert(self.spec_at(pos as int) == elem);
                assert_maps_equal!(self@, old(self)@.insert(pos as int, elem));
            }
            Some(old_value)
        } else {
            proof {
                lemma_dense_smaller_than_sparse(*self, pos as int);
            }
            let dense_index = self.dense.len();
            self.dense.push(elem);
            self.dense_idx.push(pos);
            self.sparse.set(pos, dense_index);
            proof {
                assert(self.spec_contains(pos as int));
                assert(self.spec_at(pos as int) == elem);
                assert forall|p: int|
                    self.spec_contains(p) && p != pos implies old(self).spec_contains(p)
                    && self.spec_at(p) == old(self).spec_at(p) by {
                    if p >= old(self).sparse@.len() {
                        assert(self.sparse@[p] == EMPTY_SLOT);
                    }
                    assert(self.sparse@[p] == old(self).sparse@[p]);
                    assert(((old(self).sparse@[p]) as int) < old(self).dense@.len());
                }
                assert forall|p: int|
                    old(self).spec_contains(p) && p != pos implies self.spec_contains(p) by {
                    assert(self.sparse@[p] == old(self).sparse@[p]);
                }
                assert_maps_equal!(self@, old(self)@.insert(pos as int, elem));
            }
            None
        }
    }

    /// Remove the value at a position, if any. The last dense slot is
    /// swapped into the vacated one and its position's index is redirected.
    pub fn remove(&mut self, pos: usize) -> (r: Option<T>)
        requires
            old(self).inv(),
        ensures
            final(self).inv(),
            final(self)@ == old(self)@.remove(pos as int),
            match r {
                Some(v) => old(self).spec_contains(pos as int) && v == old(self).spec_at(
                    pos as int,
                ),
                None => !old(self).spec_contains(pos as int),
            },
    {
        if pos >= self.sparse.len() {
            proof {
                assert(self@ =~= old(self)@.remove(pos as int));
            }
            return None;
        }
        let dense_index = self.sparse[pos];
        if dense_index == EMPTY_SLOT {
            proof {
                assert(self@ =~= old(self)@.remove(pos as int));
            }
            return None;
        }
        let last_index = self.dense.len() - 1;
        let moved_pos = self.dense_idx[last_index];
        let removed = self.dense.swap_remove(dense_index);
        let _ = self.dense_idx.swap_remove(dense_index);
        self.sparse.set(moved_pos, dense_index);
        self.sparse.set(pos, EMPTY_SLOT);
        proof {
            assert forall|d: int| 0 <= d < self.dense_idx@.len() implies ((
            #[trigger] self.dense_idx@[d]) as int) < self.sparse@.len() && self.sparse@[self.dense_idx@[d] as int]
                == d by {
                assert(old(self).dense_idx@[d] == self.dense_idx@[d] || d == dense_index);
            }
            assert(self@ =~= old(self)@.remove(pos as int));
        }
        Some(removed)
    }

    /// Borrow the value at a position mutably. While the borrow lives, the
    /// set maps the position to whatever the caller leaves behind it;
    /// everything else is untouched.
    pub fn get_mut(&mut self, idx: usize) -> (r: Option<&mut T>)
        requires
            old(self).inv(),
        ensures
            r is Some <==> old(self).spec_contains(idx as int),
            r matches Some(v) ==> {
                &&& *v == old(self).spec_at(idx as int)
                &&& final(self).inv()
                &&& forall|p: int|
                    #[trigger] final(self).spec_contains(p) == old(self).spec_contains(p)
                &&& forall|p: int|
                    old(self).spec_contains(p) && p != idx ==> #[trigger] final(self).spec_at(p)
                        == old(self).spec_at(p)
                &&& final(self).spec_at(idx as int) == *final(v)
            },
            r is None ==> *final(self) == *old(self),
    {
        if idx < self.sparse.len() && self.sparse[idx] != EMPTY_SLOT {
            Some(&mut self.dense[self.sparse[idx]])
        } else {
            None
        }
    }

    /// The densely packed values, in storage order.
    pub fn iter(&self) -> (r: &Vec<T>)
        ensures
            r@ == self.dense@,
    {
        &self.dense
    }
}

} // verus!
