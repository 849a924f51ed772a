//! Per-component-type storage over the sparse set, keyed by entity index.

use vstd::prelude::*;

use crate::sparse_set::SparseSet;

verus! {

/// Marker for types that can be attached to entities as components.
pub trait Component: Sized {

}

/// Dense storage of one component type, keyed by entity index.
pub struct ComponentStorage<T: Component> {
    pub data: SparseSet<T>,
}

impl<T: Component> ComponentStorage<T> {
    /// The underlying sparse set's index arrays are consistent.
    pub open spec fn inv(self) -> bool {
        self.data.inv()
    }

    /// The storage as a map from entity indices to components.
    pub open spec fn view(self) -> Map<int, T> {
        self.data@
    }

    /// An empty storage.
    pub fn new() -> (r: Self)
        ensures
            r.inv(),
            r@ == Map::<int, T>::empty(),
    {
        Self { data: SparseSet::new() }
    }

    /// Attach a component at an entity index; returns the component
    /// previously attached there, if any.
    pub fn insert(&mut self, index: usize, component: T) -> (r: Option<T>)
        requires
            old(self).inv(),
            index + 1 < usize::MAX,
        ensures
            final(self).inv(),
            final(self)@ == old(self)@.insert(index as int, component),
            match r {
                Some(v) => old(self)@.contains_key(index as int) && v == old(self)@[index as int],
                None => !old(self)@.contains_key(index as int),
            },
    {
        self.data.insert(index, component)
    }

    /// Detach and return the component at an entity index, if any.
    pub fn remove(&mut self, index: usize) -> (r: Option<T>)
        requires
            old(self).inv(),
        ensures
            final(self).inv(),
            final(self)@ == old(self)@.remove(index as int),
            match r {
                Some(v) => old(self)@.contains_key(index as int) && v == old(self)@[index as int],
                None => !old(self)@.contains_key(index as int),
            },
    {
        self.data.remove(index)
    }

    /// Read the component at an entity index.
    pub fn get(&self, index: usize) -> (r: Option<&T>)
        requires
            self.inv(),
        ensures
            match r {
                Some(v) => self@.contains_key(index as int) && *v == self@[index as int],
                None => !self@.contains_key(index as int),
            },
    {
        self.data.get(index)
    }

    /// Borrow the component at an entity index mutably. While the borrow
    /// lives, the storage maps the index to whatever the caller leaves
    /// behind it; every other entity's component is untouched.
    pub fn get_mut(&mut self, index: usize) -> (r: Option<&mut T>)
        requires
            old(self).inv(),
        ensures
            r is Some <==> old(self)@.contains_key(index as int),
            r matches Some(v) ==> {
                &&& *v == old(self)@[index as int]
                &&& final(self).inv()
                &&& forall|p: int|
                    #[trigger] final(self)@.contains_key(p) == old(self)@.contains_key(p)
                &&& forall|p: int|
                    old(self)@.contains_key(p) && p != index ==> #[trigger] final(self)@[p] == old(
                        self,
                    )@[p]
                &&& final(self)@[index as int] == *final(v)
            },
            r is None ==> *final(self) == *old(self),
    {
        self.data.get_mut(index)
    }

    /// Whether a component is attached at an entity index.
    pub fn contains(&self, index: usize) -> (r: bool)
        requires
            self.inv(),
        ensures
            r == self@.contains_key(index as int),
    {
        self.data.contains(index)
    }

    /// The stored components, densely packed in storage order.
    pub fn iter(&self) -> (r: &Vec<T>)
        ensures
            r@ == self.data.dense@,
    {
        self.data.iter()
    }
}

impl<T: Component> Default for ComponentStorage<T> {
    /// Same as `new`: an empty storage.
    fn default() -> (r: Self)
        ensures
            r.inv(),
            r@ == Map::<int, T>::empty(),
    {
        ComponentStorage::new()
    }
}

} // verus!
