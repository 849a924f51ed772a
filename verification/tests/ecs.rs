use bnanr::entity::{Entity, EntityAllocator};
use bnanr::sparse_set::SparseSet;
use bnanr::storage::{Component, ComponentStorage};

#[derive(Debug, PartialEq, Clone, Copy)]
struct Position {
    x: i32,
    y: i32,
}

impl Component for Position {}

#[test]
fn entities_carry_index_and_generation() {
    let e = Entity::new(7, 3);
    assert_eq!(e.id, 7);
    assert_eq!(e.generation, 3);
    assert_eq!(e.index(), 7);
}

#[test]
fn allocator_recycles_freed_indices_under_new_generations() {
    let mut alloc = EntityAllocator::new();
    let a = alloc.allocate();
    let b = alloc.allocate();
    assert_eq!(a, Entity::new(0, 0));
    assert_eq!(b, Entity::new(1, 0));
    assert!(alloc.is_alive(a));
    assert!(alloc.is_alive(b));
    assert!(alloc.deallocate(a));
    assert!(!alloc.is_alive(a));
    assert!(alloc.is_alive(b));
    // A second deallocation of a stale entity is refused.
    assert!(!alloc.deallocate(a));
    // The freed index comes back under the bumped generation.
    let c = alloc.allocate();
    assert_eq!(c, Entity::new(0, 1));
    assert!(alloc.is_alive(c));
    assert!(!alloc.is_alive(a));
}

#[test]
fn sparse_set_insert_get_remove() {
    let mut set: SparseSet<u64> = SparseSet::new();
    assert!(!set.contains(0));
    assert_eq!(set.insert(4, 40), None);
    assert_eq!(set.insert(9, 90), None);
    assert_eq!(set.insert(2, 20), None);
    assert!(set.contains(4) && set.contains(9) && set.contains(2));
    assert!(!set.contains(3));
    assert_eq!(set.get(9), Some(&90));
    assert_eq!(set.get(3), None);
    // Replacing returns the old value.
    assert_eq!(set.insert(9, 91), Some(90));
    assert_eq!(set.get(9), Some(&91));
    // Removing from the middle swaps the last element in; lookups survive.
    assert_eq!(set.remove(4), Some(40));
    assert!(!set.contains(4));
    assert_eq!(set.get(9), Some(&91));
    assert_eq!(set.get(2), Some(&20));
    assert_eq!(set.remove(4), None);
    assert_eq!(set.remove(100), None);
    assert_eq!(set.iter().len(), 2);
    // A mutable borrow writes through.
    if let Some(v) = set.get_mut(2) {
        *v = 21;
    }
    assert_eq!(set.get(2), Some(&21));
    assert!(set.get_mut(4).is_none());
}

#[test]
fn component_storage_tracks_one_type() {
    let mut storage: ComponentStorage<Position> = ComponentStorage::new();
    assert!(!storage.contains(0));
    assert_eq!(storage.insert(0, Position { x: 1, y: 2 }), None);
    assert_eq!(storage.insert(5, Position { x: 3, y: 4 }), None);
    assert_eq!(storage.get(0), Some(&Position { x: 1, y: 2 }));
    assert_eq!(storage.get(5), Some(&Position { x: 3, y: 4 }));
    assert_eq!(storage.get(1), None);
    assert_eq!(
        storage.insert(0, Position { x: 9, y: 9 }),
        Some(Position { x: 1, y: 2 })
    );
    if let Some(p) = storage.get_mut(5) {
        p.x = 30;
    }
    assert_eq!(storage.get(5), Some(&Position { x: 30, y: 4 }));
    assert_eq!(storage.remove(0), Some(Position { x: 9, y: 9 }));
    assert!(!storage.contains(0));
    assert_eq!(storage.remove(0), None);
    let remaining: Vec<Position> = storage.iter().clone();
    assert_eq!(remaining, vec![Position { x: 30, y: 4 }]);
}
