//! An ordered collection of entities that are known by their position.
//!
//! What refers to an entity holds its position. So whoever removes or moves
//! an entity must tell every holder of a position what happened: the edit
//! that each operation made is part of what the operation promises.

use vstd::prelude::*;
use crate::error::StateError;
use crate::policy::{moved, ListEdit};

verus! {

/// An ordered collection of entities of one kind. An entity has no identity
/// but its position, so every operation that changes positions says how.
#[derive(Clone, Debug, PartialEq, Eq, Hash)]
pub struct EntityStore<T> {
    items: Vec<T>,
}

impl<T> View for EntityStore<T> {
    type V = Seq<T>;

    closed spec fn view(&self) -> Seq<T> {
        self.items@
    }
}

impl<T> EntityStore<T> {
    /// A store with no entities.
    pub fn new() -> (store: Self)
        ensures
            store@ == Seq::<T>::empty(),
    {
        EntityStore { items: Vec::new() }
    }

    /// A store that holds the entities of `items`, in their order.
    pub fn from_vec(items: Vec<T>) -> (store: Self)
        ensures
            store@ == items@,
    {
        EntityStore { items }
    }

    /// The entities, in their order.
    pub fn into_vec(self) -> (items: Vec<T>)
        ensures
            items@ == self@,
    {
        self.items
    }

    /// A store never holds more entities than the machine can index.
    pub proof fn lemma_len_fits(&self)
        ensures
            self@.len() <= usize::MAX,
    {
        assert(self.items@.len() == self.items.len());
    }

    /// The number of entities.
    pub fn len(&self) -> (n: usize)
        ensures
            n == self@.len(),
    {
        self.items.len()
    }

    /// Whether the store holds no entity.
    pub fn is_empty(&self) -> (empty: bool)
        ensures
            empty == (self@.len() == 0),
    {
        self.items.len() == 0
    }

    /// The entity at `index`, if there is one.
    pub fn get(&self, index: usize) -> (entity: Option<&T>)
        ensures
            index < self@.len() ==> entity == Some(&self@[index as int]),
            index >= self@.len() ==> entity is None,
    {
        if index < self.items.len() {
            Some(&self.items[index])
        } else {
            None
        }
    }

    /// The entity at `index`, to be changed in place. Its position stays.
    pub fn get_mut(&mut self, index: usize) -> (entity: &mut T)
        requires
            index < old(self)@.len(),
        ensures
            *entity == old(self)@[index as int],
            final(self)@ == old(self)@.update(index as int, *final(entity)),
    {
        &mut self.items[index]
    }

    /// All entities, in their order.
    pub fn list(&self) -> (items: &Vec<T>)
        ensures
            items@ == self@,
    {
        &self.items
    }

    /// Adds `entity` behind all others and returns its position. The edit
    /// is `Inserted` at that position; no position of another entity changes.
    pub fn append(&mut self, entity: T) -> (index: usize)
        ensures
            index == old(self)@.len(),
            final(self)@ == old(self)@.push(entity),
            ListEdit::Inserted(index).turns(old(self)@, final(self)@),
    {
        let index: usize = self.items.len();
        self.items.push(entity);
        proof {
            assert(self.items@.remove(index as int) =~= old(self).items@);
        }
        index
    }

    /// Removes the entity at `index` and returns it. The entities behind it
    /// move down by one. The edit is `Removed` at `index`.
    pub fn remove_at(&mut self, index: usize) -> (result: Result<T, StateError>)
        ensures
            index < old(self)@.len() ==> {
                &&& result == Ok::<T, StateError>(old(self)@[index as int])
                &&& final(self)@ == old(self)@.remove(index as int)
                &&& ListEdit::Removed(index).turns(old(self)@, final(self)@)
            },
            index >= old(self)@.len() ==> {
                &&& result == Err::<T, StateError>(StateError::OutOfRange)
                &&& *final(self) == *old(self)
            },
    {
        if index >= self.items.len() {
            return Err(StateError::OutOfRange);
        }
        let entity = self.items.remove(index);
        Ok(entity)
    }

    /// Whether the entity at `index` of `len` entities can move by `delta`.
    pub open spec fn can_move(len: nat, index: usize, delta: i32) -> bool {
        index < len && 0 <= index + delta < len
    }

    /// Whether the entity at `index` can move by `delta`.
    pub fn movable(&self, index: usize, delta: i32) -> (movable: bool)
        ensures
            movable == Self::can_move(self@.len(), index, delta),
    {
        let len: usize = self.items.len();
        if index >= len {
            false
        } else if delta >= 0 {
            let step: usize = delta as usize;
            step < len - index
        } else {
            let step: usize = (-(delta as i64)) as usize;
            step <= index
        }
    }

    /// Moves the entity at `index` by `delta` positions, towards the end if
    /// `delta` is positive, and returns its new position. The entities that
    /// it passes move by one the other way. The move is refused, not
    /// shortened, if it would leave the collection. The edit is `Moved` from
    /// `index` to the new position.
    pub fn move_by(&mut self, index: usize, delta: i32) -> (result: Result<usize, StateError>)
        ensures
            Self::can_move(old(self)@.len(), index, delta) ==> {
                &&& result matches Ok(new_index)
                &&& new_index == index + delta
                &&& final(self)@ == moved(old(self)@, index as int, index + delta)
                &&& ListEdit::Moved(index, new_index).turns(old(self)@, final(self)@)
            },
            !Self::can_move(old(self)@.len(), index, delta) ==> {
                &&& result == Err::<usize, StateError>(StateError::OutOfRange)
                &&& *final(self) == *old(self)
            },
    {
        if !self.movable(index, delta) {
            return Err(StateError::OutOfRange);
        }
        proof {
            self.lemma_len_fits();
        }
        let new_index: usize = if delta >= 0 {
            index + delta as usize
        } else {
            index - (-(delta as i64)) as usize
        };
        let entity = self.items.remove(index);
        self.items.insert(new_index, entity);
        Ok(new_index)
    }

    /// Puts `entity` in the place of the one at `index`. No position
    /// changes, so there is no edit to tell anyone of.
    pub fn replace_at(&mut self, index: usize, entity: T) -> (result: Result<(), StateError>)
        ensures
            index < old(self)@.len() ==> {
                &&& result == Ok::<(), StateError>(())
                &&& final(self)@ == old(self)@.update(index as int, entity)
            },
            index >= old(self)@.len() ==> {
                &&& result == Err::<(), StateError>(StateError::OutOfRange)
                &&& *final(self) == *old(self)
            },
    {
        if index >= self.items.len() {
            return Err(StateError::OutOfRange);
        }
        self.items[index] = entity;
        Ok(())
    }
}

impl<T> Default for EntityStore<T> {
    fn default() -> (store: Self)
        ensures
            store@ == Seq::<T>::empty(),
    {
        EntityStore::new()
    }
}

} // verus!
