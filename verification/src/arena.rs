//! Generational arena: stable keys for values whose slots are reused.
//!
//! Values live in dense storage and are reached through a table of slots.
//! A slot remembers its generation; removing a value advances the generation
//! of its slot, so that a key handed out earlier for that slot stops
//! resolving, whatever is stored there afterwards.
//!
//! An arena is of a kind, a number that is part of its type and of each of
//! its keys: a key of an arena of another kind resolves to nothing.

use vstd::prelude::*;

verus! {

/// Key that indexes into an `Arena`: the kind of the arena, a slot index
/// and the generation that the slot had when the key was handed out.
///
/// A key is meant for the arena that produced it. In an arena of another
/// kind it resolves to nothing; arenas of the same kind cannot tell their
/// keys apart.
#[derive(Copy, Clone, Debug, PartialEq, Eq, Hash, Structural)]
pub struct ArenaKey {
    kind: u16,
    index: usize,
    generation: u64,
}

impl ArenaKey {
    /// The key that no arena ever hands out: its generation is zero.
    pub fn null() -> (key: ArenaKey)
        ensures
            key.is_null(),
            key.slot_index() == 0,
            key.arena_kind() == 0,
    {
        ArenaKey { kind: 0, index: 0, generation: 0 }
    }

    /// The kind of the arenas that the key is for.
    pub closed spec fn arena_kind(self) -> u16 {
        self.kind
    }

    /// Index of the slot that the key names.
    pub closed spec fn slot_index(self) -> nat {
        self.index as nat
    }

    /// Generation of the slot at the time the key was handed out.
    pub closed spec fn slot_generation(self) -> nat {
        self.generation as nat
    }

    /// True of the keys that no arena hands out.
    pub open spec fn is_null(self) -> bool {
        self.slot_generation() == 0
    }

    /// The kind of the arenas that the key is for.
    pub fn kind(&self) -> (kind: u16)
        ensures
            kind == self.arena_kind(),
    {
        self.kind
    }

    /// The slot index of the key.
    pub fn index(&self) -> (index: usize)
        ensures
            index == self.slot_index(),
    {
        self.index
    }

    /// The generation of the key.
    pub fn generation(&self) -> (generation: u64)
        ensures
            generation == self.slot_generation(),
    {
        self.generation
    }
}

impl Default for ArenaKey {
    fn default() -> (key: ArenaKey)
        ensures
            key.is_null(),
            key.slot_index() == 0,
            key.arena_kind() == 0,
    {
        ArenaKey::null()
    }
}

/// What an arena is, as far as its callers can tell: its kind, the values
/// that keys resolve to, and the keys that were removed and will never
/// resolve again.
pub ghost struct ArenaState<T> {
    pub kind: u16,
    pub live: Map<ArenaKey, T>,
    pub retired: Set<ArenaKey>,
}

impl<T> ArenaState<T> {
    /// No key is live and retired at once, the null keys are neither, and
    /// only keys of the kind of the arena are either.
    pub open spec fn consistent(self) -> bool {
        &&& forall|k: ArenaKey|
            self.live.contains_key(k) || self.retired.contains(k) ==> k.arena_kind() == self.kind
        &&& forall|k: ArenaKey| self.retired.contains(k) ==> !self.live.contains_key(k)
        &&& forall|k: ArenaKey| k.is_null() ==> !self.live.contains_key(k) && !self.retired.contains(k)
    }

    /// `post` is `self` after an insertion of `val` that handed out `key`:
    /// a key that was never handed out before, and of a later generation
    /// than every key that was retired from its slot.
    pub open spec fn inserted(self, val: T, key: ArenaKey, post: ArenaState<T>) -> bool {
        &&& !key.is_null()
        &&& key.arena_kind() == self.kind
        &&& !self.live.contains_key(key)
        &&& !self.retired.contains(key)
        &&& forall|k0: ArenaKey|
            self.retired.contains(k0) && k0.slot_index() == key.slot_index()
                ==> k0.slot_generation() < key.slot_generation()
        &&& post.kind == self.kind
        &&& post.live == self.live.insert(key, val)
        &&& post.retired == self.retired
    }

    /// `post` is `self` after a removal at `key` that returned `removed`.
    pub open spec fn removed(self, key: ArenaKey, removed: Option<T>, post: ArenaState<T>) -> bool {
        if self.live.contains_key(key) {
            &&& removed == Some(self.live[key])
            &&& post.kind == self.kind
            &&& post.live == self.live.remove(key)
            &&& post.retired == self.retired.insert(key)
        } else {
            &&& removed is None
            &&& post == self
        }
    }

    /// `post` is `self` after the value at the live key `key` was replaced by `val`.
    pub open spec fn replaced(self, key: ArenaKey, val: T, post: ArenaState<T>) -> bool {
        &&& self.live.contains_key(key)
        &&& post.kind == self.kind
        &&& post.live == self.live.insert(key, val)
        &&& post.retired == self.retired
    }

    /// `post` comes from `self` by one operation of the arena.
    pub open spec fn step(self, post: ArenaState<T>) -> bool {
        ||| exists|val: T, key: ArenaKey| self.inserted(val, key, post)
        ||| exists|key: ArenaKey, removed: Option<T>| self.removed(key, removed, post)
        ||| exists|key: ArenaKey, val: T| self.replaced(key, val, post)
    }

    /// `states` is a run of the arena: each state comes from the one before
    /// it by one operation.
    pub open spec fn history(states: Seq<ArenaState<T>>) -> bool {
        &&& states.len() > 0
        &&& states[0].consistent()
        &&& forall|i: int| 0 <= i < states.len() - 1 ==> (#[trigger] states[i]).step(states[i + 1])
    }

    /// One operation keeps a consistent state consistent and retires keys
    /// for good.
    pub proof fn lemma_step_keeps_retired(self, post: ArenaState<T>)
        requires
            self.consistent(),
            self.step(post),
        ensures
            post.consistent(),
            self.retired.subset_of(post.retired),
    {
    }

    /// Generation monotonicity: in every run of insertions, removals and
    /// replacements, a key that is retired at some point resolves to nothing
    /// at every later point, whatever was inserted in between.
    pub proof fn lemma_retired_key_never_resolves(
        states: Seq<ArenaState<T>>,
        i: int,
        j: int,
        key: ArenaKey,
    )
        requires
            Self::history(states),
            0 <= i <= j < states.len(),
            states[i].retired.contains(key),
        ensures
            states[j].consistent(),
            states[j].retired.contains(key),
            !states[j].live.contains_key(key),
        decreases j,
    {
        Self::lemma_history_consistent(states, j);
        if i < j {
            Self::lemma_retired_key_never_resolves(states, i, j - 1, key);
            states[j - 1].lemma_step_keeps_retired(states[j]);
        }
    }

    /// Every state of a run is consistent.
    pub proof fn lemma_history_consistent(states: Seq<ArenaState<T>>, j: int)
        requires
            Self::history(states),
            0 <= j < states.len(),
        ensures
            states[j].consistent(),
        decreases j,
    {
        if j > 0 {
            Self::lemma_history_consistent(states, j - 1);
            states[j - 1].lemma_step_keeps_retired(states[j]);
        }
    }

    /// A key whose value was removed at some point of a run resolves to
    /// nothing from then on: no later insertion brings it back.
    pub proof fn lemma_removed_key_never_resolves(
        states: Seq<ArenaState<T>>,
        i: int,
        j: int,
        key: ArenaKey,
        removed: T,
    )
        requires
            Self::history(states),
            0 <= i < j < states.len(),
            states[i].removed(key, Some(removed), states[i + 1]),
        ensures
            !states[j].live.contains_key(key),
    {
        Self::lemma_retired_key_never_resolves(states, i + 1, j, key);
    }
}

#[derive(Copy, Clone)]
struct Slot {
    generation: u64,
    occupied: bool,
    position: usize,
}

/// Generational arena of the kind `KIND`. `ArenaKey` indexes into it.
///
/// Insertion, removal and lookup take constant time; the values are kept
/// next to each other.
pub struct Arena<T, const KIND: u16> {
    slots: Vec<Slot>,
    free: Vec<usize>,
    values: Vec<T>,
    owners: Vec<usize>,
}

impl<T, const KIND: u16> Arena<T, KIND> {
    #[verifier::type_invariant]
    spec fn inv(self) -> bool {
        self.well_formed()
    }

    spec fn well_formed(self) -> bool {
        &&& self.owners.len() == self.values.len()
        &&& forall|i: int|
            0 <= i < self.owners.len() ==> {
                &&& (#[trigger] self.owners[i]) < self.slots.len()
                &&& self.slots[self.owners[i] as int].occupied
                &&& self.slots[self.owners[i] as int].position == i
            }
        &&& forall|s: int|
            0 <= s < self.slots.len() ==> 0 < (#[trigger] self.slots[s]).generation
        &&& forall|s: int|
            0 <= s < self.slots.len() && (#[trigger] self.slots[s]).occupied ==> {
                &&& self.slots[s].position < self.values.len()
                &&& self.owners[self.slots[s].position as int] == s
                &&& self.slots[s].generation < u64::MAX
            }
        &&& forall|j: int|
            0 <= j < self.free.len() ==> {
                &&& (#[trigger] self.free[j]) < self.slots.len()
                &&& !self.slots[self.free[j] as int].occupied
                &&& self.slots[self.free[j] as int].generation < u64::MAX
            }
        &&& forall|j: int, k: int|
            0 <= j < k < self.free.len() ==> #[trigger] self.free[j] != #[trigger] self.free[k]
    }

    /// The key `k` resolves to a value.
    pub closed spec fn live(&self, k: ArenaKey) -> bool {
        &&& k.kind == KIND
        &&& k.index < self.slots.len()
        &&& self.slots[k.index as int].occupied
        &&& self.slots[k.index as int].generation == k.generation
    }

    /// The key `k` was handed out once and its value has been removed since.
    pub closed spec fn retired(&self, k: ArenaKey) -> bool {
        &&& k.kind == KIND
        &&& k.index < self.slots.len()
        &&& 0 < k.generation
        &&& k.generation < self.slots[k.index as int].generation
    }

    /// The values of the arena by their keys.
    pub closed spec fn view(&self) -> Map<ArenaKey, T> {
        Map::new(
            |k: ArenaKey| self.live(k),
            |k: ArenaKey| self.values[self.slots[k.index as int].position as int],
        )
    }

    /// The values of the arena by their keys, with the keys that are used up.
    pub open spec fn state(&self) -> ArenaState<T> {
        ArenaState { kind: KIND, live: self@, retired: Set::new(|k: ArenaKey| self.retired(k)) }
    }

    /// Returns a new, empty `Arena`.
    pub fn new() -> (arena: Self)
        ensures
            arena.state() == (ArenaState {
                kind: KIND,
                live: Map::<ArenaKey, T>::empty(),
                retired: Set::<ArenaKey>::empty(),
            }),
            arena.state().consistent(),
    {
        let arena = Arena {
            slots: Vec::new(),
            free: Vec::new(),
            values: Vec::new(),
            owners: Vec::new(),
        };
        assert(arena@ =~= Map::<ArenaKey, T>::empty());
        assert(arena.state().retired =~= Set::<ArenaKey>::empty());
        arena
    }

    /// Inserts `val`, returns the corresponding `ArenaKey`: one that was
    /// never handed out before.
    pub fn insert(&mut self, val: T) -> (key: ArenaKey)
        ensures
            old(self).state().inserted(val, key, final(self).state()),
            final(self).state().consistent(),
    {
        proof {
            use_type_invariant(&*self);
        }
        let ghost pre = *self;
        let mut taken = Arena {
            slots: Vec::new(),
            free: Vec::new(),
            values: Vec::new(),
            owners: Vec::new(),
        };
        core::mem::swap(self, &mut taken);
        let Arena { mut slots, mut free, mut values, mut owners } = taken;
        let position = values.len();
        let key = if free.len() > 0 {
            let index = free.pop().unwrap();
            let generation = slots[index].generation;
            slots[index] = Slot { generation, occupied: true, position };
            ArenaKey { kind: KIND, index, generation }
        } else {
            let index = slots.len();
            slots.push(Slot { generation: 1, occupied: true, position });
            ArenaKey { kind: KIND, index, generation: 1 }
        };
        values.push(val);
        owners.push(key.index);
        let arena = Arena { slots, free, values, owners };
        proof {
            assert(arena@ =~= pre@.insert(key, val));
            assert(arena.state().retired =~= pre.state().retired);
        }
        *self = arena;
        key
    }

    /// Removes the value at `key`, returning `Some(T)` if it exists and `None`
    /// if there was no value for the key. The key resolves to nothing from
    /// then on: the slot goes on to its next generation, and a slot whose
    /// generations are used up is not used again.
    pub fn remove(&mut self, key: ArenaKey) -> (removed: Option<T>)
        ensures
            old(self).state().removed(key, removed, final(self).state()),
            final(self).state().consistent(),
    {
        proof {
            use_type_invariant(&*self);
        }
        if key.kind != KIND || key.index >= self.slots.len() {
            return None;
        }
        let slot = self.slots[key.index];
        if !slot.occupied || slot.generation != key.generation {
            return None;
        }
        let ghost pre = *self;
        let mut taken = Arena {
            slots: Vec::new(),
            free: Vec::new(),
            values: Vec::new(),
            owners: Vec::new(),
        };
        core::mem::swap(self, &mut taken);
        let Arena { mut slots, mut free, mut values, mut owners } = taken;
        let position = slot.position;
        let value = values.swap_remove(position);
        let _ = owners.swap_remove(position);
        if position < values.len() {
            let moved = owners[position];
            let moved_slot = slots[moved];
            slots[moved] = Slot {
                generation: moved_slot.generation,
                occupied: true,
                position,
            };
        }
        let generation = slot.generation + 1;
        slots[key.index] = Slot { generation, occupied: false, position: 0 };
        if generation < u64::MAX {
            free.push(key.index);
        }
        let arena = Arena { slots, free, values, owners };
        proof {
            assert(arena@ =~= pre@.remove(key));
            assert(arena.state().retired =~= pre.state().retired.insert(key));
        }
        *self = arena;
        Some(value)
    }

    /// Gets the value at `key`, returning `Some(&T)` if it exists and `None`
    /// if it doesn't exist.
    pub fn get(&self, key: ArenaKey) -> (value: Option<&T>)
        ensures
            value == if self@.contains_key(key) {
                Some(&self@[key])
            } else {
                None
            },
            self.state().retired.contains(key) ==> value is None,
            key.arena_kind() != KIND ==> value is None,
    {
        proof {
            use_type_invariant(self);
        }
        if key.kind == KIND && key.index < self.slots.len() {
            let slot = &self.slots[key.index];
            if slot.occupied && slot.generation == key.generation {
                return Some(&self.values[slot.position]);
            }
        }
        None
    }

    /// Determines whether the arena has a value corresponding to `key`.
    pub fn has_key(&self, key: ArenaKey) -> (found: bool)
        ensures
            found == self@.contains_key(key),
            key.arena_kind() != KIND ==> !found,
    {
        if key.kind == KIND && key.index < self.slots.len() {
            let slot = &self.slots[key.index];
            slot.occupied && slot.generation == key.generation
        } else {
            false
        }
    }

    /// Gets the value at `key`, returning `Some(&mut T)` if it exists and
    /// `None` if it doesn't exist. Whatever the caller writes through the
    /// reference is the value at `key` afterwards; nothing else changes.
    pub fn get_mut(&mut self, key: ArenaKey) -> (value: Option<&mut T>)
        ensures
            match value {
                Some(r) => {
                    &&& old(self)@.contains_key(key)
                    &&& *r == old(self)@[key]
                    &&& old(self).state().replaced(key, *final(r), final(self).state())
                },
                None => !old(self)@.contains_key(key) && final(self).state() == old(self).state(),
            },
    {
        proof {
            use_type_invariant(&*self);
        }
        if key.kind == KIND && key.index < self.slots.len() {
            let slot = self.slots[key.index];
            if slot.occupied && slot.generation == key.generation {
                let position = slot.position;
                proof {
                    let pre = *self;
                    assert forall|post: Arena<T, KIND>|
                        post.slots == pre.slots && post.free == pre.free && post.owners == pre.owners
                            && #[trigger] post.values@ == pre.values@.update(
                            position as int,
                            post.values@[position as int],
                        ) implies pre.state().replaced(
                        key,
                        post.values@[position as int],
                        post.state(),
                    ) by {
                        assert(post@ =~= pre@.insert(key, post.values@[position as int]));
                        assert(post.state().retired =~= pre.state().retired);
                    }
                }
                let r = &mut self.values[position];
                return Some(r);
            }
        }
        None
    }

    /// Same as `get()`, for a key that is known to be in the arena.
    pub fn get_unwrap(&self, key: ArenaKey) -> (value: &T)
        requires
            self@.contains_key(key),
        ensures
            *value == self@[key],
    {
        proof {
            use_type_invariant(self);
        }
        &self.values[self.slots[key.index].position]
    }

    /// Same as `get_mut()`, for a key that is known to be in the arena.
    pub fn get_mut_unwrap(&mut self, key: ArenaKey) -> (value: &mut T)
        requires
            old(self)@.contains_key(key),
        ensures
            *value == old(self)@[key],
            old(self).state().replaced(key, *final(value), final(self).state()),
    {
        self.get_mut(key).unwrap()
    }
}

} // verus!
