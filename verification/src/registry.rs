//! The textures that can be bound for drawing, found by name.
//!
//! The registry keeps the names. A name's slot is its place in the order of
//! registration; whoever owns the graphics objects keeps them by slot.

use vstd::prelude::*;

verus! {

/// No name stands at two places of `names`.
pub open spec fn distinct_names(names: Seq<Seq<char>>) -> bool {
    forall|i: int, j: int| 0 <= i < j < names.len() ==> names[i] != names[j]
}

/// The names of `names`, by their views.
pub open spec fn name_views(names: Seq<String>) -> Seq<Seq<char>> {
    names.map_values(|s: String| s@)
}

/// The slot that `name` has after it was registered in `names`.
pub open spec fn slot_after_insert(names: Seq<Seq<char>>, name: Seq<char>) -> int {
    if names.contains(name) {
        names.index_of(name)
    } else {
        names.len() as int
    }
}

/// The names after `name` was registered in `names`.
pub open spec fn names_after_insert(names: Seq<Seq<char>>, name: Seq<char>) -> Seq<Seq<char>> {
    if names.contains(name) {
        names
    } else {
        names.push(name)
    }
}

/// A registry of bindable textures.
pub struct TextureRegistry {
    names: Vec<String>,
}

impl View for TextureRegistry {
    type V = Seq<Seq<char>>;

    closed spec fn view(&self) -> Seq<Seq<char>> {
        name_views(self.names@)
    }
}

impl TextureRegistry {
    /// Every name is registered once. This holds of every registry that exists.
    #[verifier::type_invariant]
    spec fn well_formed(&self) -> bool {
        distinct_names(name_views(self.names@))
    }

    /// Every name is registered once.
    pub open spec fn wf(&self) -> bool {
        distinct_names(self@)
    }

    /// Whether `name` is registered.
    pub open spec fn has(&self, name: Seq<char>) -> bool {
        self@.contains(name)
    }

    /// A registry without textures.
    pub fn new() -> (registry: Self)
        ensures
            registry@ == Seq::<Seq<char>>::empty(),
            registry.wf(),
    {
        let registry = TextureRegistry { names: Vec::new() };
        assert(registry@ =~= Seq::<Seq<char>>::empty());
        registry
    }

    /// A registry holds no more names than can be counted.
    pub proof fn lemma_len_fits(&self)
        ensures
            self@.len() <= usize::MAX,
    {
        assert(self.names.len() == self.names@.len());
    }

    /// Number of registered textures.
    pub fn len(&self) -> (n: usize)
        ensures
            n == self@.len(),
            self.wf(),
    {
        proof {
            use_type_invariant(self);
        }
        self.names.len()
    }

    /// The slot of `name`, if it is registered.
    pub fn lookup(&self, name: &String) -> (slot: Option<usize>)
        ensures
            self.wf(),
            slot is Some <==> self.has(name@),
            slot matches Some(i) ==> i == self@.index_of(name@) && i < self@.len() && self@[i as int]
                == name@,
    {
        proof {
            use_type_invariant(self);
        }
        let mut i: usize = 0;
        while i < self.names.len()
            invariant
                i <= self.names@.len(),
                self.wf(),
                forall|k: int| 0 <= k < i ==> self@[k] != name@,
            decreases self.names@.len() - i,
        {
            if self.names[i] == *name {
                proof {
                    // The first place of a name is its only place.
                    let first = self@.index_of(name@);
                    assert(self@[i as int] == name@);
                    assert(self@[first] == name@);
                    if first < i {
                        assert(self@[first] != self@[i as int]);
                    } else if i < first {
                        assert(self@[i as int] != self@[first]);
                    }
                }
                return Some(i);
            }
            i += 1;
        }
        None
    }

    /// Registers `name`. A name that is registered keeps its slot, and
    /// whatever is newly bound under it takes the place of the old binding;
    /// a new name gets the next slot. Returns the slot.
    pub fn insert(&mut self, name: String) -> (slot: usize)
        ensures
            old(self).wf(),
            final(self).wf(),
            final(self)@ == names_after_insert(old(self)@, name@),
            slot == slot_after_insert(old(self)@, name@),
            slot < final(self)@.len(),
            final(self)@[slot as int] == name@,
    {
        match self.lookup(&name) {
            Some(slot) => slot,
            None => {
                let ghost before = self@;
                let mut names: Vec<String> = Vec::new();
                std::mem::swap(&mut self.names, &mut names);
                let slot = names.len();
                names.push(name);
                assert(name_views(names@) =~= before.push(name@));
                self.names = names;
                slot
            },
        }
    }
}

/// Registering a name makes it findable and keeps every other name where it was.
pub proof fn lemma_insert_keeps_names(names: Seq<Seq<char>>, name: Seq<char>, other: Seq<char>)
    requires
        distinct_names(names),
    ensures
        names_after_insert(names, name).contains(name),
        names.contains(other) ==> names_after_insert(names, name).contains(other),
        names.contains(other) ==> names_after_insert(names, name).index_of(other)
            == names.index_of(other),
        distinct_names(names_after_insert(names, name)),
{
    let after = names_after_insert(names, name);
    if !names.contains(name) {
        assert(after[names.len() as int] == name);
    }
    if names.contains(other) {
        let i = names.index_of(other);
        assert(after[i] == other);
        let j = after.index_of(other);
        assert(after[j] == other);
        if j != i {
            if i < j {
                assert(after[i] != after[j]);
            } else {
                assert(after[j] != after[i]);
            }
        }
    }
}

/// Registering the same name twice changes nothing the second time.
pub proof fn lemma_insert_twice(names: Seq<Seq<char>>, name: Seq<char>)
    ensures
        names_after_insert(names_after_insert(names, name), name) == names_after_insert(
            names,
            name,
        ),
{
    let after = names_after_insert(names, name);
    if !names.contains(name) {
        assert(after[names.len() as int] == name);
    }
}

} // verus!
