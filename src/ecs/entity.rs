use vstd::prelude::*;

use crate::ecs::Generation;

verus! {

/// A handle on an entity: the generation it was allocated in and the id of
/// its slot. A handle whose generation no longer matches its slot refers to
/// an entity that has died.
#[derive(Debug, Copy, Clone, PartialEq, Eq, Structural, Hash)]
pub struct Entity(Generation, i32);

impl Entity {
    /// The generation this handle was allocated in.
    pub closed spec fn spec_generation(self) -> Generation {
        self.0
    }

    /// The id of this handle's slot.
    pub closed spec fn slot(self) -> int {
        self.1 as int
    }

    /// A handle is determined by its generation's value and its slot.
    pub proof fn lemma_same(a: Entity, b: Entity)
        requires
            a.spec_generation()@ == b.spec_generation()@,
            a.slot() == b.slot(),
        ensures
            a == b,
    {
        Generation::lemma_same(a.0, b.0);
    }

    /// A handle on slot `id` in `generation`.
    pub(crate) fn new(generation: Generation, id: i32) -> (r: Self)
        ensures
            r.spec_generation() == generation,
            r.slot() == id,
    {
        Self(generation, id)
    }

    /// The generation this handle was allocated in.
    pub fn generation(&self) -> (r: Generation)
        ensures
            r == self.spec_generation(),
    {
        self.0
    }

    /// The id of this handle's slot.
    pub fn id(&self) -> (r: i32)
        ensures
            r == self.slot(),
    {
        self.1
    }
}

} // verus!
