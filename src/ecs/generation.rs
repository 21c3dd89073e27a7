use vstd::prelude::*;

verus! {

/// The generation of an entity slot. A positive value means the slot is
/// alive; a negative value `-g` means it died in generation `g`. Zero is
/// never a generation.
#[derive(Debug, Copy, Clone, PartialEq, Eq, Structural, Hash)]
pub struct Generation(i32);

impl View for Generation {
    type V = int;

    closed spec fn view(&self) -> int {
        self.0 as int
    }
}

impl Generation {
    /// A generation is determined by its value.
    pub proof fn lemma_same(a: Generation, b: Generation)
        requires
            a@ == b@,
        ensures
            a == b,
    {
    }

    #[verifier::type_invariant]
    spec fn non_zero(self) -> bool {
        self.0 != 0
    }

    /// The first generation of every slot.
    pub fn one() -> (r: Self)
        ensures
            r@ == 1,
    {
        Self(1)
    }

    /// Makes a generation from its value; zero is rejected.
    pub fn new(id: i32) -> (r: Result<Self, &'static str>)
        ensures
            id == 0 <==> r is Err,
            r matches Ok(g) ==> g@ == id,
    {
        if id == 0 {
            return Err("Generation ID must be non-zero");
        }
        Ok(Self(id))
    }

    /// The value of this generation.
    pub fn id(&self) -> (r: i32)
        ensures
            r == self@,
    {
        self.0
    }

    /// Whether the slot this generation belongs to is alive.
    pub fn is_alive(&self) -> (r: bool)
        ensures
            r == (self@ > 0),
    {
        self.id() > 0
    }

    /// The generation of a slot that dies in this generation.
    pub fn die(self) -> (r: Self)
        requires
            self@ > 0,
        ensures
            r@ == -self@,
    {
        proof {
            use_type_invariant(self);
        }
        Self(-self.id())
    }

    /// The generation that follows a dead one.
    pub fn raise(self) -> (r: Self)
        requires
            self@ < 0,
            self@ > i32::MIN + 1,
        ensures
            r@ == 1 - self@,
    {
        Self(1 - self.id())
    }
}

/// The generation recorded for a slot that may never have been allocated:
/// an absent generation reads as zero, a dead slot that never lived.
pub(crate) trait ZeroableGeneration: Sized {
    spec fn value(&self) -> int;

    fn id(&self) -> (r: i32)
        ensures
            r == self.value(),
    ;

    fn is_alive(&self) -> (r: bool)
        ensures
            r == (self.value() > 0),
    ;

    fn die(self) -> (r: Generation)
        requires
            self.value() > 0,
        ensures
            r@ == -self.value(),
    ;

    fn raise(self) -> (r: Generation)
        requires
            self.value() <= 0,
            self.value() > i32::MIN + 1,
        ensures
            r@ == 1 - self.value(),
    ;
}

impl ZeroableGeneration for Option<Generation> {
    open spec fn value(&self) -> int {
        match self {
            Some(g) => g@,
            None => 0,
        }
    }

    fn id(&self) -> (r: i32) {
        match self {
            Some(g) => g.id(),
            None => 0,
        }
    }

    fn is_alive(&self) -> (r: bool) {
        self.id() > 0
    }

    fn die(self) -> (r: Generation) {
        Generation(-self.id())
    }

    fn raise(self) -> (r: Generation) {
        Generation(1 - self.id())
    }
}

} // verus!
