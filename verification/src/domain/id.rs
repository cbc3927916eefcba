use vstd::prelude::*;

verus! {

/// A database identifier that is never zero, as produced by serial columns.
#[derive(Debug, Clone, Copy, PartialEq, Eq, Structural)]
pub struct NonZeroId {
    value: i32,
}

impl View for NonZeroId {
    type V = i32;

    closed spec fn view(&self) -> i32 {
        self.value
    }
}

impl NonZeroId {
    #[verifier::type_invariant]
    spec fn is_nonzero(self) -> bool {
        self.value != 0
    }

    /// The identifier whose integer is `value` (meaningful where `value` is not zero).
    pub closed spec fn from_value(value: i32) -> NonZeroId {
        NonZeroId { value }
    }

    pub broadcast proof fn lemma_from_value_view(value: i32)
        ensures
            (#[trigger] NonZeroId::from_value(value))@ == value,
    {
    }

    pub broadcast proof fn lemma_from_view(id: NonZeroId)
        ensures
            #[trigger] NonZeroId::from_value(id@) == id,
    {
    }

    /// Builds an identifier from `value`; there is none for zero.
    pub fn new(value: i32) -> (id: Option<NonZeroId>)
        ensures
            id is Some <==> value != 0,
            id matches Some(id) ==> id@ == value && id == NonZeroId::from_value(value),
    {
        if value == 0 {
            None
        } else {
            Some(NonZeroId { value })
        }
    }

    /// The identifier as an integer.
    pub fn get(&self) -> (value: i32)
        ensures
            value == self@,
            value != 0,
    {
        proof { use_type_invariant(self); }
        self.value
    }

    /// Two identifiers with the same integer are the same identifier.
    pub proof fn lemma_view_injective(a: NonZeroId, b: NonZeroId)
        requires
            a@ == b@,
        ensures
            a == b,
    {
    }
}

/// An identifier of an entity, wrapping the value that the entity is found by.
#[derive(Debug, Clone, Copy, PartialEq, Eq)]
pub struct Id<V> {
    pub value: V,
}

impl<V> Id<V> {
    pub fn new(value: V) -> (id: Id<V>)
        ensures
            id.value == value,
    {
        Id { value }
    }
}

} // verus!
