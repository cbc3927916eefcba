use vstd::prelude::*;
use super::id::Id;

verus! {

/// A university, known by its identifier.
#[derive(Debug, Clone, PartialEq, Eq)]
pub struct Entity {
    pub id: Id<i32>,
    pub name: String,
}

} // verus!
