use vstd::prelude::*;
use super::id::Id;

verus! {

/// A kind of class, known by its name.
#[derive(Debug, Clone, PartialEq, Eq)]
pub struct Entity {
    pub name: Id<String>,
}

} // verus!
