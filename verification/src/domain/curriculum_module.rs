use vstd::prelude::*;
use super::id::Id;

verus! {

/// A discipline taught in one semester of a curriculum.
#[derive(Debug, Clone, PartialEq, Eq)]
pub struct Entity {
    pub id: Id<i32>,
    pub discipline_id: Id<i32>,
    pub curriculum_id: Id<i32>,
    pub semester: i32,
}

} // verus!
