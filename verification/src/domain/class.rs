use vstd::prelude::*;
use super::id::Id;

verus! {

/// A class (a lesson kind held within a curriculum module).
#[derive(Debug, Clone, PartialEq, Eq)]
pub struct Entity {
    pub id: Id<i32>,
    pub curriculum_module_id: Id<i32>,
    pub kind_name: Id<String>,
}

} // verus!
