use vstd::prelude::*;
use super::id::Id;

verus! {

#[derive(Debug, Clone, PartialEq, Eq)]
pub struct Entity {
    pub id: Id<i32>,
    pub name: String,
    pub department_id: Id<i32>,
}

} // verus!
