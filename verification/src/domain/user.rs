use vstd::prelude::*;
use super::id::Id;

verus! {

#[derive(Debug, Clone, PartialEq, Eq)]
pub struct HashedPassword {
    pub value: String,
}

#[derive(Debug, Clone, PartialEq, Eq)]
pub struct Entity {
    pub id: Id<i32>,
    pub email: String,
    pub password: HashedPassword,
}

} // verus!
