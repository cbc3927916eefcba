use vstd::prelude::*;
use super::id::Id;

verus! {

#[verifier::external_type_specification]
#[verifier::external_body]
pub struct ExDate(time::Date);

#[derive(Debug, Clone, Copy, PartialEq, Eq, Structural)]
pub enum Gender {
    Male,
    Female,
}

/// An identity document of a person.
#[derive(Debug, PartialEq, Eq)]
pub struct Entity {
    pub id: Id<i32>,
    pub person_id: Id<i32>,
    pub first_name: String,
    pub last_name: String,
    pub patronymic: String,
    pub date_of_birth: time::Date,
    pub date_of_issue: time::Date,
    pub number: u32,
    pub series: u32,
    pub gender: Gender,
}

} // verus!
