use vstd::prelude::*;
use super::id::Id;

verus! {

#[derive(Debug, Clone, Copy, PartialEq, Eq, Structural)]
pub enum Qualification {
    Bachelor,
    Master,
    Postgraduate,
    Doctorate,
}

#[derive(Debug, Clone, Copy, PartialEq, Eq, Structural)]
pub enum TrainingKind {
    FullTime,
    Correspondence,
}

#[derive(Debug, Clone, PartialEq, Eq)]
pub struct Entity {
    pub id: Id<i32>,
    pub name: String,
    pub studying_qualification: Qualification,
    pub training_kind: TrainingKind,
    pub department_id: Id<i32>,
    /// The curricula that the group studies by.
    pub curriculums: Vec<Id<i32>>,
}

} // verus!
