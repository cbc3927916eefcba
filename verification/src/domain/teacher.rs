use vstd::prelude::*;
use super::id::Id;

verus! {

#[derive(Debug, Clone, Copy, PartialEq, Eq, Structural)]
pub enum TeacherKind {
    Assistant,
    RegularTeacher,
    SeniorTeacher,
    AssociateProfessor,
    Professor,
}

/// A class that a teacher holds for a study group.
#[derive(Debug, Clone, PartialEq, Eq)]
pub struct TeacherClass {
    pub study_group_id: Id<i32>,
    pub class_id: Id<i32>,
}

#[derive(Debug, Clone, PartialEq, Eq)]
pub struct Entity {
    pub id: Id<i32>,
    pub person_id: Id<i32>,
    pub kind: TeacherKind,
    pub department_id: Id<i32>,
    /// The classes held, each once.
    pub classes: Vec<TeacherClass>,
}

} // verus!
