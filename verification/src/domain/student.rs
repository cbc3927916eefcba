use vstd::prelude::*;
use super::id::Id;

verus! {

/// A score that a student got in an attestation.
#[derive(Debug, Clone, Copy, PartialEq, Eq)]
pub struct StudentAttestation {
    pub attestation_id: Id<i32>,
    pub score: i32,
}

/// A student: a person studying in a study group, with the scores they got.
#[derive(Debug, Clone, PartialEq, Eq)]
pub struct Entity {
    pub id: Id<i32>,
    pub person_id: Id<i32>,
    pub study_group_id: Id<i32>,
    /// The scores of the student, each once.
    pub attestations: Vec<StudentAttestation>,
}

} // verus!
