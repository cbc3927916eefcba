use vstd::prelude::*;
use super::id::Id;

verus! {

/// How long an attestation lasts, as the repository stores it.
#[derive(Debug, Clone, Copy, PartialEq, Eq, Structural)]
pub struct Duration(pub i32);

/// An attestation of a curriculum module, with the teachers who examine it.
#[derive(Debug, Clone, PartialEq, Eq)]
pub struct Entity {
    pub id: Id<i32>,
    pub curriculum_module_id: Id<i32>,
    /// The kind of the attestation, as the text it is stored under.
    pub kind: String,
    pub duration: Duration,
    /// The identifiers of the examining teachers, each once.
    pub examiners: Vec<Id<i32>>,
}

} // verus!
