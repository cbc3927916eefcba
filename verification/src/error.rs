//! The ways a database record can fail to become an entity.

use vstd::prelude::*;

verus! {

/// Which identifier column held zero.
#[derive(Debug, Clone, Copy, PartialEq, Eq, Structural)]
pub enum IdColumn {
    /// The `id` of a person record of the person repository.
    PersonRecord,
    Person,
    Subdivision,
    University,
    Tag,
}

/// A record that does not describe a valid entity.
#[derive(Debug, Clone, Copy, PartialEq, Eq, Structural)]
pub enum ModelError {
    /// An identifier column held zero.
    ZeroId(IdColumn),
    /// A row count does not fit in `usize`.
    CountOutOfRange,
    /// An expiry moment does not fit in a signed 64-bit column.
    SecondsOutOfRange,
    /// An expiry column held a negative number of seconds.
    NegativeSeconds,
    /// An expiry moment does not fit in a signed 64-bit query parameter.
    ExpiryOutOfRange,
}

pub open spec fn model_error_message(e: ModelError) -> Seq<char> {
    match e {
        ModelError::ZeroId(IdColumn::PersonRecord) => "PgPerson 'id' must be non zero i32"@,
        ModelError::ZeroId(IdColumn::Person) => "person 'id' must be non zero i32"@,
        ModelError::ZeroId(IdColumn::Subdivision) => "subdivision 'id' must be non zero i32"@,
        ModelError::ZeroId(IdColumn::University) => "university 'id' must be non zero i32"@,
        ModelError::ZeroId(IdColumn::Tag) => "tag 'id' must be non zero i32"@,
        ModelError::CountOutOfRange => "failed to convert i64 into usize"@,
        ModelError::SecondsOutOfRange => "failed to convert seconds to i64"@,
        ModelError::NegativeSeconds => "failed to convert i64 to seconds"@,
        ModelError::ExpiryOutOfRange => "failed to convert u64 to i64"@,
    }
}

impl ModelError {
    /// The text that describes the failure.
    pub fn message(&self) -> (text: &'static str)
        ensures
            text@ == model_error_message(*self),
    {
        match self {
            ModelError::ZeroId(IdColumn::PersonRecord) => {
                proof { reveal_strlit("PgPerson 'id' must be non zero i32"); }
                "PgPerson 'id' must be non zero i32"
            },
            ModelError::ZeroId(IdColumn::Person) => {
                proof { reveal_strlit("person 'id' must be non zero i32"); }
                "person 'id' must be non zero i32"
            },
            ModelError::ZeroId(IdColumn::Subdivision) => {
                proof { reveal_strlit("subdivision 'id' must be non zero i32"); }
                "subdivision 'id' must be non zero i32"
            },
            ModelError::ZeroId(IdColumn::University) => {
                proof { reveal_strlit("university 'id' must be non zero i32"); }
                "university 'id' must be non zero i32"
            },
            ModelError::ZeroId(IdColumn::Tag) => {
                proof { reveal_strlit("tag 'id' must be non zero i32"); }
                "tag 'id' must be non zero i32"
            },
            ModelError::CountOutOfRange => {
                proof { reveal_strlit("failed to convert i64 into usize"); }
                "failed to convert i64 into usize"
            },
            ModelError::SecondsOutOfRange => {
                proof { reveal_strlit("failed to convert seconds to i64"); }
                "failed to convert seconds to i64"
            },
            ModelError::NegativeSeconds => {
                proof { reveal_strlit("failed to convert i64 to seconds"); }
                "failed to convert i64 to seconds"
            },
            ModelError::ExpiryOutOfRange => {
                proof { reveal_strlit("failed to convert u64 to i64"); }
                "failed to convert u64 to i64"
            },
        }
    }
}

} // verus!
