//! The person record of the person repository.

use vstd::prelude::*;
use crate::adapters::IntoEntity;
use crate::domain::id::NonZeroId;
use crate::domain::legacy::Person;
use crate::error::{IdColumn, ModelError};

verus! {

broadcast use crate::domain::id::NonZeroId::lemma_from_value_view;

/// A row of the `persons` table.
#[derive(Debug, Clone, Copy, PartialEq, Eq, Structural)]
pub struct PgPerson {
    pub id: i32,
}

impl IntoEntity<Person> for PgPerson {
    open spec fn convertible(self) -> bool {
        true
    }

    fn is_convertible(&self) -> (convertible: bool) {
        true
    }

    open spec fn entity(self) -> Result<Person, ModelError> {
        if self.id == 0 {
            Err(ModelError::ZeroId(IdColumn::PersonRecord))
        } else {
            Ok(Person { id: NonZeroId::from_value(self.id) })
        }
    }

    fn into_entity(self) -> (res: Result<Person, ModelError>) {
        match NonZeroId::new(self.id) {
            Some(id) => Ok(Person { id }),
            None => Err(ModelError::ZeroId(IdColumn::PersonRecord)),
        }
    }
}

impl From<Person> for PgPerson {
    /// The record that stores `person`.
    fn from(person: Person) -> (record: PgPerson) {
        PgPerson { id: person.id.get() }
    }
}

impl vstd::std_specs::convert::FromSpecImpl<Person> for PgPerson {
    open spec fn obeys_from_spec() -> bool {
        true
    }

    open spec fn from_spec(person: Person) -> PgPerson {
        PgPerson { id: person.id@ }
    }
}

/// Storing a person and reading the record back gives the same person.
pub proof fn law_person_round_trip(person: Person)
    requires
        person.id@ != 0,
    ensures
        (PgPerson { id: person.id@ }).entity() == Ok::<Person, ModelError>(person),
{
    broadcast use crate::domain::id::NonZeroId::lemma_from_view;
}

/// A person record with a non-zero identifier reads as the person with that
/// identifier, a zero one is refused, and a person is stored under its own
/// identifier.
pub proof fn law_person_record(row: PgPerson, person: Person)
    ensures
        row.id == 0 ==> row.entity() == Err::<Person, ModelError>(ModelError::ZeroId(IdColumn::PersonRecord)),
        row.id != 0 ==> (row.entity() matches Ok(p) && p.id@ == row.id),
        <PgPerson as vstd::std_specs::convert::FromSpec<Person>>::obeys_from_spec(),
        <PgPerson as vstd::std_specs::convert::FromSpec<Person>>::from_spec(person).id == person.id@,
{
}

} // verus!
