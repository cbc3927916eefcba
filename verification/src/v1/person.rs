//! The person record of the first user repository.

use vstd::prelude::*;
use crate::adapters::IntoEntity;
use crate::domain::legacy::{Person, SerialId};
use crate::error::ModelError;

verus! {

#[derive(Debug, Clone, Copy, PartialEq, Eq)]
pub struct PgPerson {
    pub id: SerialId,
}

impl IntoEntity<Person> for PgPerson {
    open spec fn convertible(self) -> bool {
        true
    }

    fn is_convertible(&self) -> (convertible: bool) {
        true
    }

    open spec fn entity(self) -> Result<Person, ModelError> {
        Ok(Person { id: self.id })
    }

    fn into_entity(self) -> (res: Result<Person, ModelError>) {
        Ok(Person { id: self.id })
    }
}

impl From<Person> for PgPerson {
    fn from(person: Person) -> (record: PgPerson) {
        PgPerson { id: person.id }
    }
}

impl vstd::std_specs::convert::FromSpecImpl<Person> for PgPerson {
    open spec fn obeys_from_spec() -> bool {
        true
    }

    open spec fn from_spec(person: Person) -> PgPerson {
        PgPerson { id: person.id }
    }
}

/// A person read from a `persons` row has that row's identifier, and a person
/// is stored under its own identifier.
pub proof fn law_person_row(row: PgPerson, person: Person)
    ensures
        row.entity() matches Ok(p) && p.id == row.id,
        <PgPerson as vstd::std_specs::convert::FromSpec<Person>>::obeys_from_spec(),
        <PgPerson as vstd::std_specs::convert::FromSpec<Person>>::from_spec(person).id == person.id,
{
}

} // verus!
