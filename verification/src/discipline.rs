//! The record of the `disciplines` table.

use vstd::prelude::*;
use crate::domain::discipline;
use crate::domain::id::Id;

verus! {

#[derive(Debug, Clone, PartialEq, Eq)]
pub struct Disciplines {
    pub id: i32,
    pub name: String,
    pub department_id: i32,
}

impl From<Disciplines> for discipline::Entity {
    fn from(value: Disciplines) -> (entity: discipline::Entity) {
        discipline::Entity {
            id: Id::new(value.id),
            name: value.name,
            department_id: Id::new(value.department_id),
        }
    }
}

impl vstd::std_specs::convert::FromSpecImpl<Disciplines> for discipline::Entity {
    open spec fn obeys_from_spec() -> bool {
        true
    }

    open spec fn from_spec(value: Disciplines) -> discipline::Entity {
        discipline::Entity {
            id: Id { value: value.id },
            name: value.name,
            department_id: Id { value: value.department_id },
        }
    }
}

/// A discipline read from a `disciplines` row has that row's identifier, name
/// and department.
pub proof fn law_discipline_row(row: Disciplines)
    ensures
        <discipline::Entity as vstd::std_specs::convert::FromSpec<Disciplines>>::obeys_from_spec(),
        <discipline::Entity as vstd::std_specs::convert::FromSpec<Disciplines>>::from_spec(row).id.value == row.id,
        <discipline::Entity as vstd::std_specs::convert::FromSpec<Disciplines>>::from_spec(row).name == row.name,
        <discipline::Entity as vstd::std_specs::convert::FromSpec<Disciplines>>::from_spec(row).department_id.value == row.department_id,
{
}

} // verus!
