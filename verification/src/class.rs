//! The record of the `classes` table.

use vstd::prelude::*;
use crate::domain::class;
use crate::domain::id::Id;

verus! {

#[derive(Debug, Clone, PartialEq, Eq)]
pub struct Classes {
    pub id: i32,
    pub curriculum_module_id: i32,
    pub kind_name: String,
}

impl From<Classes> for class::Entity {
    fn from(value: Classes) -> (entity: class::Entity) {
        class::Entity {
            id: Id::new(value.id),
            curriculum_module_id: Id::new(value.curriculum_module_id),
            kind_name: Id::new(value.kind_name),
        }
    }
}

impl vstd::std_specs::convert::FromSpecImpl<Classes> for class::Entity {
    open spec fn obeys_from_spec() -> bool {
        true
    }

    open spec fn from_spec(value: Classes) -> class::Entity {
        class::Entity {
            id: Id { value: value.id },
            curriculum_module_id: Id { value: value.curriculum_module_id },
            kind_name: Id { value: value.kind_name },
        }
    }
}

/// A class read from a `classes` row has that row's identifier, curriculum
/// module and kind name.
pub proof fn law_class_row(row: Classes)
    ensures
        <class::Entity as vstd::std_specs::convert::FromSpec<Classes>>::obeys_from_spec(),
        <class::Entity as vstd::std_specs::convert::FromSpec<Classes>>::from_spec(row).id.value == row.id,
        <class::Entity as vstd::std_specs::convert::FromSpec<Classes>>::from_spec(row).curriculum_module_id.value == row.curriculum_module_id,
        <class::Entity as vstd::std_specs::convert::FromSpec<Classes>>::from_spec(row).kind_name.value == row.kind_name,
{
}

} // verus!
