//! The record of the `curriculum_modules` table.

use vstd::prelude::*;
use crate::domain::curriculum_module;
use crate::domain::id::Id;

verus! {

#[derive(Debug, Clone, Copy, PartialEq, Eq, Structural)]
pub struct CurriculumModules {
    pub id: i32,
    pub discipline_id: i32,
    pub curriculum_id: i32,
    pub semester: i32,
}

impl From<CurriculumModules> for curriculum_module::Entity {
    fn from(value: CurriculumModules) -> (entity: curriculum_module::Entity) {
        curriculum_module::Entity {
            id: Id::new(value.id),
            discipline_id: Id::new(value.discipline_id),
            curriculum_id: Id::new(value.curriculum_id),
            semester: value.semester,
        }
    }
}

impl vstd::std_specs::convert::FromSpecImpl<CurriculumModules> for curriculum_module::Entity {
    open spec fn obeys_from_spec() -> bool {
        true
    }

    open spec fn from_spec(value: CurriculumModules) -> curriculum_module::Entity {
        curriculum_module::Entity {
            id: Id { value: value.id },
            discipline_id: Id { value: value.discipline_id },
            curriculum_id: Id { value: value.curriculum_id },
            semester: value.semester,
        }
    }
}

/// A curriculum module read from a `curriculum_modules` row has that row's
/// identifier, discipline, curriculum and semester.
pub proof fn law_curriculum_module_row(row: CurriculumModules)
    ensures
        <curriculum_module::Entity as vstd::std_specs::convert::FromSpec<CurriculumModules>>::obeys_from_spec(),
        <curriculum_module::Entity as vstd::std_specs::convert::FromSpec<CurriculumModules>>::from_spec(row).id.value == row.id,
        <curriculum_module::Entity as vstd::std_specs::convert::FromSpec<CurriculumModules>>::from_spec(row).discipline_id.value == row.discipline_id,
        <curriculum_module::Entity as vstd::std_specs::convert::FromSpec<CurriculumModules>>::from_spec(row).curriculum_id.value == row.curriculum_id,
        <curriculum_module::Entity as vstd::std_specs::convert::FromSpec<CurriculumModules>>::from_spec(row).semester == row.semester,
{
}

} // verus!
