//! The university record of the university repository.

use vstd::prelude::*;
use crate::adapters::IntoEntity;
use crate::domain::legacy::{SerialId, University};
use crate::error::ModelError;

verus! {

/// A row of the `universities` table.
#[derive(Debug, Clone, PartialEq, Eq)]
pub struct PgUniversity {
    pub id: SerialId,
    pub name: String,
}

impl IntoEntity<University> for PgUniversity {
    open spec fn convertible(self) -> bool {
        true
    }

    fn is_convertible(&self) -> (convertible: bool) {
        true
    }

    open spec fn entity(self) -> Result<University, ModelError> {
        Ok(University { id: self.id, name: self.name })
    }

    fn into_entity(self) -> (res: Result<University, ModelError>) {
        Ok(University { id: self.id, name: self.name })
    }
}

/// A university read from a `universities` row has that row's identifier and name.
pub proof fn law_university_row(row: PgUniversity)
    ensures
        row.entity() matches Ok(u) && u.id == row.id && u.name == row.name,
{
}

} // verus!
