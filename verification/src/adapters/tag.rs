//! The tag record of the tag repository.

use vstd::prelude::*;
use crate::adapters::IntoEntity;
use crate::domain::legacy::{SerialId, Tag};
use crate::error::ModelError;

verus! {

/// A row of the `tags` table.
#[derive(Debug, Clone, PartialEq, Eq)]
pub struct PgTag {
    pub id: SerialId,
    pub name: String,
}

impl IntoEntity<Tag> for PgTag {
    open spec fn convertible(self) -> bool {
        true
    }

    fn is_convertible(&self) -> (convertible: bool) {
        true
    }

    open spec fn entity(self) -> Result<Tag, ModelError> {
        Ok(Tag { id: self.id, name: self.name })
    }

    fn into_entity(self) -> (res: Result<Tag, ModelError>) {
        Ok(Tag { id: self.id, name: self.name })
    }
}

/// A tag read from a `tags` row has that row's identifier and name.
pub proof fn law_tag_row(row: PgTag)
    ensures
        row.entity() matches Ok(t) && t.id == row.id && t.name == row.name,
{
}

} // verus!
