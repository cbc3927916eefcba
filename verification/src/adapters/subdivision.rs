//! Records of the subdivision repositories: rows joined with their university,
//! and with the tag or person they relate to.

use vstd::prelude::*;
use crate::adapters::IntoEntity;
use crate::domain::id::NonZeroId;
use crate::domain::legacy::{Person, Subdivision, SubdivisionMember, SubdivisionTag, Tag, University};
use crate::error::{IdColumn, ModelError};

verus! {

broadcast use crate::domain::id::NonZeroId::lemma_from_value_view;

/// The subdivision described by its columns, once neither identifier is zero.
pub open spec fn subdivision_of(
    subdivision_id: i32,
    subdivision_name: String,
    university_id: i32,
    university_name: String,
) -> Subdivision {
    Subdivision {
        id: NonZeroId::from_value(subdivision_id),
        name: subdivision_name,
        university: University { id: NonZeroId::from_value(university_id), name: university_name },
    }
}

/// The first zero identifier among those of a subdivision and its university.
pub open spec fn subdivision_ids_error(subdivision_id: i32, university_id: i32) -> Option<ModelError> {
    if subdivision_id == 0 {
        Some(ModelError::ZeroId(IdColumn::Subdivision))
    } else if university_id == 0 {
        Some(ModelError::ZeroId(IdColumn::University))
    } else {
        None
    }
}

fn build_subdivision(
    subdivision_id: i32,
    subdivision_name: String,
    university_id: i32,
    university_name: String,
) -> (res: Result<Subdivision, ModelError>)
    ensures
        match subdivision_ids_error(subdivision_id, university_id) {
            Some(e) => res == Err::<Subdivision, ModelError>(e),
            None => res == Ok::<Subdivision, ModelError>(
                subdivision_of(subdivision_id, subdivision_name, university_id, university_name),
            ),
        },
{
    let id = match NonZeroId::new(subdivision_id) {
        Some(id) => id,
        None => return Err(ModelError::ZeroId(IdColumn::Subdivision)),
    };
    let university = match NonZeroId::new(university_id) {
        Some(id) => id,
        None => return Err(ModelError::ZeroId(IdColumn::University)),
    };
    Ok(Subdivision {
        id,
        name: subdivision_name,
        university: University { id: university, name: university_name },
    })
}

/// A subdivision row joined with its university.
#[derive(Debug, Clone, PartialEq, Eq)]
pub struct PgSubdivision {
    pub subdivision_id: i32,
    pub subdivision_name: String,
    pub university_id: i32,
    pub university_name: String,
}

impl IntoEntity<Subdivision> for PgSubdivision {
    open spec fn convertible(self) -> bool {
        true
    }

    fn is_convertible(&self) -> (convertible: bool) {
        true
    }

    open spec fn entity(self) -> Result<Subdivision, ModelError> {
        match subdivision_ids_error(self.subdivision_id, self.university_id) {
            Some(e) => Err(e),
            None => Ok(subdivision_of(
                self.subdivision_id,
                self.subdivision_name,
                self.university_id,
                self.university_name,
            )),
        }
    }

    fn into_entity(self) -> (res: Result<Subdivision, ModelError>) {
        build_subdivision(self.subdivision_id, self.subdivision_name, self.university_id, self.university_name)
    }
}

/// A subdivision-tag row joined with the subdivision, its university and the tag.
#[derive(Debug, Clone, PartialEq, Eq)]
pub struct PgSubdivisionTag {
    pub subdivision_id: i32,
    pub subdivision_name: String,
    pub university_id: i32,
    pub university_name: String,
    pub tag_id: i32,
    pub tag_name: String,
}

impl IntoEntity<SubdivisionTag> for PgSubdivisionTag {
    open spec fn convertible(self) -> bool {
        true
    }

    fn is_convertible(&self) -> (convertible: bool) {
        true
    }

    open spec fn entity(self) -> Result<SubdivisionTag, ModelError> {
        match subdivision_ids_error(self.subdivision_id, self.university_id) {
            Some(e) => Err(e),
            None => if self.tag_id == 0 {
                Err(ModelError::ZeroId(IdColumn::Tag))
            } else {
                Ok(SubdivisionTag(
                    subdivision_of(
                        self.subdivision_id,
                        self.subdivision_name,
                        self.university_id,
                        self.university_name,
                    ),
                    Tag { id: NonZeroId::from_value(self.tag_id), name: self.tag_name },
                ))
            },
        }
    }

    fn into_entity(self) -> (res: Result<SubdivisionTag, ModelError>) {
        let subdivision = match build_subdivision(
            self.subdivision_id,
            self.subdivision_name,
            self.university_id,
            self.university_name,
        ) {
            Ok(s) => s,
            Err(e) => return Err(e),
        };
        match NonZeroId::new(self.tag_id) {
            Some(id) => Ok(SubdivisionTag(subdivision, Tag { id, name: self.tag_name })),
            None => Err(ModelError::ZeroId(IdColumn::Tag)),
        }
    }
}

/// A subdivision-member row joined with the subdivision, its university and the person.
#[derive(Debug, Clone, PartialEq, Eq)]
pub struct PgSubdivisionMember {
    pub subdivision_id: i32,
    pub subdivision_name: String,
    pub university_id: i32,
    pub university_name: String,
    pub person_id: i32,
    pub role: String,
}

impl IntoEntity<SubdivisionMember> for PgSubdivisionMember {
    open spec fn convertible(self) -> bool {
        true
    }

    fn is_convertible(&self) -> (convertible: bool) {
        true
    }

    open spec fn entity(self) -> Result<SubdivisionMember, ModelError> {
        match subdivision_ids_error(self.subdivision_id, self.university_id) {
            Some(e) => Err(e),
            None => if self.person_id == 0 {
                Err(ModelError::ZeroId(IdColumn::Person))
            } else {
                Ok(SubdivisionMember {
                    id: (
                        subdivision_of(
                            self.subdivision_id,
                            self.subdivision_name,
                            self.university_id,
                            self.university_name,
                        ),
                        Person { id: NonZeroId::from_value(self.person_id) },
                    ),
                    role: self.role,
                })
            },
        }
    }

    fn into_entity(self) -> (res: Result<SubdivisionMember, ModelError>) {
        let subdivision = match build_subdivision(
            self.subdivision_id,
            self.subdivision_name,
            self.university_id,
            self.university_name,
        ) {
            Ok(s) => s,
            Err(e) => return Err(e),
        };
        match NonZeroId::new(self.person_id) {
            Some(id) => Ok(SubdivisionMember { id: (subdivision, Person { id }), role: self.role }),
            None => Err(ModelError::ZeroId(IdColumn::Person)),
        }
    }
}

/// A subdivision row reads as the subdivision with the row's identifier and
/// name, in the university with the row's university identifier and name; a
/// zero subdivision identifier, and then a zero university identifier, is
/// refused.
pub proof fn law_subdivision_row(row: PgSubdivision)
    ensures
        row.subdivision_id == 0 ==> row.entity() == Err::<Subdivision, ModelError>(ModelError::ZeroId(IdColumn::Subdivision)),
        row.subdivision_id != 0 && row.university_id == 0
            ==> row.entity() == Err::<Subdivision, ModelError>(ModelError::ZeroId(IdColumn::University)),
        row.subdivision_id != 0 && row.university_id != 0 ==> (row.entity() matches Ok(s) && {
            &&& s.id@ == row.subdivision_id
            &&& s.name == row.subdivision_name
            &&& s.university.id@ == row.university_id
            &&& s.university.name == row.university_name
        }),
{
}

/// A subdivision-tag row reads as the row's subdivision, in the row's
/// university, tagged with the row's tag; zero identifiers are refused, the
/// subdivision's and the university's first, then the tag's.
pub proof fn law_subdivision_tag_row(row: PgSubdivisionTag)
    ensures
        row.subdivision_id == 0 ==> row.entity() == Err::<SubdivisionTag, ModelError>(ModelError::ZeroId(IdColumn::Subdivision)),
        row.subdivision_id != 0 && row.university_id == 0
            ==> row.entity() == Err::<SubdivisionTag, ModelError>(ModelError::ZeroId(IdColumn::University)),
        row.subdivision_id != 0 && row.university_id != 0 && row.tag_id == 0
            ==> row.entity() == Err::<SubdivisionTag, ModelError>(ModelError::ZeroId(IdColumn::Tag)),
        row.subdivision_id != 0 && row.university_id != 0 && row.tag_id != 0 ==> (row.entity() matches Ok(t) && {
            &&& t.0.id@ == row.subdivision_id
            &&& t.0.name == row.subdivision_name
            &&& t.0.university.id@ == row.university_id
            &&& t.0.university.name == row.university_name
            &&& t.1.id@ == row.tag_id
            &&& t.1.name == row.tag_name
        }),
{
}

/// A subdivision-member row reads as the row's person, with the row's role, in
/// the row's subdivision of the row's university; zero identifiers are
/// refused, the subdivision's and the university's first, then the person's.
pub proof fn law_subdivision_member_row(row: PgSubdivisionMember)
    ensures
        row.subdivision_id == 0
            ==> row.entity() == Err::<SubdivisionMember, ModelError>(ModelError::ZeroId(IdColumn::Subdivision)),
        row.subdivision_id != 0 && row.university_id == 0
            ==> row.entity() == Err::<SubdivisionMember, ModelError>(ModelError::ZeroId(IdColumn::University)),
        row.subdivision_id != 0 && row.university_id != 0 && row.person_id == 0
            ==> row.entity() == Err::<SubdivisionMember, ModelError>(ModelError::ZeroId(IdColumn::Person)),
        row.subdivision_id != 0 && row.university_id != 0 && row.person_id != 0 ==> (row.entity() matches Ok(m) && {
            &&& m.id.0.id@ == row.subdivision_id
            &&& m.id.0.name == row.subdivision_name
            &&& m.id.0.university.id@ == row.university_id
            &&& m.id.0.university.name == row.university_name
            &&& m.id.1.id@ == row.person_id
            &&& m.role == row.role
        }),
{
}

} // verus!
