//! Records of the first user repository.

use vstd::prelude::*;
use crate::adapters::IntoEntity;
use crate::domain::legacy::{HashedPassword, Role, SerialId, User};
use crate::error::ModelError;

verus! {

/// The `user_role` column type.
#[derive(Debug, Clone, Copy, PartialEq, Eq, Structural)]
pub enum PgRole {
    Admin,
}

/// The column value that stores `role`.
pub open spec fn pg_role_of(role: Role) -> PgRole {
    match role {
        Role::Admin => PgRole::Admin,
    }
}

/// The role that the column value `role` stores.
pub open spec fn role_of(role: PgRole) -> Role {
    match role {
        PgRole::Admin => Role::Admin,
    }
}

/// Storing a role and reading it back gives the same role, either way round.
pub proof fn law_role_round_trip(r: Role, p: PgRole)
    ensures
        role_of(pg_role_of(r)) == r,
        pg_role_of(role_of(p)) == p,
{
}

impl From<Role> for PgRole {
    fn from(value: Role) -> (role: PgRole) {
        match value {
            Role::Admin => PgRole::Admin,
        }
    }
}

impl vstd::std_specs::convert::FromSpecImpl<Role> for PgRole {
    open spec fn obeys_from_spec() -> bool {
        true
    }

    open spec fn from_spec(value: Role) -> PgRole {
        pg_role_of(value)
    }
}

impl From<PgRole> for Role {
    fn from(value: PgRole) -> (role: Role) {
        match value {
            PgRole::Admin => Role::Admin,
        }
    }
}

impl vstd::std_specs::convert::FromSpecImpl<PgRole> for Role {
    open spec fn obeys_from_spec() -> bool {
        true
    }

    open spec fn from_spec(value: PgRole) -> Role {
        role_of(value)
    }
}

/// A row of the `users` table.
#[derive(Debug, Clone, PartialEq, Eq)]
pub struct PgUser {
    pub id: SerialId,
    pub email: String,
    pub hashed_password: String,
    pub role: PgRole,
}

impl IntoEntity<User> for PgUser {
    open spec fn convertible(self) -> bool {
        true
    }

    fn is_convertible(&self) -> (convertible: bool) {
        true
    }

    open spec fn entity(self) -> Result<User, ModelError> {
        Ok(User {
            id: self.id,
            email: self.email,
            hashed_password: HashedPassword(self.hashed_password),
            role: role_of(self.role),
        })
    }

    fn into_entity(self) -> (res: Result<User, ModelError>) {
        Ok(User {
            id: self.id,
            email: self.email,
            hashed_password: HashedPassword(self.hashed_password),
            role: Role::from(self.role),
        })
    }
}

/// A user read from a `users` row has that row's identifier, email, password
/// hash and role; reading never fails.
pub proof fn law_user_row(row: PgUser)
    ensures
        row.entity() matches Ok(u) && {
            &&& u.id == row.id
            &&& u.email == row.email
            &&& u.hashed_password.0 == row.hashed_password
            &&& (row.role == PgRole::Admin ==> u.role == Role::Admin)
        },
        <PgRole as vstd::std_specs::convert::FromSpec<Role>>::obeys_from_spec() && <Role as vstd::std_specs::convert::FromSpec<PgRole>>::obeys_from_spec(),
        <PgRole as vstd::std_specs::convert::FromSpec<Role>>::from_spec(Role::Admin) == PgRole::Admin,
        <Role as vstd::std_specs::convert::FromSpec<PgRole>>::from_spec(PgRole::Admin) == Role::Admin,
{
}

} // verus!
