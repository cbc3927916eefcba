//! The record of the `users` table, and the statements of its repository.

use vstd::prelude::*;
use crate::domain::id::Id;
use crate::domain::user;
use crate::query::{
    delete_where_sql, delete_where_text, insert_returning_sql, insert_returning_text, names, select_where_sql,
    select_where_text, update_returning_sql, update_returning_text, SqlValue, Statement,
};

verus! {

#[derive(Debug, Clone, PartialEq, Eq)]
pub struct Users {
    pub id: i32,
    pub email: String,
    pub password: String,
}

impl From<Users> for user::Entity {
    fn from(value: Users) -> (entity: user::Entity) {
        user::Entity {
            id: Id::new(value.id),
            email: value.email,
            password: user::HashedPassword { value: value.password },
        }
    }
}

impl vstd::std_specs::convert::FromSpecImpl<Users> for user::Entity {
    open spec fn obeys_from_spec() -> bool {
        true
    }

    open spec fn from_spec(value: Users) -> user::Entity {
        user::Entity {
            id: Id { value: value.id },
            email: value.email,
            password: user::HashedPassword { value: value.password },
        }
    }
}


/// The table's name.
pub const TABLE: &'static str = "users";

/// Updates the user with the entity's identifier: email and password hash,
/// then the identifier as the key, `RETURNING *`.
pub fn update_statement(entity: user::Entity) -> (stmt: Statement)
    ensures
        stmt.sql@ == update_returning_text("users"@, seq!["email"@, "password"@], "id"@),
        stmt.params@ == seq![
            SqlValue::Text(entity.email),
            SqlValue::Text(entity.password.value),
            SqlValue::Int(entity.id.value),
        ],
{
    let columns: Vec<&'static str> = vec!["email", "password"];
    assert(names(columns@) =~= seq!["email"@, "password"@]);
    let sql = update_returning_sql(TABLE, &columns, "id");
    Statement {
        sql,
        params: vec![
            SqlValue::Text(entity.email),
            SqlValue::Text(entity.password.value),
            SqlValue::Int(entity.id.value),
        ],
    }
}

/// Inserts a user: email and password hash, `RETURNING *`.
pub fn insert_statement(entity: user::Entity) -> (stmt: Statement)
    ensures
        stmt.sql@ == insert_returning_text("users"@, seq!["email"@, "password"@]),
        stmt.params@ == seq![SqlValue::Text(entity.email), SqlValue::Text(entity.password.value)],
{
    let columns: Vec<&'static str> = vec!["email", "password"];
    assert(names(columns@) =~= seq!["email"@, "password"@]);
    let sql = insert_returning_sql(TABLE, &columns);
    Statement { sql, params: vec![SqlValue::Text(entity.email), SqlValue::Text(entity.password.value)] }
}

/// Deletes the user with the entity's identifier.
pub fn delete_statement(entity: &user::Entity) -> (stmt: Statement)
    ensures
        stmt.sql@ == delete_where_text("users"@, "id"@),
        stmt.params@ == seq![SqlValue::Int(entity.id.value)],
{
    let sql = delete_where_sql(TABLE, "id");
    Statement { sql, params: vec![SqlValue::Int(entity.id.value)] }
}

/// Finds the user with identifier `id`.
pub fn find_statement(id: Id<i32>) -> (stmt: Statement)
    ensures
        stmt.sql@ == select_where_text("users"@, "id"@),
        stmt.params@ == seq![SqlValue::Int(id.value)],
{
    let sql = select_where_sql(TABLE, "id");
    Statement { sql, params: vec![SqlValue::Int(id.value)] }
}

/// Finds the user with email `email`.
pub fn find_by_email_statement(email: String) -> (stmt: Statement)
    ensures
        stmt.sql@ == select_where_text("users"@, "email"@),
        stmt.params@ == seq![SqlValue::Text(email)],
{
    let sql = select_where_sql(TABLE, "email");
    Statement { sql, params: vec![SqlValue::Text(email)] }
}

/// A user read from a `users` row has that row's identifier, email and
/// password hash.
pub proof fn law_users_row(row: Users)
    ensures
        <user::Entity as vstd::std_specs::convert::FromSpec<Users>>::obeys_from_spec(),
        <user::Entity as vstd::std_specs::convert::FromSpec<Users>>::from_spec(row).id.value == row.id,
        <user::Entity as vstd::std_specs::convert::FromSpec<Users>>::from_spec(row).email == row.email,
        <user::Entity as vstd::std_specs::convert::FromSpec<Users>>::from_spec(row).password.value == row.password,
{
}

} // verus!
