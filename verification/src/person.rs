//! The record of the `persons` table, and the statements of its repository.

use vstd::prelude::*;
use crate::domain::id::Id;
use crate::domain::person;
use crate::query::{
    delete_where_sql, delete_where_text, insert_returning_sql, insert_returning_text, names,
    select_nothing_where_sql, select_nothing_where_text, update_returning_sql, update_returning_text, SqlValue,
    Statement,
};

verus! {

#[derive(Debug, Clone, Copy, PartialEq, Eq, Structural)]
pub struct Persons {
    pub id: i32,
    pub user_id: i32,
}

impl From<Persons> for person::Entity {
    fn from(value: Persons) -> (entity: person::Entity) {
        person::Entity { id: Id::new(value.id), user_id: Id::new(value.user_id) }
    }
}

impl vstd::std_specs::convert::FromSpecImpl<Persons> for person::Entity {
    open spec fn obeys_from_spec() -> bool {
        true
    }

    open spec fn from_spec(value: Persons) -> person::Entity {
        person::Entity { id: Id { value: value.id }, user_id: Id { value: value.user_id } }
    }
}

/// The table's name.
pub const TABLE: &'static str = "persons";

/// The columns that saving a person writes, in order.
pub open spec fn saved_columns() -> Seq<Seq<char>> {
    seq!["user_id"@, "full_name"@]
}

fn saved_columns_vec() -> (columns: Vec<&'static str>)
    ensures
        columns@.len() == 2,
        names(columns@) == saved_columns(),
{
    let columns: Vec<&'static str> = vec!["user_id", "full_name"];
    assert(names(columns@) =~= saved_columns());
    columns
}

/// Inserts the person of user `user_id` named `full_name`, `RETURNING *`.
pub fn insert_statement(user_id: Id<i32>, full_name: String) -> (stmt: Statement)
    ensures
        stmt.sql@ == insert_returning_text("persons"@, saved_columns()),
        stmt.params@ == seq![SqlValue::Int(user_id.value), SqlValue::Text(full_name)],
{
    let sql = insert_returning_sql(TABLE, &saved_columns_vec());
    Statement { sql, params: vec![SqlValue::Int(user_id.value), SqlValue::Text(full_name)] }
}

/// Updates person `id`: its user and full name, then the identifier, `RETURNING *`.
pub fn update_statement(id: Id<i32>, user_id: Id<i32>, full_name: String) -> (stmt: Statement)
    ensures
        stmt.sql@ == update_returning_text("persons"@, saved_columns(), "id"@),
        stmt.params@ == seq![SqlValue::Int(user_id.value), SqlValue::Text(full_name), SqlValue::Int(id.value)],
{
    let sql = update_returning_sql(TABLE, &saved_columns_vec(), "id");
    Statement { sql, params: vec![SqlValue::Int(user_id.value), SqlValue::Text(full_name), SqlValue::Int(id.value)] }
}

/// Deletes person `entity.id`.
pub fn delete_statement(entity: &person::Entity) -> (stmt: Statement)
    ensures
        stmt.sql@ == delete_where_text("persons"@, "id"@),
        stmt.params@ == seq![SqlValue::Int(entity.id.value)],
{
    let sql = delete_where_sql(TABLE, "id");
    Statement { sql, params: vec![SqlValue::Int(entity.id.value)] }
}

/// Finds person `id`; the select names no column.
pub fn find_statement(id: Id<i32>) -> (stmt: Statement)
    ensures
        stmt.sql@ == select_nothing_where_text("persons"@, "id"@),
        stmt.params@ == seq![SqlValue::Int(id.value)],
{
    let sql = select_nothing_where_sql(TABLE, "id");
    Statement { sql, params: vec![SqlValue::Int(id.value)] }
}

/// Finds the person of user `user_id`; the select names no column.
pub fn find_by_user_id_statement(user_id: Id<i32>) -> (stmt: Statement)
    ensures
        stmt.sql@ == select_nothing_where_text("persons"@, "user_id"@),
        stmt.params@ == seq![SqlValue::Int(user_id.value)],
{
    let sql = select_nothing_where_sql(TABLE, "user_id");
    Statement { sql, params: vec![SqlValue::Int(user_id.value)] }
}

/// A person read from a `persons` row has that row's identifier and user.
pub proof fn law_persons_row(row: Persons)
    ensures
        <person::Entity as vstd::std_specs::convert::FromSpec<Persons>>::obeys_from_spec(),
        <person::Entity as vstd::std_specs::convert::FromSpec<Persons>>::from_spec(row).id.value == row.id,
        <person::Entity as vstd::std_specs::convert::FromSpec<Persons>>::from_spec(row).user_id.value == row.user_id,
{
}

} // verus!
