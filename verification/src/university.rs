//! The record of the `universities` table, and the statements of its repository.

use vstd::prelude::*;
use crate::domain::id::Id;
use crate::domain::university;
use crate::query::{
    delete_where_sql, delete_where_text, insert_returning_sql, insert_returning_text, names, select_where_sql,
    select_where_text, update_returning_sql, update_returning_text, SqlValue, Statement,
};

verus! {

/// A row of the `universities` table.
#[derive(Debug, Clone, PartialEq, Eq)]
pub struct Universities {
    pub id: i32,
    pub name: String,
}

impl From<Universities> for university::Entity {
    fn from(value: Universities) -> (entity: university::Entity) {
        university::Entity { id: Id::new(value.id), name: value.name }
    }
}

impl vstd::std_specs::convert::FromSpecImpl<Universities> for university::Entity {
    open spec fn obeys_from_spec() -> bool {
        true
    }

    open spec fn from_spec(value: Universities) -> university::Entity {
        university::Entity { id: Id { value: value.id }, name: value.name }
    }
}

/// The table's name.
pub const TABLE: &'static str = "universities";

/// Inserts a university: `INSERT INTO universities (name) VALUES ($1) RETURNING *`.
pub fn insert_statement(entity: university::Entity) -> (stmt: Statement)
    ensures
        stmt.sql@ == insert_returning_text("universities"@, seq!["name"@]),
        stmt.params@ == seq![SqlValue::Text(entity.name)],
{
    let columns: Vec<&'static str> = vec!["name"];
    let sql = insert_returning_sql(TABLE, &columns);
    assert(names(columns@) =~= seq!["name"@]);
    Statement { sql, params: vec![SqlValue::Text(entity.name)] }
}

/// Renames university `entity.id`:
/// `UPDATE universities SET name = $1 WHERE id IS $2 RETURNING *`.
pub fn update_statement(entity: university::Entity) -> (stmt: Statement)
    ensures
        stmt.sql@ == update_returning_text("universities"@, seq!["name"@], "id"@),
        stmt.params@ == seq![SqlValue::Text(entity.name), SqlValue::Int(entity.id.value)],
{
    let columns: Vec<&'static str> = vec!["name"];
    let sql = update_returning_sql(TABLE, &columns, "id");
    assert(names(columns@) =~= seq!["name"@]);
    Statement { sql, params: vec![SqlValue::Text(entity.name), SqlValue::Int(entity.id.value)] }
}

/// Deletes university `entity.id`: `DELETE FROM universities WHERE id IS $1`.
pub fn delete_statement(entity: &university::Entity) -> (stmt: Statement)
    ensures
        stmt.sql@ == delete_where_text("universities"@, "id"@),
        stmt.params@ == seq![SqlValue::Int(entity.id.value)],
{
    let sql = delete_where_sql(TABLE, "id");
    Statement { sql, params: vec![SqlValue::Int(entity.id.value)] }
}

/// Finds university `id`: `SELECT * FROM universities WHERE id IS $1`.
pub fn find_statement(id: Id<i32>) -> (stmt: Statement)
    ensures
        stmt.sql@ == select_where_text("universities"@, "id"@),
        stmt.params@ == seq![SqlValue::Int(id.value)],
{
    let sql = select_where_sql(TABLE, "id");
    Statement { sql, params: vec![SqlValue::Int(id.value)] }
}

/// Finds the university named `name`: `SELECT * FROM universities WHERE name IS $1`.
pub fn find_by_name_statement(name: String) -> (stmt: Statement)
    ensures
        stmt.sql@ == select_where_text("universities"@, "name"@),
        stmt.params@ == seq![SqlValue::Text(name)],
{
    let sql = select_where_sql(TABLE, "name");
    Statement { sql, params: vec![SqlValue::Text(name)] }
}

/// A university read from a `universities` row has that row's identifier and name.
pub proof fn law_universities_row(row: Universities)
    ensures
        <university::Entity as vstd::std_specs::convert::FromSpec<Universities>>::obeys_from_spec(),
        <university::Entity as vstd::std_specs::convert::FromSpec<Universities>>::from_spec(row).id.value == row.id,
        <university::Entity as vstd::std_specs::convert::FromSpec<Universities>>::from_spec(row).name == row.name,
{
}

} // verus!
