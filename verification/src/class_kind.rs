//! The record of the `class_kinds` table, and the statements of its repository.

use vstd::prelude::*;
use crate::domain::class_kind;
use crate::domain::id::Id;
use crate::query::{
    delete_where_sql, delete_where_text, insert_returning_sql, insert_returning_text, names, select_where_sql,
    select_where_text, update_all_returning_sql, update_all_returning_text, SqlValue, Statement,
};

verus! {

#[derive(Debug, Clone, PartialEq, Eq)]
pub struct ClassKinds {
    pub name: String,
}

impl From<ClassKinds> for class_kind::Entity {
    fn from(value: ClassKinds) -> (entity: class_kind::Entity) {
        class_kind::Entity { name: Id::new(value.name) }
    }
}

impl vstd::std_specs::convert::FromSpecImpl<ClassKinds> for class_kind::Entity {
    open spec fn obeys_from_spec() -> bool {
        true
    }

    open spec fn from_spec(value: ClassKinds) -> class_kind::Entity {
        class_kind::Entity { name: Id { value: value.name } }
    }
}


/// The table's name.
pub const TABLE: &'static str = "class_kinds";

/// Inserts a class kind: `INSERT INTO class_kinds (name) VALUES ($1) RETURNING *`.
pub fn insert_statement(entity: class_kind::Entity) -> (stmt: Statement)
    ensures
        stmt.sql@ == insert_returning_text("class_kinds"@, seq!["name"@]),
        stmt.params@ == seq![SqlValue::Text(entity.name.value)],
{
    let columns: Vec<&'static str> = vec!["name"];
    let sql = insert_returning_sql(TABLE, &columns);
    assert(names(columns@) =~= seq!["name"@]);
    Statement { sql, params: vec![SqlValue::Text(entity.name.value)] }
}

/// Renames a class kind. The statement has no condition, so it sets the name
/// of every class kind: `UPDATE class_kinds SET name = $1 RETURNING *`.
pub fn update_statement(entity: class_kind::Entity) -> (stmt: Statement)
    ensures
        stmt.sql@ == update_all_returning_text("class_kinds"@, seq!["name"@]),
        stmt.params@ == seq![SqlValue::Text(entity.name.value)],
{
    let columns: Vec<&'static str> = vec!["name"];
    let sql = update_all_returning_sql(TABLE, &columns);
    assert(names(columns@) =~= seq!["name"@]);
    Statement { sql, params: vec![SqlValue::Text(entity.name.value)] }
}

/// Deletes a class kind by its name, compared with the column named after the
/// table: `DELETE FROM class_kinds WHERE class_kinds IS $1`.
pub fn delete_statement(entity: &class_kind::Entity) -> (stmt: Statement)
    ensures
        stmt.sql@ == delete_where_text("class_kinds"@, "class_kinds"@),
        stmt.params@ == seq![SqlValue::Text(entity.name.value)],
{
    let sql = delete_where_sql(TABLE, TABLE);
    Statement { sql, params: vec![SqlValue::Text(entity.name.value.clone())] }
}

/// Finds a class kind by its name, compared with the column named after the
/// table: `SELECT * FROM class_kinds WHERE class_kinds IS $1`.
pub fn find_statement(id: Id<String>) -> (stmt: Statement)
    ensures
        stmt.sql@ == select_where_text("class_kinds"@, "class_kinds"@),
        stmt.params@ == seq![SqlValue::Text(id.value)],
{
    let sql = select_where_sql(TABLE, TABLE);
    Statement { sql, params: vec![SqlValue::Text(id.value)] }
}

/// A class kind read from a `class_kinds` row is named by that row's name.
pub proof fn law_class_kind_row(row: ClassKinds)
    ensures
        <class_kind::Entity as vstd::std_specs::convert::FromSpec<ClassKinds>>::obeys_from_spec(),
        <class_kind::Entity as vstd::std_specs::convert::FromSpec<ClassKinds>>::from_spec(row).name.value == row.name,
{
}

} // verus!
