//! Statements for the repositories that build their SQL with sea_query: the
//! text that sea_query's PostgreSQL builder gives, and the values bound to it.

use vstd::prelude::*;
use sea_query::{Alias, Condition, Expr, JoinType, PostgresQueryBuilder, Query, QueryStatementWriter, SimpleExpr};

verus! {

/// A value bound to a statement's placeholder.
#[derive(Debug, PartialEq, Eq)]
pub enum SqlValue {
    Int(i32),
    Text(String),
    Date(time::Date),
}

/// A statement: its text, with placeholders `$1`, `$2`, ..., and the values
/// bound to them, in placeholder order.
#[derive(Debug, PartialEq, Eq)]
pub struct Statement {
    pub sql: String,
    pub params: Vec<SqlValue>,
}

/// The names of `columns`, as text.
pub open spec fn names(columns: Seq<&'static str>) -> Seq<Seq<char>> {
    columns.map_values(|c: &'static str| c@)
}

/// `name` with each double quote doubled, as sea_query escapes an identifier.
pub open spec fn escaped(name: Seq<char>) -> Seq<char>
    decreases name.len(),
{
    if name.len() == 0 {
        Seq::empty()
    } else if name.last() == '"' {
        escaped(name.drop_last()) + seq!['"', '"']
    } else {
        escaped(name.drop_last()).push(name.last())
    }
}

/// The identifier `name` as PostgreSQL quotes it.
pub open spec fn quoted(name: Seq<char>) -> Seq<char> {
    seq!['"'] + escaped(name) + seq!['"']
}

/// Column `column` of table `table`, quoted.
pub open spec fn qualified(table: Seq<char>, column: Seq<char>) -> Seq<char> {
    quoted(table) + seq!['.'] + quoted(column)
}

/// The `k`-th placeholder, `$k`.
pub open spec fn placeholder(k: nat) -> Seq<char> {
    seq!['$'] + crate::decimal::decimal_text(k)
}

/// `items` written one after the other, `separator` between two.
pub open spec fn joined(items: Seq<Seq<char>>, separator: Seq<char>) -> Seq<char>
    decreases items.len(),
{
    if items.len() == 0 {
        Seq::empty()
    } else if items.len() == 1 {
        items[0]
    } else {
        joined(items.drop_last(), separator) + separator + items.last()
    }
}

/// The quoted names of `columns`, comma-separated.
pub open spec fn column_list(columns: Seq<Seq<char>>) -> Seq<char> {
    joined(columns.map_values(|c: Seq<char>| quoted(c)), seq![',', ' '])
}

/// The placeholders `$1` to `$n`, comma-separated.
pub open spec fn placeholder_list(n: nat) -> Seq<char> {
    joined(Seq::new(n, |i: int| placeholder((i + 1) as nat)), seq![',', ' '])
}

/// `"column" = $k` for each column, numbered from `$1` in column order, comma-separated.
pub open spec fn assignment_list(columns: Seq<Seq<char>>) -> Seq<char> {
    joined(
        Seq::new(columns.len(), |i: int| quoted(columns[i]) + seq![' ', '=', ' '] + placeholder((i + 1) as nat)),
        seq![',', ' '],
    )
}

/// `INSERT INTO "table" ("c1", ...) VALUES ($1, ...) RETURNING *`, one
/// placeholder per column, as sea_query's PostgreSQL builder writes it.
pub open spec fn insert_returning_text(table: Seq<char>, columns: Seq<Seq<char>>) -> Seq<char> {
    "INSERT INTO "@ + quoted(table) + " ("@ + column_list(columns) + ") VALUES ("@
        + placeholder_list(columns.len()) + ") RETURNING *"@
}

/// `UPDATE "table" SET "c1" = $1, ... WHERE "key_column" IS $n+1 RETURNING *`:
/// the placeholders of the new values in column order, then the one of the key.
pub open spec fn update_returning_text(table: Seq<char>, columns: Seq<Seq<char>>, key_column: Seq<char>) -> Seq<char> {
    "UPDATE "@ + quoted(table) + " SET "@ + assignment_list(columns) + " WHERE "@ + quoted(key_column)
        + " IS "@ + placeholder(columns.len() + 1) + " RETURNING *"@
}

/// `UPDATE "table" SET "c1" = $1, ... RETURNING *`, with no condition.
pub open spec fn update_all_returning_text(table: Seq<char>, columns: Seq<Seq<char>>) -> Seq<char> {
    "UPDATE "@ + quoted(table) + " SET "@ + assignment_list(columns) + " RETURNING *"@
}

/// `SELECT * FROM "table" WHERE "key_column" IS $1`.
pub open spec fn select_where_text(table: Seq<char>, key_column: Seq<char>) -> Seq<char> {
    "SELECT * FROM "@ + quoted(table) + " WHERE "@ + quoted(key_column) + " IS "@ + placeholder(1)
}

/// `SELECT  FROM "table" WHERE "key_column" IS $1`: a select that names no
/// column, so nothing stands between `SELECT` and `FROM`.
pub open spec fn select_nothing_where_text(table: Seq<char>, key_column: Seq<char>) -> Seq<char> {
    "SELECT  FROM "@ + quoted(table) + " WHERE "@ + quoted(key_column) + " IS "@ + placeholder(1)
}

/// `DELETE FROM "table" WHERE "key_column" IS $1`.
pub open spec fn delete_where_text(table: Seq<char>, key_column: Seq<char>) -> Seq<char> {
    "DELETE FROM "@ + quoted(table) + " WHERE "@ + quoted(key_column) + " IS "@ + placeholder(1)
}

/// `DELETE FROM "table" WHERE "key_column" IS $1 RETURNING *`.
pub open spec fn delete_where_returning_text(table: Seq<char>, key_column: Seq<char>) -> Seq<char> {
    delete_where_text(table, key_column) + " RETURNING *"@
}

/// `SELECT * FROM "table" INNER JOIN "join_table" ON "table"."id_column" =
/// "join_table"."join_column"`.
pub open spec fn join_select_text(
    table: Seq<char>,
    id_column: Seq<char>,
    join_table: Seq<char>,
    join_column: Seq<char>,
) -> Seq<char> {
    "SELECT * FROM "@ + quoted(table) + " INNER JOIN "@ + quoted(join_table) + " ON "@
        + qualified(table, id_column) + " = "@ + qualified(join_table, join_column)
}

/// The join of `join_select_text`, `WHERE "table"."filter_column" IS $1`.
pub open spec fn join_select_where_text(
    table: Seq<char>,
    id_column: Seq<char>,
    join_table: Seq<char>,
    join_column: Seq<char>,
    filter_column: Seq<char>,
) -> Seq<char> {
    join_select_text(table, id_column, join_table, join_column) + " WHERE "@ + qualified(table, filter_column)
        + " IS "@ + placeholder(1)
}

/// The join of `join_select_text`, `WHERE "table"."filter_column" = $1`.
pub open spec fn join_select_eq_where_text(
    table: Seq<char>,
    id_column: Seq<char>,
    join_table: Seq<char>,
    join_column: Seq<char>,
    filter_column: Seq<char>,
) -> Seq<char> {
    join_select_text(table, id_column, join_table, join_column) + " WHERE "@ + qualified(table, filter_column)
        + " = "@ + placeholder(1)
}

/// The join of `join_select_text`, `WHERE` the conjunction of `count`
/// conditions `"join_table"."filter_column" IS $k`, numbered from `$1`;
/// `WHERE TRUE` for none.
pub open spec fn join_select_all_where_text(
    table: Seq<char>,
    id_column: Seq<char>,
    join_table: Seq<char>,
    join_column: Seq<char>,
    filter_column: Seq<char>,
    count: nat,
) -> Seq<char> {
    join_select_text(table, id_column, join_table, join_column) + " WHERE "@ + if count == 0 {
        "TRUE"@
    } else {
        joined(
            Seq::new(count, |i: int| qualified(join_table, filter_column) + " IS "@ + placeholder((i + 1) as nat)),
            " AND "@,
        )
    }
}

/// The SQL that sea_query's `Query::insert()`, with `into_table`, `columns`,
/// `values_panic` and `returning_all`, built by `PostgresQueryBuilder`, gives.
/// Each value becomes a numbered placeholder (`$1`, `$2`, ... in the order the
/// builder writes them); the statement is built with one value per column,
/// and at least one column.
#[verifier::external_body]
pub(crate) fn insert_returning_sql(table: &str, columns: &Vec<&'static str>) -> (sql: String)
    requires
        columns@.len() > 0,
    ensures
        sql@ == insert_returning_text(table@, names(columns@)),
{
    let mut query = Query::insert();
    query
        .into_table(Alias::new(table))
        .columns(columns.iter().map(|c| Alias::new(*c)))
        .values_panic(columns.iter().map(|_| SimpleExpr::from(0)))
        .returning_all();
    query.build(PostgresQueryBuilder).0
}

/// The SQL of sea_query's `Query::update()` with `table`, `values` (one per
/// column), `and_where(Expr::col(key_column).is(..))` and `returning_all`,
/// built by `PostgresQueryBuilder`.
#[verifier::external_body]
pub(crate) fn update_returning_sql(table: &str, columns: &Vec<&'static str>, key_column: &str) -> (sql: String)
    requires
        columns@.len() > 0,
    ensures
        sql@ == update_returning_text(table@, names(columns@), key_column@),
{
    let mut query = Query::update();
    query
        .table(Alias::new(table))
        .values(columns.iter().map(|c| (Alias::new(*c), SimpleExpr::from(0))))
        .and_where(Expr::col(Alias::new(key_column)).is(0))
        .returning_all();
    query.build(PostgresQueryBuilder).0
}

/// The SQL of sea_query's `Query::update()` with `table`, `values` (one per
/// column) and `returning_all`, and no condition, built by `PostgresQueryBuilder`.
#[verifier::external_body]
pub(crate) fn update_all_returning_sql(table: &str, columns: &Vec<&'static str>) -> (sql: String)
    requires
        columns@.len() > 0,
    ensures
        sql@ == update_all_returning_text(table@, names(columns@)),
{
    let mut query = Query::update();
    query
        .table(Alias::new(table))
        .values(columns.iter().map(|c| (Alias::new(*c), SimpleExpr::from(0))))
        .returning_all();
    query.build(PostgresQueryBuilder).0
}

/// The SQL of sea_query's `Query::select()` with `from`, `column(Asterisk)` and
/// `and_where(Expr::col(key_column).is(..))`, built by `PostgresQueryBuilder`.
#[verifier::external_body]
pub(crate) fn select_where_sql(table: &str, key_column: &str) -> (sql: String)
    ensures
        sql@ == select_where_text(table@, key_column@),
{
    let mut query = Query::select();
    query
        .from(Alias::new(table))
        .column(sea_query::Asterisk)
        .and_where(Expr::col(Alias::new(key_column)).is(0));
    query.build(PostgresQueryBuilder).0
}

/// The SQL of sea_query's `Query::select()` with `from` and
/// `and_where(Expr::col(key_column).is(..))` and no column, built by
/// `PostgresQueryBuilder`.
#[verifier::external_body]
pub(crate) fn select_nothing_where_sql(table: &str, key_column: &str) -> (sql: String)
    ensures
        sql@ == select_nothing_where_text(table@, key_column@),
{
    let mut query = Query::select();
    query.from(Alias::new(table)).and_where(Expr::col(Alias::new(key_column)).is(0));
    query.build(PostgresQueryBuilder).0
}

/// The SQL of sea_query's `Query::delete()` with `from_table` and
/// `and_where(Expr::col(key_column).is(..))`, built by `PostgresQueryBuilder`.
#[verifier::external_body]
pub(crate) fn delete_where_sql(table: &str, key_column: &str) -> (sql: String)
    ensures
        sql@ == delete_where_text(table@, key_column@),
{
    let mut query = Query::delete();
    query
        .from_table(Alias::new(table))
        .and_where(Expr::col(Alias::new(key_column)).is(0));
    query.build(PostgresQueryBuilder).0
}

/// As `delete_where_sql`, with `returning_all`.
#[verifier::external_body]
pub(crate) fn delete_where_returning_sql(table: &str, key_column: &str) -> (sql: String)
    ensures
        sql@ == delete_where_returning_text(table@, key_column@),
{
    let mut query = Query::delete();
    query
        .from_table(Alias::new(table))
        .and_where(Expr::col(Alias::new(key_column)).is(0))
        .returning_all();
    query.build(PostgresQueryBuilder).0
}

/// The SQL of sea_query's `Query::select()` from `table` with
/// `column(Asterisk)`, `join(JoinType::InnerJoin, join_table, ..)` on
/// `Expr::col((table, id_column)).equals((join_table, join_column))`, and
/// `cond_where(Expr::col((table, filter_column)).is(..))`, built by `PostgresQueryBuilder`.
#[verifier::external_body]
pub(crate) fn join_select_where_sql(
    table: &str,
    id_column: &str,
    join_table: &str,
    join_column: &str,
    filter_column: &str,
) -> (sql: String)
    ensures
        sql@ == join_select_where_text(table@, id_column@, join_table@, join_column@, filter_column@),
{
    let on = Expr::col((Alias::new(table), Alias::new(id_column)))
        .equals((Alias::new(join_table), Alias::new(join_column)));
    let mut query = Query::select();
    query
        .from(Alias::new(table))
        .column(sea_query::Asterisk)
        .join(JoinType::InnerJoin, Alias::new(join_table), on)
        .cond_where(Expr::col((Alias::new(table), Alias::new(filter_column))).is(0));
    query.build(PostgresQueryBuilder).0
}

/// As `join_select_where_sql`, with the filter written
/// `Expr::col((table, filter_column)).eq(..)`.
#[verifier::external_body]
pub(crate) fn join_select_eq_where_sql(
    table: &str,
    id_column: &str,
    join_table: &str,
    join_column: &str,
    filter_column: &str,
) -> (sql: String)
    ensures
        sql@ == join_select_eq_where_text(table@, id_column@, join_table@, join_column@, filter_column@),
{
    let on = Expr::col((Alias::new(table), Alias::new(id_column)))
        .equals((Alias::new(join_table), Alias::new(join_column)));
    let mut query = Query::select();
    query
        .from(Alias::new(table))
        .column(sea_query::Asterisk)
        .join(JoinType::InnerJoin, Alias::new(join_table), on)
        .cond_where(Expr::col((Alias::new(table), Alias::new(filter_column))).eq(0));
    query.build(PostgresQueryBuilder).0
}

/// The SQL of sea_query's `Query::select()` from `table` with
/// `column(Asterisk)`, the inner join of `join_select_where_sql`, and
/// `cond_where` of a `Condition::all()` to which `count` expressions
/// `Expr::col((join_table, filter_column)).is(..)` were added, built by
/// `PostgresQueryBuilder`.
#[verifier::external_body]
pub(crate) fn join_select_all_where_sql(
    table: &str,
    id_column: &str,
    join_table: &str,
    join_column: &str,
    filter_column: &str,
    count: usize,
) -> (sql: String)
    ensures
        sql@ == join_select_all_where_text(table@, id_column@, join_table@, join_column@, filter_column@, count as nat),
{
    let on = Expr::col((Alias::new(table), Alias::new(id_column)))
        .equals((Alias::new(join_table), Alias::new(join_column)));
    let mut cond = Condition::all();
    for _ in 0..count {
        cond = cond.add(Expr::col((Alias::new(join_table), Alias::new(filter_column))).is(0));
    }
    let mut query = Query::select();
    query.from(Alias::new(table)).column(sea_query::Asterisk).join(JoinType::InnerJoin, Alias::new(join_table), on).cond_where(cond);
    query.build(PostgresQueryBuilder).0
}

} // verus!
