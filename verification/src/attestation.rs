//! Records of the `attestations` and `attestation_examiners` tables, the
//! attestations that the rows of their join describe, and the statements of
//! their repository.

use vstd::prelude::*;
use crate::domain::attestation::{self, Duration};
use crate::domain::id::Id;
use crate::grouping::{distinct_ints, distinct_values, group_keys, group_rows, law_distinct_values, rows_with_key, GroupedRow};
use crate::query::{
    delete_where_sql, delete_where_text, insert_returning_sql, insert_returning_text, join_select_all_where_sql,
    join_select_all_where_text, join_select_where_sql, join_select_where_text, names, update_returning_sql,
    update_returning_text, SqlValue, Statement,
};

verus! {

/// A row of the `attestations` table.
#[derive(Debug, Clone, PartialEq, Eq)]
pub struct Attestations {
    pub id: i32,
    pub curriculum_module_id: i32,
    pub kind: String,
    pub duration: i32,
}

/// A row of the `attestation_examiners` table: a teacher examining an attestation.
#[derive(Debug, Clone, Copy, PartialEq, Eq, Structural)]
pub struct AttestationExaminers {
    pub attestation_id: i32,
    pub examiner_id: i32,
}

/// An attestation row joined with one of its examiner rows.
#[derive(Debug, Clone, PartialEq, Eq)]
pub struct JoinRow {
    pub attestation: Attestations,
    pub examiner: AttestationExaminers,
}

impl Attestations {
    /// A copy of the row.
    pub fn duplicate(&self) -> (copy: Attestations)
        ensures
            copy == *self,
    {
        Attestations {
            id: self.id,
            curriculum_module_id: self.curriculum_module_id,
            kind: self.kind.clone(),
            duration: self.duration,
        }
    }
}

impl GroupedRow for JoinRow {
    open spec fn group_key(&self) -> i32 {
        self.attestation.id
    }

    fn key(&self) -> (k: i32) {
        self.attestation.id
    }

    fn duplicate(&self) -> (copy: JoinRow) {
        JoinRow { attestation: self.attestation.duplicate(), examiner: self.examiner }
    }
}

/// The examining teachers of `rows`, in order.
pub open spec fn examiner_ids(rows: Seq<AttestationExaminers>) -> Seq<i32> {
    rows.map_values(|r: AttestationExaminers| r.examiner_id)
}

/// The identifiers of the integers `values`.
pub open spec fn ids_of(values: Seq<i32>) -> Seq<Id<i32>> {
    values.map_values(|v: i32| Id { value: v })
}

/// Whether `entity` is the attestation of `model`, examined by the teachers of
/// `examiners`, each once, in the order of their first row.
pub open spec fn describes(entity: attestation::Entity, model: Attestations, examiners: Seq<AttestationExaminers>) -> bool {
    &&& entity.id.value == model.id
    &&& entity.curriculum_module_id.value == model.curriculum_module_id
    &&& entity.kind == model.kind
    &&& entity.duration == Duration(model.duration)
    &&& entity.examiners@ == ids_of(distinct_values(examiner_ids(examiners)))
}

fn ids_from(values: Vec<i32>) -> (ids: Vec<Id<i32>>)
    ensures
        ids@ == ids_of(values@),
{
    let mut ids: Vec<Id<i32>> = Vec::new();
    let mut i: usize = 0;
    while i < values.len()
        invariant
            i <= values@.len(),
            ids@ == ids_of(values@.take(i as int)),
        decreases values@.len() - i,
    {
        ids.push(Id::new(values[i]));
        assert(ids_of(values@.take(i + 1)) =~= ids_of(values@.take(i as int)).push(Id { value: values@[i as int] }));
        i = i + 1;
    }
    assert(values@.take(values@.len() as int) =~= values@);
    ids
}

impl Attestations {
    /// The attestation of this row, examined by the teachers of `examiners`, each once.
    pub fn into_entity(self, examiners: Vec<AttestationExaminers>) -> (entity: attestation::Entity)
        ensures
            describes(entity, self, examiners@),
    {
        let mut teachers: Vec<i32> = Vec::new();
        let mut i: usize = 0;
        while i < examiners.len()
            invariant
                i <= examiners@.len(),
                teachers@ == examiner_ids(examiners@.take(i as int)),
            decreases examiners@.len() - i,
        {
            teachers.push(examiners[i].examiner_id);
            assert(examiner_ids(examiners@.take(i + 1)) =~= examiner_ids(examiners@.take(i as int)).push(examiners@[i as int].examiner_id));
            i = i + 1;
        }
        assert(examiners@.take(examiners@.len() as int) =~= examiners@);
        let distinct = distinct_ints(&teachers);
        attestation::Entity {
            id: Id::new(self.id),
            curriculum_module_id: Id::new(self.curriculum_module_id),
            kind: self.kind,
            duration: Duration(self.duration),
            examiners: ids_from(distinct),
        }
    }
}

/// The examiner rows of `rows`, in order.
pub open spec fn examiners_of_rows(rows: Seq<JoinRow>) -> Seq<AttestationExaminers> {
    rows.map_values(|r: JoinRow| r.examiner)
}

/// Whether `entity` is the attestation that `rows`, the rows of one attestation, describe.
pub open spec fn describes_rows(entity: attestation::Entity, rows: Seq<JoinRow>) -> bool {
    &&& rows.len() > 0
    &&& describes(entity, rows[0].attestation, examiners_of_rows(rows))
}

/// The attestation that the rows of one attestation's join describe: the
/// attestation of the first row, examined by the teachers of all rows. There
/// is none for no rows.
pub fn entity_from_select(select: Vec<JoinRow>) -> (entity: Option<attestation::Entity>)
    ensures
        select@.len() == 0 <==> entity is None,
        entity matches Some(e) ==> describes(e, select@[0].attestation, examiners_of_rows(select@)),
{
    if select.len() == 0 {
        return None;
    }
    let first = select[0].attestation.duplicate();
    let mut examiners: Vec<AttestationExaminers> = Vec::new();
    let mut i: usize = 0;
    while i < select.len()
        invariant
            i <= select@.len(),
            examiners@ == examiners_of_rows(select@.take(i as int)),
        decreases select@.len() - i,
    {
        examiners.push(select[i].examiner);
        assert(examiners_of_rows(select@.take(i + 1)) =~= examiners_of_rows(select@.take(i as int)).push(select@[i as int].examiner));
        i = i + 1;
    }
    assert(select@.take(select@.len() as int) =~= select@);
    Some(first.into_entity(examiners))
}

/// The attestations that the rows of a join of several attestations describe:
/// one per attestation, in the order of each attestation's first row, built
/// from that attestation's rows.
pub fn entities_from_select(rows: Vec<JoinRow>) -> (entities: Vec<attestation::Entity>)
    ensures
        entities@.len() == group_keys(rows@).len(),
        forall|k: int| 0 <= k < entities@.len()
            ==> describes_rows(#[trigger] entities@[k], rows_with_key(rows@, group_keys(rows@)[k])),
{
    let groups = group_rows(&rows);
    let ghost all = groups@;
    let mut entities: Vec<attestation::Entity> = Vec::new();
    for group in it: groups.into_iter()
        invariant
            it.seq() == all,
            all.len() == group_keys(rows@).len(),
            forall|k: int| 0 <= k < all.len() ==> (#[trigger] all[k])@ == rows_with_key(rows@, group_keys(rows@)[k]),
            forall|k: int| 0 <= k < all.len() ==> (#[trigger] all[k])@.len() > 0,
            entities@.len() == it.index(),
            forall|m: int| 0 <= m < it.index()
                ==> describes_rows(#[trigger] entities@[m], rows_with_key(rows@, group_keys(rows@)[m])),
    {
        let ghost k = it.index() as int;
        assert(group == all[k]);
        let ghost before = entities@;
        match entity_from_select(group) {
            Some(entity) => entities.push(entity),
            None => {
                assert(all[k]@.len() > 0);
                assert(false);
            },
        }
        assert forall|m: int| 0 <= m < k + 1
            implies describes_rows(#[trigger] entities@[m], rows_with_key(rows@, group_keys(rows@)[m])) by {
            if m < k {
                assert(entities@[m] == before[m]);
            }
        }
    }
    entities
}

/// The name of the attestations table.
pub const TABLE: &'static str = "attestations";

/// The name of the table of the examiners of attestations.
pub const EXAMINERS_TABLE: &'static str = "attestation_examiners";

/// The columns that saving an attestation writes, in order.
pub open spec fn saved_columns() -> Seq<Seq<char>> {
    seq!["curriculum_module_id"@, "kind"@, "duration"@]
}

/// The values that saving `entity` writes, in column order.
pub open spec fn saved_values(entity: attestation::Entity) -> Seq<SqlValue> {
    seq![
        SqlValue::Int(entity.curriculum_module_id.value),
        SqlValue::Text(entity.kind),
        SqlValue::Int(entity.duration.0),
    ]
}

fn saved_columns_vec() -> (columns: Vec<&'static str>)
    ensures
        columns@.len() == 3,
        names(columns@) == saved_columns(),
{
    let columns: Vec<&'static str> = vec!["curriculum_module_id", "kind", "duration"];
    assert(names(columns@) =~= saved_columns());
    columns
}

/// Inserts an attestation: its columns but the identifier, `RETURNING *`.
pub fn insert_statement(entity: &attestation::Entity) -> (stmt: Statement)
    ensures
        stmt.sql@ == insert_returning_text("attestations"@, saved_columns()),
        stmt.params@ == saved_values(*entity),
{
    let sql = insert_returning_sql(TABLE, &saved_columns_vec());
    let params = vec![
        SqlValue::Int(entity.curriculum_module_id.value),
        SqlValue::Text(entity.kind.clone()),
        SqlValue::Int(entity.duration.0),
    ];
    Statement { sql, params }
}

/// Updates attestation `entity.id`: its columns, then the identifier, `RETURNING *`.
pub fn update_statement(entity: &attestation::Entity) -> (stmt: Statement)
    ensures
        stmt.sql@ == update_returning_text("attestations"@, saved_columns(), "id"@),
        stmt.params@ == saved_values(*entity).push(SqlValue::Int(entity.id.value)),
{
    let sql = update_returning_sql(TABLE, &saved_columns_vec(), "id");
    let params = vec![
        SqlValue::Int(entity.curriculum_module_id.value),
        SqlValue::Text(entity.kind.clone()),
        SqlValue::Int(entity.duration.0),
        SqlValue::Int(entity.id.value),
    ];
    assert(params@ =~= saved_values(*entity).push(SqlValue::Int(entity.id.value)));
    Statement { sql, params }
}

/// Selects the join of attestation `id` with its examiners.
pub fn find_statement(id: Id<i32>) -> (stmt: Statement)
    ensures
        stmt.sql@ == join_select_where_text("attestations"@, "id"@, "attestation_examiners"@, "attestation_id"@, "id"@),
        stmt.params@ == seq![SqlValue::Int(id.value)],
{
    let sql = join_select_where_sql(TABLE, "id", EXAMINERS_TABLE, "attestation_id", "id");
    Statement { sql, params: vec![SqlValue::Int(id.value)] }
}

/// Selects the join of the attestation of curriculum module
/// `curriculum_module_id` with its examiners.
pub fn find_by_curriculum_module_statement(curriculum_module_id: Id<i32>) -> (stmt: Statement)
    ensures
        stmt.sql@ == join_select_where_text(
            "attestations"@,
            "id"@,
            "attestation_examiners"@,
            "attestation_id"@,
            "curriculum_module_id"@,
        ),
        stmt.params@ == seq![SqlValue::Int(curriculum_module_id.value)],
{
    let sql = join_select_where_sql(TABLE, "id", EXAMINERS_TABLE, "attestation_id", "curriculum_module_id");
    Statement { sql, params: vec![SqlValue::Int(curriculum_module_id.value)] }
}

/// Selects the join of the attestations with their examiners, keeping the
/// join rows whose examiner is each of `examiners` at once.
pub fn list_by_examiners_statement(examiners: &Vec<Id<i32>>) -> (stmt: Statement)
    ensures
        stmt.sql@ == join_select_all_where_text(
            "attestations"@,
            "id"@,
            "attestation_examiners"@,
            "attestation_id"@,
            "examiner_id"@,
            examiners@.len(),
        ),
        stmt.params@ == examiners@.map_values(|e: Id<i32>| SqlValue::Int(e.value)),
{
    let sql = join_select_all_where_sql(TABLE, "id", EXAMINERS_TABLE, "attestation_id", "examiner_id", examiners.len());
    let mut params: Vec<SqlValue> = Vec::new();
    let mut i: usize = 0;
    while i < examiners.len()
        invariant
            i <= examiners@.len(),
            params@ == examiners@.take(i as int).map_values(|e: Id<i32>| SqlValue::Int(e.value)),
        decreases examiners@.len() - i,
    {
        params.push(SqlValue::Int(examiners[i].value));
        assert(examiners@.take(i + 1).map_values(|e: Id<i32>| SqlValue::Int(e.value))
            =~= examiners@.take(i as int).map_values(|e: Id<i32>| SqlValue::Int(e.value)).push(SqlValue::Int(examiners@[i as int].value)));
        i = i + 1;
    }
    assert(examiners@.take(examiners@.len() as int) =~= examiners@);
    Statement { sql, params }
}

/// Deletes attestation `entity.id`.
pub fn delete_statement(entity: &attestation::Entity) -> (stmt: Statement)
    ensures
        stmt.sql@ == delete_where_text("attestations"@, "id"@),
        stmt.params@ == seq![SqlValue::Int(entity.id.value)],
{
    let sql = delete_where_sql(TABLE, "id");
    Statement { sql, params: vec![SqlValue::Int(entity.id.value)] }
}

/// Deletes the examiners of attestation `id`.
pub fn delete_examiners_statement(id: i32) -> (stmt: Statement)
    ensures
        stmt.sql@ == delete_where_text("attestation_examiners"@, "attestation_id"@),
        stmt.params@ == seq![SqlValue::Int(id)],
{
    let sql = delete_where_sql(EXAMINERS_TABLE, "attestation_id");
    Statement { sql, params: vec![SqlValue::Int(id)] }
}

/// Makes teacher `examiner` an examiner of attestation `id`, `RETURNING *`.
pub fn insert_examiner_statement(id: i32, examiner: Id<i32>) -> (stmt: Statement)
    ensures
        stmt.sql@ == insert_returning_text("attestation_examiners"@, seq!["attestation_id"@, "examiner_id"@]),
        stmt.params@ == seq![SqlValue::Int(id), SqlValue::Int(examiner.value)],
{
    let columns: Vec<&'static str> = vec!["attestation_id", "examiner_id"];
    let sql = insert_returning_sql(EXAMINERS_TABLE, &columns);
    assert(names(columns@) =~= seq!["attestation_id"@, "examiner_id"@]);
    Statement { sql, params: vec![SqlValue::Int(id), SqlValue::Int(examiner.value)] }
}

/// An attestation built from the join rows of one attestation carries the
/// first row's identifier, curriculum module, kind and duration, and is
/// examined by teacher `e` exactly when some row's examiner is `e`, each
/// examiner once.
pub proof fn law_attestation_from_join_rows(entity: attestation::Entity, rows: Seq<JoinRow>)
    requires
        describes_rows(entity, rows),
    ensures
        entity.id.value == rows[0].attestation.id,
        entity.curriculum_module_id.value == rows[0].attestation.curriculum_module_id,
        entity.kind == rows[0].attestation.kind,
        entity.duration.0 == rows[0].attestation.duration,
        forall|e: Id<i32>| entity.examiners@.contains(e) <==> exists|k: int|
            0 <= k < rows.len() && (#[trigger] rows[k]).examiner.examiner_id == e.value,
        forall|i: int, j: int| 0 <= i < j < entity.examiners@.len() ==> entity.examiners@[i] != entity.examiners@[j],
{
    let ids = examiner_ids(examiners_of_rows(rows));
    let d = distinct_values(ids);
    law_distinct_values(ids);
    assert forall|e: Id<i32>| entity.examiners@.contains(e) <==> exists|k: int|
        0 <= k < rows.len() && (#[trigger] rows[k]).examiner.examiner_id == e.value by {
        if entity.examiners@.contains(e) {
            let i = choose|i: int| 0 <= i < entity.examiners@.len() && entity.examiners@[i] == e;
            assert(entity.examiners@[i].value == d[i]);
            assert(d.contains(d[i]));
            assert(ids.contains(d[i]));
            let k = choose|k: int| 0 <= k < ids.len() && ids[k] == d[i];
            assert(examiners_of_rows(rows)[k] == rows[k].examiner);
            assert(ids[k] == rows[k].examiner.examiner_id);
        }
        if exists|k: int| 0 <= k < rows.len() && (#[trigger] rows[k]).examiner.examiner_id == e.value {
            let k = choose|k: int| 0 <= k < rows.len() && (#[trigger] rows[k]).examiner.examiner_id == e.value;
            assert(examiners_of_rows(rows)[k] == rows[k].examiner);
            assert(ids[k] == e.value);
            assert(ids.contains(e.value));
            let i = choose|i: int| 0 <= i < d.len() && d[i] == e.value;
            assert(entity.examiners@[i] == e);
        }
    }
    assert forall|i: int, j: int| 0 <= i < j < entity.examiners@.len() implies entity.examiners@[i] != entity.examiners@[j] by {
        assert(entity.examiners@[i].value == d[i] && entity.examiners@[j].value == d[j]);
    }
}

/// Saving an attestation binds its curriculum module, the text of its kind
/// and its duration, in column order.
pub proof fn law_attestation_saved_values(entity: attestation::Entity)
    ensures
        saved_values(entity).len() == 3,
        saved_values(entity)[0] == SqlValue::Int(entity.curriculum_module_id.value),
        saved_values(entity)[1] == SqlValue::Text(entity.kind),
        saved_values(entity)[2] == SqlValue::Int(entity.duration.0),
{
}

} // verus!
