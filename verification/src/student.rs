//! Records of the `students` and `student_attestations` tables, the students
//! that the rows of their join describe, and the statements of their
//! repository.

use vstd::prelude::*;
use crate::domain::id::Id;
use crate::domain::student::{self, StudentAttestation};
use crate::grouping::{distinct_pairs, distinct_values, group_keys, group_rows, law_distinct_values, rows_with_key, GroupedRow};
use crate::query::{
    delete_where_sql, delete_where_text, insert_returning_sql, insert_returning_text, join_select_all_where_sql,
    join_select_all_where_text, join_select_eq_where_sql, join_select_eq_where_text, join_select_where_sql,
    join_select_where_text, names, update_returning_sql, update_returning_text, SqlValue, Statement,
};

verus! {

/// A row of the `students` table.
#[derive(Debug, Clone, Copy, PartialEq, Eq, Structural)]
pub struct Students {
    pub id: i32,
    pub person_id: i32,
    pub study_group_id: i32,
}

/// A row of the `student_attestations` table: a score of a student.
#[derive(Debug, Clone, Copy, PartialEq, Eq, Structural)]
pub struct StudentAttestations {
    pub student_id: i32,
    pub attestation_id: i32,
    pub score: i32,
}

/// A student row joined with one of its score rows.
#[derive(Debug, Clone, Copy, PartialEq, Eq, Structural)]
pub struct JoinRow {
    pub student: Students,
    pub attestation: StudentAttestations,
}

impl GroupedRow for JoinRow {
    open spec fn group_key(&self) -> i32 {
        self.student.id
    }

    fn key(&self) -> (k: i32) {
        self.student.id
    }

    fn duplicate(&self) -> (copy: JoinRow) {
        *self
    }
}

/// The attestation and score of each row of `rows`, in order.
pub open spec fn scores_of(rows: Seq<StudentAttestations>) -> Seq<(i32, i32)> {
    rows.map_values(|r: StudentAttestations| (r.attestation_id, r.score))
}

/// The scores that the pairs `pairs` of attestation and score stand for.
pub open spec fn attestations_of(pairs: Seq<(i32, i32)>) -> Seq<StudentAttestation> {
    pairs.map_values(|p: (i32, i32)| StudentAttestation { attestation_id: Id { value: p.0 }, score: p.1 })
}

/// Whether `entity` is the student of `model`, with the scores of
/// `attestations`, each once, in the order of their first row.
pub open spec fn describes(entity: student::Entity, model: Students, attestations: Seq<StudentAttestations>) -> bool {
    &&& entity.id.value == model.id
    &&& entity.person_id.value == model.person_id
    &&& entity.study_group_id.value == model.study_group_id
    &&& entity.attestations@ == attestations_of(distinct_values(scores_of(attestations)))
}

fn attestations_from(pairs: Vec<(i32, i32)>) -> (scores: Vec<StudentAttestation>)
    ensures
        scores@ == attestations_of(pairs@),
{
    let mut scores: Vec<StudentAttestation> = Vec::new();
    let mut i: usize = 0;
    while i < pairs.len()
        invariant
            i <= pairs@.len(),
            scores@ == attestations_of(pairs@.take(i as int)),
        decreases pairs@.len() - i,
    {
        let pair = pairs[i];
        scores.push(StudentAttestation { attestation_id: Id::new(pair.0), score: pair.1 });
        assert(attestations_of(pairs@.take(i + 1)) =~= attestations_of(pairs@.take(i as int)).push(
            StudentAttestation { attestation_id: Id { value: pair.0 }, score: pair.1 },
        ));
        i = i + 1;
    }
    assert(pairs@.take(pairs@.len() as int) =~= pairs@);
    scores
}

impl Students {
    /// The student of this row, with the scores of `attestations`, each once.
    pub fn into_entity(self, attestations: Vec<StudentAttestations>) -> (entity: student::Entity)
        ensures
            describes(entity, self, attestations@),
    {
        let mut pairs: Vec<(i32, i32)> = Vec::new();
        let mut i: usize = 0;
        while i < attestations.len()
            invariant
                i <= attestations@.len(),
                pairs@ == scores_of(attestations@.take(i as int)),
            decreases attestations@.len() - i,
        {
            let row = attestations[i];
            pairs.push((row.attestation_id, row.score));
            assert(scores_of(attestations@.take(i + 1)) =~= scores_of(attestations@.take(i as int)).push((row.attestation_id, row.score)));
            i = i + 1;
        }
        assert(attestations@.take(attestations@.len() as int) =~= attestations@);
        let distinct = distinct_pairs(&pairs);
        student::Entity {
            id: Id::new(self.id),
            person_id: Id::new(self.person_id),
            study_group_id: Id::new(self.study_group_id),
            attestations: attestations_from(distinct),
        }
    }
}

/// The score rows of `rows`, in order.
pub open spec fn attestations_of_rows(rows: Seq<JoinRow>) -> Seq<StudentAttestations> {
    rows.map_values(|r: JoinRow| r.attestation)
}

/// Whether `entity` is the student that `rows`, the rows of one student, describe.
pub open spec fn describes_rows(entity: student::Entity, rows: Seq<JoinRow>) -> bool {
    &&& rows.len() > 0
    &&& describes(entity, rows[0].student, attestations_of_rows(rows))
}

/// The student that the rows of one student's join describe: the student of
/// the first row, with the scores of all rows. There is none for no rows.
pub fn entity_from_select(select: Vec<JoinRow>) -> (entity: Option<student::Entity>)
    ensures
        select@.len() == 0 <==> entity is None,
        entity matches Some(e) ==> describes(e, select@[0].student, attestations_of_rows(select@)),
{
    if select.len() == 0 {
        return None;
    }
    let first = select[0].student;
    let mut attestations: Vec<StudentAttestations> = Vec::new();
    let mut i: usize = 0;
    while i < select.len()
        invariant
            i <= select@.len(),
            attestations@ == attestations_of_rows(select@.take(i as int)),
        decreases select@.len() - i,
    {
        attestations.push(select[i].attestation);
        assert(attestations_of_rows(select@.take(i + 1)) =~= attestations_of_rows(select@.take(i as int)).push(select@[i as int].attestation));
        i = i + 1;
    }
    assert(select@.take(select@.len() as int) =~= select@);
    Some(first.into_entity(attestations))
}
/// The students that the rows of a join of several students describe:
/// one per student, in the order of each student's first row, built from
/// that student's rows.
pub fn entities_from_select(rows: Vec<JoinRow>) -> (entities: Vec<student::Entity>)
    ensures
        entities@.len() == group_keys(rows@).len(),
        forall|k: int| 0 <= k < entities@.len()
            ==> describes_rows(#[trigger] entities@[k], rows_with_key(rows@, group_keys(rows@)[k])),
{
    let groups = group_rows(&rows);
    let ghost all = groups@;
    let mut entities: Vec<student::Entity> = Vec::new();
    for group in it: groups.into_iter()
        invariant
            it.seq() == all,
            all.len() == group_keys(rows@).len(),
            forall|k: int| 0 <= k < all.len() ==> (#[trigger] all[k])@ == rows_with_key(rows@, group_keys(rows@)[k]),
            forall|k: int| 0 <= k < all.len() ==> (#[trigger] all[k])@.len() > 0,
            entities@.len() == it.index(),
            forall|m: int| 0 <= m < it.index()
                ==> describes_rows(#[trigger] entities@[m], rows_with_key(rows@, group_keys(rows@)[m])),
    {
        let ghost k = it.index() as int;
        assert(group == all[k]);
        let ghost before = entities@;
        match entity_from_select(group) {
            Some(entity) => entities.push(entity),
            None => {
                assert(all[k]@.len() > 0);
                assert(false);
            },
        }
        assert forall|m: int| 0 <= m < k + 1
            implies describes_rows(#[trigger] entities@[m], rows_with_key(rows@, group_keys(rows@)[m])) by {
            if m < k {
                assert(entities@[m] == before[m]);
            }
        }
    }
    entities
}

/// The name of the students table.
pub const TABLE: &'static str = "students";

/// The name of the table of the scores of students.
pub const ATTESTATIONS_TABLE: &'static str = "student_attestations";

/// The columns that saving a student writes, in order.
pub open spec fn saved_columns() -> Seq<Seq<char>> {
    seq!["person_id"@, "study_group_id"@]
}

fn saved_columns_vec() -> (columns: Vec<&'static str>)
    ensures
        columns@.len() == 2,
        names(columns@) == saved_columns(),
{
    let columns: Vec<&'static str> = vec!["person_id", "study_group_id"];
    assert(names(columns@) =~= saved_columns());
    columns
}

/// Inserts a student: its columns but the identifier, `RETURNING *`.
pub fn insert_statement(entity: &student::Entity) -> (stmt: Statement)
    ensures
        stmt.sql@ == insert_returning_text("students"@, saved_columns()),
        stmt.params@ == seq![SqlValue::Int(entity.person_id.value), SqlValue::Int(entity.study_group_id.value)],
{
    let sql = insert_returning_sql(TABLE, &saved_columns_vec());
    Statement { sql, params: vec![SqlValue::Int(entity.person_id.value), SqlValue::Int(entity.study_group_id.value)] }
}

/// Updates student `entity.id`: its columns, then the identifier, `RETURNING *`.
pub fn update_statement(entity: &student::Entity) -> (stmt: Statement)
    ensures
        stmt.sql@ == update_returning_text("students"@, saved_columns(), "id"@),
        stmt.params@ == seq![
            SqlValue::Int(entity.person_id.value),
            SqlValue::Int(entity.study_group_id.value),
            SqlValue::Int(entity.id.value),
        ],
{
    let sql = update_returning_sql(TABLE, &saved_columns_vec(), "id");
    let params = vec![
        SqlValue::Int(entity.person_id.value),
        SqlValue::Int(entity.study_group_id.value),
        SqlValue::Int(entity.id.value),
    ];
    Statement { sql, params }
}

/// Selects the join of student `id` with its scores.
pub fn find_statement(id: Id<i32>) -> (stmt: Statement)
    ensures
        stmt.sql@ == join_select_where_text("students"@, "id"@, "student_attestations"@, "student_id"@, "id"@),
        stmt.params@ == seq![SqlValue::Int(id.value)],
{
    let sql = join_select_where_sql(TABLE, "id", ATTESTATIONS_TABLE, "student_id", "id");
    Statement { sql, params: vec![SqlValue::Int(id.value)] }
}

/// Selects the join of the students of person `person_id` with their scores.
pub fn list_by_person_statement(person_id: Id<i32>) -> (stmt: Statement)
    ensures
        stmt.sql@ == join_select_eq_where_text("students"@, "id"@, "student_attestations"@, "student_id"@, "person_id"@),
        stmt.params@ == seq![SqlValue::Int(person_id.value)],
{
    let sql = join_select_eq_where_sql(TABLE, "id", ATTESTATIONS_TABLE, "student_id", "person_id");
    Statement { sql, params: vec![SqlValue::Int(person_id.value)] }
}

/// Selects the join of the students of study group `study_group_id` with their scores.
pub fn list_by_study_group_statement(study_group_id: Id<i32>) -> (stmt: Statement)
    ensures
        stmt.sql@ == join_select_eq_where_text(
            "students"@,
            "id"@,
            "student_attestations"@,
            "student_id"@,
            "study_group_id"@,
        ),
        stmt.params@ == seq![SqlValue::Int(study_group_id.value)],
{
    let sql = join_select_eq_where_sql(TABLE, "id", ATTESTATIONS_TABLE, "student_id", "study_group_id");
    Statement { sql, params: vec![SqlValue::Int(study_group_id.value)] }
}

/// Selects the join of the students with their scores, keeping the join rows
/// whose attestation is each of `attestations` at once.
pub fn list_by_attestations_statement(attestations: &Vec<Id<i32>>) -> (stmt: Statement)
    ensures
        stmt.sql@ == join_select_all_where_text(
            "students"@,
            "id"@,
            "student_attestations"@,
            "student_id"@,
            "attestation_id"@,
            attestations@.len(),
        ),
        stmt.params@ == attestations@.map_values(|a: Id<i32>| SqlValue::Int(a.value)),
{
    let sql = join_select_all_where_sql(TABLE, "id", ATTESTATIONS_TABLE, "student_id", "attestation_id", attestations.len());
    let mut params: Vec<SqlValue> = Vec::new();
    let mut i: usize = 0;
    while i < attestations.len()
        invariant
            i <= attestations@.len(),
            params@ == attestations@.take(i as int).map_values(|a: Id<i32>| SqlValue::Int(a.value)),
        decreases attestations@.len() - i,
    {
        params.push(SqlValue::Int(attestations[i].value));
        assert(attestations@.take(i + 1).map_values(|a: Id<i32>| SqlValue::Int(a.value))
            =~= attestations@.take(i as int).map_values(|a: Id<i32>| SqlValue::Int(a.value)).push(SqlValue::Int(attestations@[i as int].value)));
        i = i + 1;
    }
    assert(attestations@.take(attestations@.len() as int) =~= attestations@);
    Statement { sql, params }
}

/// Deletes student `entity.id`.
pub fn delete_statement(entity: &student::Entity) -> (stmt: Statement)
    ensures
        stmt.sql@ == delete_where_text("students"@, "id"@),
        stmt.params@ == seq![SqlValue::Int(entity.id.value)],
{
    let sql = delete_where_sql(TABLE, "id");
    Statement { sql, params: vec![SqlValue::Int(entity.id.value)] }
}

/// Deletes the scores of student `id`.
pub fn delete_attestations_statement(id: i32) -> (stmt: Statement)
    ensures
        stmt.sql@ == delete_where_text("student_attestations"@, "student_id"@),
        stmt.params@ == seq![SqlValue::Int(id)],
{
    let sql = delete_where_sql(ATTESTATIONS_TABLE, "student_id");
    Statement { sql, params: vec![SqlValue::Int(id)] }
}

/// Records score `a` of student `student_id`, `RETURNING *`.
pub fn insert_attestation_statement(student_id: i32, a: &StudentAttestation) -> (stmt: Statement)
    ensures
        stmt.sql@ == insert_returning_text("student_attestations"@, seq!["student_id"@, "attestation_id"@, "score"@]),
        stmt.params@ == seq![SqlValue::Int(student_id), SqlValue::Int(a.attestation_id.value), SqlValue::Int(a.score)],
{
    let columns: Vec<&'static str> = vec!["student_id", "attestation_id", "score"];
    let sql = insert_returning_sql(ATTESTATIONS_TABLE, &columns);
    assert(names(columns@) =~= seq!["student_id"@, "attestation_id"@, "score"@]);
    Statement { sql, params: vec![SqlValue::Int(student_id), SqlValue::Int(a.attestation_id.value), SqlValue::Int(a.score)] }
}

/// A student built from the join rows of one student carries the first row's
/// identifier, person and study group, and holds the score `a` exactly when
/// some row's score row has `a`'s attestation and score, each score once.
pub proof fn law_student_from_join_rows(entity: student::Entity, rows: Seq<JoinRow>)
    requires
        describes_rows(entity, rows),
    ensures
        entity.id.value == rows[0].student.id,
        entity.person_id.value == rows[0].student.person_id,
        entity.study_group_id.value == rows[0].student.study_group_id,
        forall|a: StudentAttestation| entity.attestations@.contains(a) <==> exists|k: int|
            0 <= k < rows.len() && (#[trigger] rows[k]).attestation.attestation_id == a.attestation_id.value
                && rows[k].attestation.score == a.score,
        forall|i: int, j: int|
            0 <= i < j < entity.attestations@.len() ==> entity.attestations@[i] != entity.attestations@[j],
{
    let pairs = scores_of(attestations_of_rows(rows));
    let d = distinct_values(pairs);
    law_distinct_values(pairs);
    assert forall|a: StudentAttestation| entity.attestations@.contains(a) <==> exists|k: int|
        0 <= k < rows.len() && (#[trigger] rows[k]).attestation.attestation_id == a.attestation_id.value
            && rows[k].attestation.score == a.score by {
        if entity.attestations@.contains(a) {
            let i = choose|i: int| 0 <= i < entity.attestations@.len() && entity.attestations@[i] == a;
            assert(entity.attestations@[i].attestation_id.value == d[i].0 && entity.attestations@[i].score == d[i].1);
            assert(d.contains(d[i]));
            assert(pairs.contains(d[i]));
            let k = choose|k: int| 0 <= k < pairs.len() && pairs[k] == d[i];
            assert(attestations_of_rows(rows)[k] == rows[k].attestation);
        }
        if exists|k: int| 0 <= k < rows.len() && (#[trigger] rows[k]).attestation.attestation_id == a.attestation_id.value
            && rows[k].attestation.score == a.score {
            let k = choose|k: int| 0 <= k < rows.len() && (#[trigger] rows[k]).attestation.attestation_id
                == a.attestation_id.value && rows[k].attestation.score == a.score;
            assert(attestations_of_rows(rows)[k] == rows[k].attestation);
            assert(pairs[k] == (a.attestation_id.value, a.score));
            assert(pairs.contains(pairs[k]));
            let i = choose|i: int| 0 <= i < d.len() && d[i] == pairs[k];
            assert(entity.attestations@[i] == a);
        }
    }
    assert forall|i: int, j: int| 0 <= i < j < entity.attestations@.len()
        implies entity.attestations@[i] != entity.attestations@[j] by {
        assert(entity.attestations@[i].attestation_id.value == d[i].0 && entity.attestations@[i].score == d[i].1);
        assert(entity.attestations@[j].attestation_id.value == d[j].0 && entity.attestations@[j].score == d[j].1);
    }
}

} // verus!
