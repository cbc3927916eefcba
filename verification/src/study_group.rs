//! Records of the `study_groups` and `study_group_curriculums` tables, and the
//! statements of their repository.

use vstd::prelude::*;
use crate::domain::id::Id;
use crate::domain::study_group::{self, Qualification, TrainingKind};
use crate::query::{
    delete_where_returning_sql, delete_where_returning_text, insert_returning_sql, insert_returning_text, names,
    select_where_sql, select_where_text, update_returning_sql, update_returning_text, SqlValue, Statement,
};

verus! {

#[derive(Debug, Clone, PartialEq, Eq)]
pub struct StudyGroups {
    pub id: i32,
    pub name: String,
    pub studying_qualification: PgQualification,
    pub training_kind: PgTrainingKind,
    pub department_id: i32,
}

/// A study group row joined with one of its curriculum rows.
#[derive(Debug, Clone, PartialEq, Eq)]
pub struct JoinRow {
    pub study_group: StudyGroups,
    pub curriculum: StudyGroupCurriculums,
}

/// A curriculum that a study group studies by.
#[derive(Debug, Clone, Copy, PartialEq, Eq, Structural)]
pub struct StudyGroupCurriculums {
    pub study_group_id: i32,
    pub curriculum_id: i32,
}

impl StudyGroups {
    /// The study group of this row, studying by the curricula of `curriculums`, in order.
    pub fn into_entity(self, curriculums: Vec<StudyGroupCurriculums>) -> (entity: study_group::Entity)
        ensures
            entity.id.value == self.id,
            entity.name == self.name,
            entity.studying_qualification == qualification_of(self.studying_qualification),
            entity.training_kind == training_kind_of(self.training_kind),
            entity.department_id.value == self.department_id,
            entity.curriculums@.len() == curriculums@.len(),
            forall|i: int| 0 <= i < curriculums@.len()
                ==> (#[trigger] entity.curriculums@[i]).value == curriculums@[i].curriculum_id,
    {
        let mut ids: Vec<Id<i32>> = Vec::new();
        let mut i: usize = 0;
        while i < curriculums.len()
            invariant
                i <= curriculums@.len(),
                ids@.len() == i,
                forall|j: int| 0 <= j < i ==> (#[trigger] ids@[j]).value == curriculums@[j].curriculum_id,
            decreases curriculums@.len() - i,
        {
            ids.push(Id::new(curriculums[i].curriculum_id));
            i = i + 1;
        }
        study_group::Entity {
            id: Id::new(self.id),
            name: self.name,
            studying_qualification: Qualification::from(self.studying_qualification),
            training_kind: TrainingKind::from(self.training_kind),
            department_id: Id::new(self.department_id),
            curriculums: ids,
        }
    }
}

/// The `qualification` column type.
#[derive(Debug, Clone, Copy, PartialEq, Eq, Structural)]
pub enum PgQualification {
    Bachelor,
    Master,
    Postgraduate,
    Doctorate,
}

pub open spec fn pg_qualification_name(q: PgQualification) -> Seq<char> {
    match q {
        PgQualification::Doctorate => "doctorate"@,
        PgQualification::Master => "master"@,
        PgQualification::Postgraduate => "postgraduate"@,
        PgQualification::Bachelor => "bachelor"@,
    }
}

impl PgQualification {
    pub fn to_string(&self) -> (text: String)
        ensures
            text@ == pg_qualification_name(*self),
    {
        match self {
            PgQualification::Doctorate => {
                proof { reveal_strlit("doctorate"); }
                String::from_str("doctorate")
            },
            PgQualification::Master => {
                proof { reveal_strlit("master"); }
                String::from_str("master")
            },
            PgQualification::Postgraduate => {
                proof { reveal_strlit("postgraduate"); }
                String::from_str("postgraduate")
            },
            PgQualification::Bachelor => {
                proof { reveal_strlit("bachelor"); }
                String::from_str("bachelor")
            },
        }
    }
}

/// The `training_kind` column type.
#[derive(Debug, Clone, Copy, PartialEq, Eq, Structural)]
pub enum PgTrainingKind {
    FullTime,
    Correspondence,
}

pub open spec fn pg_training_kind_name(k: PgTrainingKind) -> Seq<char> {
    match k {
        PgTrainingKind::FullTime => "full_time"@,
        PgTrainingKind::Correspondence => "correspondence"@,
    }
}

impl PgTrainingKind {
    pub fn to_string(&self) -> (text: String)
        ensures
            text@ == pg_training_kind_name(*self),
    {
        match self {
            PgTrainingKind::FullTime => {
                proof { reveal_strlit("full_time"); }
                String::from_str("full_time")
            },
            PgTrainingKind::Correspondence => {
                proof { reveal_strlit("correspondence"); }
                String::from_str("correspondence")
            },
        }
    }
}

pub open spec fn pg_qualification_of(q: Qualification) -> PgQualification {
    match q {
        Qualification::Doctorate => PgQualification::Doctorate,
        Qualification::Master => PgQualification::Master,
        Qualification::Postgraduate => PgQualification::Postgraduate,
        Qualification::Bachelor => PgQualification::Bachelor,
    }
}

pub open spec fn qualification_of(q: PgQualification) -> Qualification {
    match q {
        PgQualification::Doctorate => Qualification::Doctorate,
        PgQualification::Master => Qualification::Master,
        PgQualification::Postgraduate => Qualification::Postgraduate,
        PgQualification::Bachelor => Qualification::Bachelor,
    }
}

pub open spec fn pg_training_kind_of(k: TrainingKind) -> PgTrainingKind {
    match k {
        TrainingKind::FullTime => PgTrainingKind::FullTime,
        TrainingKind::Correspondence => PgTrainingKind::Correspondence,
    }
}

pub open spec fn training_kind_of(k: PgTrainingKind) -> TrainingKind {
    match k {
        PgTrainingKind::FullTime => TrainingKind::FullTime,
        PgTrainingKind::Correspondence => TrainingKind::Correspondence,
    }
}

impl From<Qualification> for PgQualification {
    fn from(value: Qualification) -> (q: PgQualification) {
        match value {
            Qualification::Doctorate => PgQualification::Doctorate,
            Qualification::Master => PgQualification::Master,
            Qualification::Postgraduate => PgQualification::Postgraduate,
            Qualification::Bachelor => PgQualification::Bachelor,
        }
    }
}

impl vstd::std_specs::convert::FromSpecImpl<Qualification> for PgQualification {
    open spec fn obeys_from_spec() -> bool {
        true
    }

    open spec fn from_spec(value: Qualification) -> PgQualification {
        pg_qualification_of(value)
    }
}

impl From<TrainingKind> for PgTrainingKind {
    fn from(value: TrainingKind) -> (k: PgTrainingKind) {
        match value {
            TrainingKind::FullTime => PgTrainingKind::FullTime,
            TrainingKind::Correspondence => PgTrainingKind::Correspondence,
        }
    }
}

impl vstd::std_specs::convert::FromSpecImpl<TrainingKind> for PgTrainingKind {
    open spec fn obeys_from_spec() -> bool {
        true
    }

    open spec fn from_spec(value: TrainingKind) -> PgTrainingKind {
        pg_training_kind_of(value)
    }
}

impl From<PgQualification> for Qualification {
    fn from(value: PgQualification) -> (q: Qualification) {
        match value {
            PgQualification::Doctorate => Qualification::Doctorate,
            PgQualification::Master => Qualification::Master,
            PgQualification::Postgraduate => Qualification::Postgraduate,
            PgQualification::Bachelor => Qualification::Bachelor,
        }
    }
}

impl vstd::std_specs::convert::FromSpecImpl<PgQualification> for Qualification {
    open spec fn obeys_from_spec() -> bool {
        true
    }

    open spec fn from_spec(value: PgQualification) -> Qualification {
        qualification_of(value)
    }
}

impl From<PgTrainingKind> for TrainingKind {
    fn from(value: PgTrainingKind) -> (k: TrainingKind) {
        match value {
            PgTrainingKind::FullTime => TrainingKind::FullTime,
            PgTrainingKind::Correspondence => TrainingKind::Correspondence,
        }
    }
}

impl vstd::std_specs::convert::FromSpecImpl<PgTrainingKind> for TrainingKind {
    open spec fn obeys_from_spec() -> bool {
        true
    }

    open spec fn from_spec(value: PgTrainingKind) -> TrainingKind {
        training_kind_of(value)
    }
}


/// The name of the study groups table.
pub const TABLE: &'static str = "study_groups";

/// The name of the table of the curricula of study groups.
pub const CURRICULUMS_TABLE: &'static str = "study_group_curriculums";

/// The columns that saving a study group writes, in order.
pub open spec fn saved_columns() -> Seq<Seq<char>> {
    seq!["name"@, "studying_qualification"@, "training_kind"@, "department_id"@]
}

/// Whether `params` starts with the values that saving `entity` writes, in column order.
pub open spec fn saved_values(params: Seq<SqlValue>, entity: study_group::Entity) -> bool {
    &&& params.len() >= 4
    &&& params[0] == SqlValue::Text(entity.name)
    &&& params[1] matches SqlValue::Text(t)
        && t@ == pg_qualification_name(pg_qualification_of(entity.studying_qualification))
    &&& params[2] matches SqlValue::Text(t) && t@ == pg_training_kind_name(pg_training_kind_of(entity.training_kind))
    &&& params[3] == SqlValue::Int(entity.department_id.value)
}

fn saved_columns_vec() -> (columns: Vec<&'static str>)
    ensures
        names(columns@) == saved_columns(),
{
    let columns: Vec<&'static str> = vec!["name", "studying_qualification", "training_kind", "department_id"];
    assert(names(columns@) =~= saved_columns());
    columns
}

fn saved_params(entity: &study_group::Entity) -> (params: Vec<SqlValue>)
    ensures
        params@.len() == 4,
        saved_values(params@, *entity),
{
    vec![
        SqlValue::Text(entity.name.clone()),
        SqlValue::Text(PgQualification::from(entity.studying_qualification).to_string()),
        SqlValue::Text(PgTrainingKind::from(entity.training_kind).to_string()),
        SqlValue::Int(entity.department_id.value),
    ]
}

/// Inserts a study group: its columns but the identifier, `RETURNING *`.
pub fn insert_statement(entity: &study_group::Entity) -> (stmt: Statement)
    ensures
        stmt.sql@ == insert_returning_text("study_groups"@, saved_columns()),
        stmt.params@.len() == 4,
        saved_values(stmt.params@, *entity),
{
    let columns = saved_columns_vec();
    let sql = insert_returning_sql(TABLE, &columns);
    Statement { sql, params: saved_params(entity) }
}

/// Updates the study group with the entity's identifier, `RETURNING *`.
pub fn update_statement(entity: &study_group::Entity) -> (stmt: Statement)
    ensures
        stmt.sql@ == update_returning_text("study_groups"@, saved_columns(), "id"@),
        stmt.params@.len() == 5,
        saved_values(stmt.params@, *entity),
        stmt.params@[4] == SqlValue::Int(entity.id.value),
{
    let columns = saved_columns_vec();
    let sql = update_returning_sql(TABLE, &columns, "id");
    let mut params = saved_params(entity);
    params.push(SqlValue::Int(entity.id.value));
    Statement { sql, params }
}

/// Links a saved study group to one of its curricula. The group is named by
/// the identifier that the entity to save carried.
pub fn insert_curriculum_statement(entity: &study_group::Entity, curriculum: &Id<i32>) -> (stmt: Statement)
    ensures
        stmt.sql@ == insert_returning_text("study_group_curriculums"@, seq!["study_group_id"@, "curriculum_id"@]),
        stmt.params@ == seq![SqlValue::Int(entity.id.value), SqlValue::Int(curriculum.value)],
{
    let columns: Vec<&'static str> = vec!["study_group_id", "curriculum_id"];
    assert(names(columns@) =~= seq!["study_group_id"@, "curriculum_id"@]);
    let sql = insert_returning_sql(CURRICULUMS_TABLE, &columns);
    Statement { sql, params: vec![SqlValue::Int(entity.id.value), SqlValue::Int(curriculum.value)] }
}

/// Deletes the study group `id`, `RETURNING *`.
pub fn delete_statement(id: i32) -> (stmt: Statement)
    ensures
        stmt.sql@ == delete_where_returning_text("study_groups"@, "id"@),
        stmt.params@ == seq![SqlValue::Int(id)],
{
    let sql = delete_where_returning_sql(TABLE, "id");
    Statement { sql, params: vec![SqlValue::Int(id)] }
}

/// Finds the study group `id`.
pub fn find_statement(id: i32) -> (stmt: Statement)
    ensures
        stmt.sql@ == select_where_text("study_groups"@, "id"@),
        stmt.params@ == seq![SqlValue::Int(id)],
{
    let sql = select_where_sql(TABLE, "id");
    Statement { sql, params: vec![SqlValue::Int(id)] }
}

/// Finds the study group named `name`.
pub fn find_by_name_statement(name: String) -> (stmt: Statement)
    ensures
        stmt.sql@ == select_where_text("study_groups"@, "name"@),
        stmt.params@ == seq![SqlValue::Text(name)],
{
    let sql = select_where_sql(TABLE, "name");
    Statement { sql, params: vec![SqlValue::Text(name)] }
}

/// Lists the curricula of study group `id`.
pub fn select_curriculums_statement(id: i32) -> (stmt: Statement)
    ensures
        stmt.sql@ == select_where_text("study_group_curriculums"@, "study_group_id"@),
        stmt.params@ == seq![SqlValue::Int(id)],
{
    let sql = select_where_sql(CURRICULUMS_TABLE, "study_group_id");
    Statement { sql, params: vec![SqlValue::Int(id)] }
}

/// Unlinks every curriculum of study group `id`, `RETURNING *`.
pub fn delete_curriculums_statement(id: i32) -> (stmt: Statement)
    ensures
        stmt.sql@ == delete_where_returning_text("study_group_curriculums"@, "study_group_id"@),
        stmt.params@ == seq![SqlValue::Int(id)],
{
    let sql = delete_where_returning_sql(CURRICULUMS_TABLE, "study_group_id");
    Statement { sql, params: vec![SqlValue::Int(id)] }
}

/// Storing a qualification or a training kind and reading it back gives the same value.
pub proof fn law_study_group_kinds_round_trip(
    q: Qualification,
    pq: PgQualification,
    k: TrainingKind,
    pk: PgTrainingKind,
)
    ensures
        qualification_of(pg_qualification_of(q)) == q,
        pg_qualification_of(qualification_of(pq)) == pq,
        training_kind_of(pg_training_kind_of(k)) == k,
        pg_training_kind_of(training_kind_of(pk)) == pk,
{
}

/// Distinct qualifications, and distinct training kinds, are written as distinct texts.
pub proof fn law_study_group_names_distinct(
    a: PgQualification,
    b: PgQualification,
    c: PgTrainingKind,
    d: PgTrainingKind,
)
    ensures
        a != b ==> pg_qualification_name(a) != pg_qualification_name(b),
        c != d ==> pg_training_kind_name(c) != pg_training_kind_name(d),
{
    reveal_strlit("doctorate");
    reveal_strlit("master");
    reveal_strlit("postgraduate");
    reveal_strlit("bachelor");
    reveal_strlit("full_time");
    reveal_strlit("correspondence");
    assert(pg_qualification_name(PgQualification::Doctorate).len() == 9);
    assert(pg_qualification_name(PgQualification::Master).len() == 6);
    assert(pg_qualification_name(PgQualification::Postgraduate).len() == 12);
    assert(pg_qualification_name(PgQualification::Bachelor).len() == 8);
    assert(pg_training_kind_name(PgTrainingKind::FullTime).len() == 9);
    assert(pg_training_kind_name(PgTrainingKind::Correspondence).len() == 14);
}

/// Each qualification and each training kind is stored under its own name,
/// and each name is read back as the value it names, both by the column
/// conversions and by `From`.
pub proof fn law_study_group_kind_names()
    ensures
        <PgQualification as vstd::std_specs::convert::FromSpec<Qualification>>::obeys_from_spec(),
        <Qualification as vstd::std_specs::convert::FromSpec<PgQualification>>::obeys_from_spec(),
        <PgTrainingKind as vstd::std_specs::convert::FromSpec<TrainingKind>>::obeys_from_spec(),
        <TrainingKind as vstd::std_specs::convert::FromSpec<PgTrainingKind>>::obeys_from_spec(),
        forall|q: Qualification| pg_qualification_of(q) == <PgQualification as vstd::std_specs::convert::FromSpec<Qualification>>::from_spec(q),
        forall|q: PgQualification| qualification_of(q) == <Qualification as vstd::std_specs::convert::FromSpec<PgQualification>>::from_spec(q),
        forall|k: TrainingKind| pg_training_kind_of(k) == <PgTrainingKind as vstd::std_specs::convert::FromSpec<TrainingKind>>::from_spec(k),
        forall|k: PgTrainingKind| training_kind_of(k) == <TrainingKind as vstd::std_specs::convert::FromSpec<PgTrainingKind>>::from_spec(k),
        pg_qualification_name(pg_qualification_of(Qualification::Bachelor)) == "bachelor"@,
        pg_qualification_name(pg_qualification_of(Qualification::Master)) == "master"@,
        pg_qualification_name(pg_qualification_of(Qualification::Postgraduate)) == "postgraduate"@,
        pg_qualification_name(pg_qualification_of(Qualification::Doctorate)) == "doctorate"@,
        pg_training_kind_name(pg_training_kind_of(TrainingKind::FullTime)) == "full_time"@,
        pg_training_kind_name(pg_training_kind_of(TrainingKind::Correspondence)) == "correspondence"@,
        forall|q: PgQualification| pg_qualification_name(q) == "bachelor"@ ==> qualification_of(q) == Qualification::Bachelor,
        forall|q: PgQualification| pg_qualification_name(q) == "master"@ ==> qualification_of(q) == Qualification::Master,
        forall|q: PgQualification| pg_qualification_name(q) == "postgraduate"@ ==> qualification_of(q) == Qualification::Postgraduate,
        forall|q: PgQualification| pg_qualification_name(q) == "doctorate"@ ==> qualification_of(q) == Qualification::Doctorate,
        forall|k: PgTrainingKind| pg_training_kind_name(k) == "full_time"@ ==> training_kind_of(k) == TrainingKind::FullTime,
        forall|k: PgTrainingKind| pg_training_kind_name(k) == "correspondence"@ ==> training_kind_of(k) == TrainingKind::Correspondence,
{
    assert forall|a: PgQualification, b: PgQualification| pg_qualification_name(a) == pg_qualification_name(b) implies a == b by {
        law_study_group_names_distinct(a, b, PgTrainingKind::FullTime, PgTrainingKind::FullTime);
    }
    assert forall|c: PgTrainingKind, d: PgTrainingKind| pg_training_kind_name(c) == pg_training_kind_name(d) implies c == d by {
        law_study_group_names_distinct(PgQualification::Master, PgQualification::Master, c, d);
    }
    assert forall|q: PgQualification| pg_qualification_name(q) == "bachelor"@ implies qualification_of(q) == Qualification::Bachelor by {
        assert(pg_qualification_name(q) == pg_qualification_name(PgQualification::Bachelor));
    }
    assert forall|q: PgQualification| pg_qualification_name(q) == "master"@ implies qualification_of(q) == Qualification::Master by {
        assert(pg_qualification_name(q) == pg_qualification_name(PgQualification::Master));
    }
    assert forall|q: PgQualification| pg_qualification_name(q) == "postgraduate"@ implies qualification_of(q) == Qualification::Postgraduate by {
        assert(pg_qualification_name(q) == pg_qualification_name(PgQualification::Postgraduate));
    }
    assert forall|q: PgQualification| pg_qualification_name(q) == "doctorate"@ implies qualification_of(q) == Qualification::Doctorate by {
        assert(pg_qualification_name(q) == pg_qualification_name(PgQualification::Doctorate));
    }
    assert forall|k: PgTrainingKind| pg_training_kind_name(k) == "full_time"@ implies training_kind_of(k) == TrainingKind::FullTime by {
        assert(pg_training_kind_name(k) == pg_training_kind_name(PgTrainingKind::FullTime));
    }
    assert forall|k: PgTrainingKind| pg_training_kind_name(k) == "correspondence"@ implies training_kind_of(k) == TrainingKind::Correspondence by {
        assert(pg_training_kind_name(k) == pg_training_kind_name(PgTrainingKind::Correspondence));
    }
}

/// Saving a study group binds its name, the names of its own qualification and
/// training kind, and its department, in column order.
pub proof fn law_study_group_saved_values(params: Seq<SqlValue>, entity: study_group::Entity)
    requires
        saved_values(params, entity),
    ensures
        params[0] == SqlValue::Text(entity.name),
        params[3] == SqlValue::Int(entity.department_id.value),
        params[1] matches SqlValue::Text(t) && {
            &&& entity.studying_qualification == Qualification::Bachelor ==> t@ == "bachelor"@
            &&& entity.studying_qualification == Qualification::Master ==> t@ == "master"@
            &&& entity.studying_qualification == Qualification::Postgraduate ==> t@ == "postgraduate"@
            &&& entity.studying_qualification == Qualification::Doctorate ==> t@ == "doctorate"@
        },
        params[2] matches SqlValue::Text(t) && {
            &&& entity.training_kind == TrainingKind::FullTime ==> t@ == "full_time"@
            &&& entity.training_kind == TrainingKind::Correspondence ==> t@ == "correspondence"@
        },
{
    law_study_group_kind_names();
}

} // verus!
