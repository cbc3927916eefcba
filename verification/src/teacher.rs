//! Records of the `teachers` and `teacher_classes` tables, the teachers that
//! the rows of their join describe, and the statements of their repository.

use vstd::prelude::*;
use crate::domain::id::Id;
use crate::domain::teacher::{self, TeacherClass, TeacherKind};
use crate::query::{
    delete_where_sql, delete_where_text, insert_returning_sql, insert_returning_text, join_select_where_sql,
    join_select_where_text, names, update_returning_sql, update_returning_text, SqlValue, Statement,
};

verus! {

#[derive(Debug, Clone, Copy, PartialEq, Eq, Structural)]
pub struct Teachers {
    pub id: i32,
    pub person_id: i32,
    pub kind: PgTeacherKind,
    pub department_id: i32,
}

/// A class that a teacher holds for a study group.
#[derive(Debug, Clone, Copy, PartialEq, Eq, Structural)]
pub struct TeacherClasses {
    pub teacher_id: i32,
    pub study_group_id: i32,
    pub class_id: i32,
}

/// A teacher row joined with one of its class rows.
#[derive(Debug, Clone, Copy, PartialEq, Eq, Structural)]
pub struct JoinRow {
    pub teacher: Teachers,
    pub class: TeacherClasses,
}

/// The class that a class row stands for.
pub open spec fn class_of(row: TeacherClasses) -> TeacherClass {
    TeacherClass { study_group_id: Id { value: row.study_group_id }, class_id: Id { value: row.class_id } }
}

/// The classes of `rows`, each once, in the order of their first row.
pub open spec fn distinct_classes(rows: Seq<TeacherClasses>) -> Seq<TeacherClass>
    decreases rows.len(),
{
    if rows.len() == 0 {
        Seq::empty()
    } else {
        let earlier = distinct_classes(rows.drop_last());
        let c = class_of(rows.last());
        if earlier.contains(c) {
            earlier
        } else {
            earlier.push(c)
        }
    }
}

/// Whether `entity` is the teacher of `teacher` holding the classes of `classes`.
pub open spec fn describes(entity: teacher::Entity, teacher: Teachers, classes: Seq<TeacherClasses>) -> bool {
    &&& entity.id.value == teacher.id
    &&& entity.person_id.value == teacher.person_id
    &&& entity.kind == teacher_kind_of(teacher.kind)
    &&& entity.department_id.value == teacher.department_id
    &&& entity.classes@ == distinct_classes(classes)
}

/// Whether `classes` holds the same class row twice.
fn holds_class(classes: &Vec<TeacherClass>, row: TeacherClasses) -> (found: bool)
    ensures
        found == classes@.contains(class_of(row)),
{
    let mut i: usize = 0;
    while i < classes.len()
        invariant
            i <= classes@.len(),
            forall|j: int| 0 <= j < i ==> classes@[j] != class_of(row),
        decreases classes@.len() - i,
    {
        if classes[i].study_group_id.value == row.study_group_id && classes[i].class_id.value == row.class_id {
            assert(classes@[i as int] == class_of(row));
            return true;
        }
        i = i + 1;
    }
    false
}

impl Teachers {
    /// The teacher of this row, holding the classes of `classes`, each once.
    pub fn into_entity(self, classes: Vec<TeacherClasses>) -> (entity: teacher::Entity)
        ensures
            describes(entity, self, classes@),
    {
        let mut distinct: Vec<TeacherClass> = Vec::new();
        let mut i: usize = 0;
        while i < classes.len()
            invariant
                i <= classes@.len(),
                distinct@ == distinct_classes(classes@.take(i as int)),
            decreases classes@.len() - i,
        {
            let row = classes[i];
            assert(classes@.take(i + 1).drop_last() =~= classes@.take(i as int));
            assert(classes@.take(i + 1).last() == row);
            if !holds_class(&distinct, row) {
                distinct.push(TeacherClass {
                    study_group_id: Id::new(row.study_group_id),
                    class_id: Id::new(row.class_id),
                });
            }
            i = i + 1;
        }
        assert(classes@.take(classes@.len() as int) =~= classes@);
        teacher::Entity {
            id: Id::new(self.id),
            person_id: Id::new(self.person_id),
            kind: TeacherKind::from(self.kind),
            department_id: Id::new(self.department_id),
            classes: distinct,
        }
    }
}

/// `distinct_classes` holds every class of its rows, no other, and none twice.
pub proof fn law_distinct_classes(rows: Seq<TeacherClasses>)
    ensures
        forall|i: int, j: int|
            0 <= i < j < distinct_classes(rows).len() ==> distinct_classes(rows)[i] != distinct_classes(rows)[j],
        forall|c: TeacherClass| distinct_classes(rows).contains(c)
            <==> exists|k: int| 0 <= k < rows.len() && class_of(#[trigger] rows[k]) == c,
    decreases rows.len(),
{
    broadcast use vstd::seq_lib::group_seq_properties;
    if rows.len() > 0 {
        let earlier = rows.drop_last();
        law_distinct_classes(earlier);
        assert forall|c: TeacherClass| distinct_classes(rows).contains(c)
            <==> exists|k: int| 0 <= k < rows.len() && class_of(#[trigger] rows[k]) == c by {
            if distinct_classes(rows).contains(c) {
                if distinct_classes(earlier).contains(c) {
                    let k = choose|k: int| 0 <= k < earlier.len() && class_of(#[trigger] earlier[k]) == c;
                    assert(rows[k] == earlier[k]);
                } else {
                    assert(c == class_of(rows[rows.len() - 1]));
                }
            }
            if exists|k: int| 0 <= k < rows.len() && class_of(#[trigger] rows[k]) == c {
                let k = choose|k: int| 0 <= k < rows.len() && class_of(#[trigger] rows[k]) == c;
                if k < rows.len() - 1 {
                    assert(earlier[k] == rows[k]);
                    assert(distinct_classes(earlier).contains(c));
                } else {
                    assert(class_of(rows.last()) == c);
                }
            }
        }
    }
}


/// Whether `entity` is the teacher that `rows`, the rows of one teacher, describe.
pub open spec fn describes_rows(entity: teacher::Entity, rows: Seq<JoinRow>) -> bool {
    &&& rows.len() > 0
    &&& describes(entity, rows[0].teacher, classes_of_rows(rows))
}

/// The class rows of `rows`, in order.
pub open spec fn classes_of_rows(rows: Seq<JoinRow>) -> Seq<TeacherClasses> {
    rows.map_values(|r: JoinRow| r.class)
}

/// The teacher that the rows of one teacher's join describe: the teacher of
/// the first row, holding the classes of all rows. There is none for no rows.
pub fn entity_from_select(select: Vec<JoinRow>) -> (entity: Option<teacher::Entity>)
    ensures
        select@.len() == 0 <==> entity is None,
        entity matches Some(e) ==> describes(e, select@[0].teacher, classes_of_rows(select@)),
{
    if select.len() == 0 {
        return None;
    }
    let first = select[0].teacher;
    let mut classes: Vec<TeacherClasses> = Vec::new();
    let mut i: usize = 0;
    while i < select.len()
        invariant
            i <= select@.len(),
            classes@ == classes_of_rows(select@.take(i as int)),
        decreases select@.len() - i,
    {
        classes.push(select[i].class);
        assert(classes_of_rows(select@.take(i + 1)) =~= classes_of_rows(select@.take(i as int)).push(select@[i as int].class));
        i = i + 1;
    }
    assert(select@.take(select@.len() as int) =~= select@);
    Some(first.into_entity(classes))
}

/// The teachers of `rows`, each once, in the order of their first row.
pub open spec fn teacher_ids(rows: Seq<JoinRow>) -> Seq<i32>
    decreases rows.len(),
{
    if rows.len() == 0 {
        Seq::empty()
    } else {
        let earlier = teacher_ids(rows.drop_last());
        let id = rows.last().teacher.id;
        if earlier.contains(id) {
            earlier
        } else {
            earlier.push(id)
        }
    }
}

/// The rows of `rows` whose teacher is `id`, in order.
pub open spec fn rows_of_teacher(rows: Seq<JoinRow>, id: i32) -> Seq<JoinRow>
    decreases rows.len(),
{
    if rows.len() == 0 {
        Seq::empty()
    } else {
        let earlier = rows_of_teacher(rows.drop_last(), id);
        if rows.last().teacher.id == id {
            earlier.push(rows.last())
        } else {
            earlier
        }
    }
}

/// Every row of `rows_of_teacher(rows, id)` is one of teacher `id`.
proof fn lemma_rows_of_teacher_match(rows: Seq<JoinRow>, id: i32)
    ensures
        forall|i: int| 0 <= i < rows_of_teacher(rows, id).len()
            ==> (#[trigger] rows_of_teacher(rows, id)[i]).teacher.id == id,
    decreases rows.len(),
{
    if rows.len() > 0 {
        lemma_rows_of_teacher_match(rows.drop_last(), id);
    }
}

/// Every teacher of `teacher_ids` has rows.
proof fn lemma_listed_teacher_has_rows(rows: Seq<JoinRow>, id: i32)
    requires
        teacher_ids(rows).contains(id),
    ensures
        rows_of_teacher(rows, id).len() > 0,
        rows_of_teacher(rows, id)[0].teacher.id == id,
    decreases rows.len(),
{
    broadcast use vstd::seq_lib::group_seq_properties;
    let earlier = rows.drop_last();
    lemma_rows_of_teacher_match(rows, id);
    if teacher_ids(earlier).contains(id) {
        lemma_listed_teacher_has_rows(earlier, id);
    } else {
        assert(rows.last().teacher.id == id);
    }
}

/// `teacher_ids` holds the teacher of every row, no other, and none twice.
pub proof fn law_teacher_ids(rows: Seq<JoinRow>)
    ensures
        forall|i: int, j: int| 0 <= i < j < teacher_ids(rows).len() ==> teacher_ids(rows)[i] != teacher_ids(rows)[j],
        forall|id: i32| teacher_ids(rows).contains(id)
            <==> exists|k: int| 0 <= k < rows.len() && (#[trigger] rows[k]).teacher.id == id,
    decreases rows.len(),
{
    broadcast use vstd::seq_lib::group_seq_properties;
    if rows.len() > 0 {
        let earlier = rows.drop_last();
        law_teacher_ids(earlier);
        assert forall|id: i32| teacher_ids(rows).contains(id)
            <==> exists|k: int| 0 <= k < rows.len() && (#[trigger] rows[k]).teacher.id == id by {
            if teacher_ids(rows).contains(id) {
                if teacher_ids(earlier).contains(id) {
                    let k = choose|k: int| 0 <= k < earlier.len() && (#[trigger] earlier[k]).teacher.id == id;
                    assert(rows[k] == earlier[k]);
                } else {
                    assert(rows[rows.len() - 1].teacher.id == id);
                }
            }
            if exists|k: int| 0 <= k < rows.len() && (#[trigger] rows[k]).teacher.id == id {
                let k = choose|k: int| 0 <= k < rows.len() && (#[trigger] rows[k]).teacher.id == id;
                if k < rows.len() - 1 {
                    assert(earlier[k] == rows[k]);
                    assert(teacher_ids(earlier).contains(id));
                }
            }
        }
    }
}

/// Every row lies in the rows of its own teacher and of no other.
pub proof fn law_rows_of_teacher(rows: Seq<JoinRow>, id: i32)
    ensures
        forall|r: JoinRow| rows_of_teacher(rows, id).contains(r) <==> rows.contains(r) && r.teacher.id == id,
    decreases rows.len(),
{
    broadcast use vstd::seq_lib::group_seq_properties;
    if rows.len() > 0 {
        let earlier = rows.drop_last();
        let last = rows.last();
        law_rows_of_teacher(earlier, id);
        assert(rows =~= earlier.push(last));
        assert forall|r: JoinRow| rows_of_teacher(rows, id).contains(r)
            <==> rows.contains(r) && r.teacher.id == id by {
            assert(rows.contains(r) <==> earlier.contains(r) || r == last);
        }
    }
}

fn holds_id(ids: &Vec<i32>, id: i32) -> (found: bool)
    ensures
        found == ids@.contains(id),
{
    let mut i: usize = 0;
    while i < ids.len()
        invariant
            i <= ids@.len(),
            forall|j: int| 0 <= j < i ==> ids@[j] != id,
        decreases ids@.len() - i,
    {
        if ids[i] == id {
            assert(ids@[i as int] == id);
            return true;
        }
        i = i + 1;
    }
    false
}

/// The teachers that the rows of a join of several teachers describe: one per
/// teacher, in the order of each teacher's first row, built from that
/// teacher's rows.
pub fn entities_from_select(select: Vec<JoinRow>) -> (entities: Vec<teacher::Entity>)
    ensures
        entities@.len() == teacher_ids(select@).len(),
        forall|k: int| 0 <= k < entities@.len() ==> describes_rows(#[trigger] entities@[k], rows_of_teacher(select@, teacher_ids(select@)[k])),
{
    let mut ids: Vec<i32> = Vec::new();
    let mut i: usize = 0;
    while i < select.len()
        invariant
            i <= select@.len(),
            ids@ == teacher_ids(select@.take(i as int)),
        decreases select@.len() - i,
    {
        let id = select[i].teacher.id;
        assert(select@.take(i + 1).drop_last() =~= select@.take(i as int));
        if !holds_id(&ids, id) {
            ids.push(id);
        }
        i = i + 1;
    }
    assert(select@.take(select@.len() as int) =~= select@);
    let mut entities: Vec<teacher::Entity> = Vec::new();
    let mut k: usize = 0;
    while k < ids.len()
        invariant
            k <= ids@.len(),
            ids@ == teacher_ids(select@),
            entities@.len() == k,
            forall|m: int| 0 <= m < k ==> describes_rows(#[trigger] entities@[m], rows_of_teacher(select@, teacher_ids(select@)[m])),
        decreases ids@.len() - k,
    {
        let id = ids[k];
        let mut group: Vec<JoinRow> = Vec::new();
        let mut j: usize = 0;
        while j < select.len()
            invariant
                j <= select@.len(),
                group@ == rows_of_teacher(select@.take(j as int), id),
            decreases select@.len() - j,
        {
            let row = select[j];
            assert(select@.take(j + 1).drop_last() =~= select@.take(j as int));
            if row.teacher.id == id {
                group.push(row);
            }
            j = j + 1;
        }
        assert(select@.take(select@.len() as int) =~= select@);
        proof {
            assert(ids@.contains(id));
            lemma_listed_teacher_has_rows(select@, id);
        }
        let ghost before = entities@;
        match entity_from_select(group) {
            Some(entity) => entities.push(entity),
            None => {
                assert(false);
            },
        }
        assert forall|m: int| 0 <= m < k + 1 implies describes_rows(#[trigger] entities@[m], rows_of_teacher(select@, teacher_ids(select@)[m])) by {
            if m < k {
                assert(entities@[m] == before[m]);
            }
        }
        k = k + 1;
    }
    entities
}


/// The name of the teachers table.
pub const TABLE: &'static str = "teachers";

/// The name of the table of the classes of teachers.
pub const CLASSES_TABLE: &'static str = "teacher_classes";

/// The columns that saving a teacher writes, in order.
pub open spec fn saved_columns() -> Seq<Seq<char>> {
    seq!["person_id"@, "kind"@, "department_id"@]
}

/// Whether `params` starts with the values that saving `entity` writes, in column order.
pub open spec fn saved_values(params: Seq<SqlValue>, entity: teacher::Entity) -> bool {
    &&& params.len() >= 3
    &&& params[0] == SqlValue::Int(entity.person_id.value)
    &&& params[1] matches SqlValue::Text(t) && t@ == pg_teacher_kind_name(pg_teacher_kind_of(entity.kind))
    &&& params[2] == SqlValue::Int(entity.department_id.value)
}

fn saved_columns_vec() -> (columns: Vec<&'static str>)
    ensures
        names(columns@) == saved_columns(),
{
    let columns: Vec<&'static str> = vec!["person_id", "kind", "department_id"];
    assert(names(columns@) =~= saved_columns());
    columns
}

fn saved_params(entity: &teacher::Entity) -> (params: Vec<SqlValue>)
    ensures
        params@.len() == 3,
        saved_values(params@, *entity),
{
    vec![
        SqlValue::Int(entity.person_id.value),
        SqlValue::Text(PgTeacherKind::from(entity.kind).to_string()),
        SqlValue::Int(entity.department_id.value),
    ]
}

/// Inserts a teacher: its columns but the identifier, `RETURNING *`.
pub fn insert_statement(entity: &teacher::Entity) -> (stmt: Statement)
    ensures
        stmt.sql@ == insert_returning_text("teachers"@, saved_columns()),
        stmt.params@.len() == 3,
        saved_values(stmt.params@, *entity),
{
    let columns = saved_columns_vec();
    let sql = insert_returning_sql(TABLE, &columns);
    Statement { sql, params: saved_params(entity) }
}

/// Updates the teacher with the entity's identifier, `RETURNING *`.
pub fn update_statement(entity: &teacher::Entity) -> (stmt: Statement)
    ensures
        stmt.sql@ == update_returning_text("teachers"@, saved_columns(), "id"@),
        stmt.params@.len() == 4,
        saved_values(stmt.params@, *entity),
        stmt.params@[3] == SqlValue::Int(entity.id.value),
{
    let columns = saved_columns_vec();
    let sql = update_returning_sql(TABLE, &columns, "id");
    let mut params = saved_params(entity);
    params.push(SqlValue::Int(entity.id.value));
    Statement { sql, params }
}

/// Selects the join of teachers with their classes, for the teachers whose
/// `column` is `value`.
fn join_select_statement(column: &'static str, value: i32) -> (stmt: Statement)
    ensures
        stmt.sql@ == join_select_where_text("teachers"@, "id"@, "teacher_classes"@, "teacher_id"@, column@),
        stmt.params@ == seq![SqlValue::Int(value)],
{
    let sql = join_select_where_sql(TABLE, "id", CLASSES_TABLE, "teacher_id", column);
    Statement { sql, params: vec![SqlValue::Int(value)] }
}

/// The join rows of teacher `id`.
pub fn find_statement(id: Id<i32>) -> (stmt: Statement)
    ensures
        stmt.sql@ == join_select_where_text("teachers"@, "id"@, "teacher_classes"@, "teacher_id"@, "id"@),
        stmt.params@ == seq![SqlValue::Int(id.value)],
{
    join_select_statement("id", id.value)
}

/// The join rows of the teacher who is person `person_id`.
pub fn find_by_person_id_statement(person_id: Id<i32>) -> (stmt: Statement)
    ensures
        stmt.sql@ == join_select_where_text("teachers"@, "id"@, "teacher_classes"@, "teacher_id"@, "person_id"@),
        stmt.params@ == seq![SqlValue::Int(person_id.value)],
{
    join_select_statement("person_id", person_id.value)
}

/// The join rows of the teachers of department `department_id`.
pub fn list_by_department_id_statement(department_id: Id<i32>) -> (stmt: Statement)
    ensures
        stmt.sql@ == join_select_where_text("teachers"@, "id"@, "teacher_classes"@, "teacher_id"@, "department_id"@),
        stmt.params@ == seq![SqlValue::Int(department_id.value)],
{
    join_select_statement("department_id", department_id.value)
}

/// Removes every class of teacher `id`.
pub fn delete_classes_statement(id: i32) -> (stmt: Statement)
    ensures
        stmt.sql@ == delete_where_text("teacher_classes"@, "teacher_id"@),
        stmt.params@ == seq![SqlValue::Int(id)],
{
    let sql = delete_where_sql(CLASSES_TABLE, "teacher_id");
    Statement { sql, params: vec![SqlValue::Int(id)] }
}

/// Gives teacher `id` the class `class`, `RETURNING *`.
pub fn insert_class_statement(id: i32, class: &TeacherClass) -> (stmt: Statement)
    ensures
        stmt.sql@ == insert_returning_text("teacher_classes"@, seq!["teacher_id"@, "class_id"@, "study_group_id"@]),
        stmt.params@ == seq![
            SqlValue::Int(id),
            SqlValue::Int(class.class_id.value),
            SqlValue::Int(class.study_group_id.value),
        ],
{
    let columns: Vec<&'static str> = vec!["teacher_id", "class_id", "study_group_id"];
    assert(names(columns@) =~= seq!["teacher_id"@, "class_id"@, "study_group_id"@]);
    let sql = insert_returning_sql(CLASSES_TABLE, &columns);
    Statement {
        sql,
        params: vec![
            SqlValue::Int(id),
            SqlValue::Int(class.class_id.value),
            SqlValue::Int(class.study_group_id.value),
        ],
    }
}

/// Deletes the teacher with the entity's identifier.
pub fn delete_statement(entity: &teacher::Entity) -> (stmt: Statement)
    ensures
        stmt.sql@ == delete_where_text("teachers"@, "id"@),
        stmt.params@ == seq![SqlValue::Int(entity.id.value)],
{
    let sql = delete_where_sql(TABLE, "id");
    Statement { sql, params: vec![SqlValue::Int(entity.id.value)] }
}

/// The teacher kind column type.
#[derive(Debug, Clone, Copy, PartialEq, Eq, Structural)]
pub enum PgTeacherKind {
    Assistant,
    RegularTeacher,
    SeniorTeacher,
    AssociateProfessor,
    Professor,
}

pub open spec fn pg_teacher_kind_name(k: PgTeacherKind) -> Seq<char> {
    match k {
        PgTeacherKind::Assistant => "assistant"@,
        PgTeacherKind::RegularTeacher => "regular_teacher"@,
        PgTeacherKind::SeniorTeacher => "senior_teacher"@,
        PgTeacherKind::AssociateProfessor => "associate_professor"@,
        PgTeacherKind::Professor => "professor"@,
    }
}

impl PgTeacherKind {
    pub fn to_string(&self) -> (text: String)
        ensures
            text@ == pg_teacher_kind_name(*self),
    {
        match self {
            PgTeacherKind::Assistant => {
                proof { reveal_strlit("assistant"); }
                String::from_str("assistant")
            },
            PgTeacherKind::RegularTeacher => {
                proof { reveal_strlit("regular_teacher"); }
                String::from_str("regular_teacher")
            },
            PgTeacherKind::SeniorTeacher => {
                proof { reveal_strlit("senior_teacher"); }
                String::from_str("senior_teacher")
            },
            PgTeacherKind::AssociateProfessor => {
                proof { reveal_strlit("associate_professor"); }
                String::from_str("associate_professor")
            },
            PgTeacherKind::Professor => {
                proof { reveal_strlit("professor"); }
                String::from_str("professor")
            },
        }
    }
}

pub open spec fn pg_teacher_kind_of(k: TeacherKind) -> PgTeacherKind {
    match k {
        TeacherKind::Assistant => PgTeacherKind::Assistant,
        TeacherKind::RegularTeacher => PgTeacherKind::RegularTeacher,
        TeacherKind::SeniorTeacher => PgTeacherKind::SeniorTeacher,
        TeacherKind::AssociateProfessor => PgTeacherKind::AssociateProfessor,
        TeacherKind::Professor => PgTeacherKind::Professor,
    }
}

pub open spec fn teacher_kind_of(k: PgTeacherKind) -> TeacherKind {
    match k {
        PgTeacherKind::Assistant => TeacherKind::Assistant,
        PgTeacherKind::RegularTeacher => TeacherKind::RegularTeacher,
        PgTeacherKind::SeniorTeacher => TeacherKind::SeniorTeacher,
        PgTeacherKind::AssociateProfessor => TeacherKind::AssociateProfessor,
        PgTeacherKind::Professor => TeacherKind::Professor,
    }
}

impl From<TeacherKind> for PgTeacherKind {
    fn from(value: TeacherKind) -> (k: PgTeacherKind) {
        match value {
            TeacherKind::Assistant => PgTeacherKind::Assistant,
            TeacherKind::RegularTeacher => PgTeacherKind::RegularTeacher,
            TeacherKind::SeniorTeacher => PgTeacherKind::SeniorTeacher,
            TeacherKind::AssociateProfessor => PgTeacherKind::AssociateProfessor,
            TeacherKind::Professor => PgTeacherKind::Professor,
        }
    }
}

impl vstd::std_specs::convert::FromSpecImpl<TeacherKind> for PgTeacherKind {
    open spec fn obeys_from_spec() -> bool {
        true
    }

    open spec fn from_spec(value: TeacherKind) -> PgTeacherKind {
        pg_teacher_kind_of(value)
    }
}

impl From<PgTeacherKind> for TeacherKind {
    fn from(value: PgTeacherKind) -> (k: TeacherKind) {
        match value {
            PgTeacherKind::Assistant => TeacherKind::Assistant,
            PgTeacherKind::RegularTeacher => TeacherKind::RegularTeacher,
            PgTeacherKind::SeniorTeacher => TeacherKind::SeniorTeacher,
            PgTeacherKind::AssociateProfessor => TeacherKind::AssociateProfessor,
            PgTeacherKind::Professor => TeacherKind::Professor,
        }
    }
}

impl vstd::std_specs::convert::FromSpecImpl<PgTeacherKind> for TeacherKind {
    open spec fn obeys_from_spec() -> bool {
        true
    }

    open spec fn from_spec(value: PgTeacherKind) -> TeacherKind {
        teacher_kind_of(value)
    }
}

/// Storing a teacher kind and reading it back gives the same kind, either way round.
pub proof fn law_teacher_kind_round_trip(k: TeacherKind, p: PgTeacherKind)
    ensures
        teacher_kind_of(pg_teacher_kind_of(k)) == k,
        pg_teacher_kind_of(teacher_kind_of(p)) == p,
{
}

/// Distinct teacher kinds are written as distinct texts.
pub proof fn law_teacher_kind_names_distinct(a: PgTeacherKind, b: PgTeacherKind)
    requires
        a != b,
    ensures
        pg_teacher_kind_name(a) != pg_teacher_kind_name(b),
{
    reveal_strlit("assistant");
    reveal_strlit("regular_teacher");
    reveal_strlit("senior_teacher");
    reveal_strlit("associate_professor");
    reveal_strlit("professor");
    assert(pg_teacher_kind_name(PgTeacherKind::Assistant).len() == 9);
    assert(pg_teacher_kind_name(PgTeacherKind::RegularTeacher).len() == 15);
    assert(pg_teacher_kind_name(PgTeacherKind::SeniorTeacher).len() == 14);
    assert(pg_teacher_kind_name(PgTeacherKind::AssociateProfessor).len() == 19);
    assert(pg_teacher_kind_name(PgTeacherKind::Professor).len() == 9);
    assert(pg_teacher_kind_name(PgTeacherKind::Assistant)[0] == 'a');
    assert(pg_teacher_kind_name(PgTeacherKind::Professor)[0] == 'p');
}

/// A teacher built from a teacher row and class rows carries the row's
/// identifier, person and department, reads the stored kind name as that
/// kind, and holds a class with study group `s` and class `c` exactly when
/// some class row has study group `s` and class `c`, none twice.
pub proof fn law_teacher_from_rows(entity: teacher::Entity, teacher: Teachers, classes: Seq<TeacherClasses>)
    requires
        describes(entity, teacher, classes),
    ensures
        entity.id.value == teacher.id,
        entity.person_id.value == teacher.person_id,
        entity.department_id.value == teacher.department_id,
        pg_teacher_kind_name(teacher.kind) == "assistant"@ ==> entity.kind == TeacherKind::Assistant,
        pg_teacher_kind_name(teacher.kind) == "regular_teacher"@ ==> entity.kind == TeacherKind::RegularTeacher,
        pg_teacher_kind_name(teacher.kind) == "senior_teacher"@ ==> entity.kind == TeacherKind::SeniorTeacher,
        pg_teacher_kind_name(teacher.kind) == "associate_professor"@ ==> entity.kind == TeacherKind::AssociateProfessor,
        pg_teacher_kind_name(teacher.kind) == "professor"@ ==> entity.kind == TeacherKind::Professor,
        forall|c: TeacherClass| entity.classes@.contains(c) <==> exists|k: int|
            0 <= k < classes.len() && (#[trigger] classes[k]).study_group_id == c.study_group_id.value
                && classes[k].class_id == c.class_id.value,
        forall|i: int, j: int| 0 <= i < j < entity.classes@.len() ==> entity.classes@[i] != entity.classes@[j],
{
    law_distinct_classes(classes);
    law_teacher_kind_names();
    assert forall|c: TeacherClass| entity.classes@.contains(c) <==> exists|k: int|
        0 <= k < classes.len() && (#[trigger] classes[k]).study_group_id == c.study_group_id.value
            && classes[k].class_id == c.class_id.value by {
        if entity.classes@.contains(c) {
            let k = choose|k: int| 0 <= k < classes.len() && class_of(#[trigger] classes[k]) == c;
            assert(classes[k].study_group_id == c.study_group_id.value);
        }
        if exists|k: int| 0 <= k < classes.len() && (#[trigger] classes[k]).study_group_id == c.study_group_id.value
            && classes[k].class_id == c.class_id.value {
            let k = choose|k: int| 0 <= k < classes.len() && (#[trigger] classes[k]).study_group_id == c.study_group_id.value
                && classes[k].class_id == c.class_id.value;
            assert(class_of(classes[k]) == c);
        }
    }
}

/// A teacher built from the join rows of one teacher carries the first row's
/// teacher fields and holds a class with study group `s` and class `c` exactly
/// when some row's class row has study group `s` and class `c`.
pub proof fn law_teacher_from_join_rows(entity: teacher::Entity, rows: Seq<JoinRow>)
    requires
        describes_rows(entity, rows),
    ensures
        entity.id.value == rows[0].teacher.id,
        entity.person_id.value == rows[0].teacher.person_id,
        entity.department_id.value == rows[0].teacher.department_id,
        forall|c: TeacherClass| entity.classes@.contains(c) <==> exists|k: int|
            0 <= k < rows.len() && (#[trigger] rows[k]).class.study_group_id == c.study_group_id.value
                && rows[k].class.class_id == c.class_id.value,
{
    let classes = classes_of_rows(rows);
    law_teacher_from_rows(entity, rows[0].teacher, classes);
    assert forall|c: TeacherClass| entity.classes@.contains(c) <==> exists|k: int|
        0 <= k < rows.len() && (#[trigger] rows[k]).class.study_group_id == c.study_group_id.value
            && rows[k].class.class_id == c.class_id.value by {
        if entity.classes@.contains(c) {
            let k = choose|k: int| 0 <= k < classes.len() && (#[trigger] classes[k]).study_group_id == c.study_group_id.value
                && classes[k].class_id == c.class_id.value;
            assert(classes[k] == rows[k].class);
        }
        if exists|k: int| 0 <= k < rows.len() && (#[trigger] rows[k]).class.study_group_id == c.study_group_id.value
            && rows[k].class.class_id == c.class_id.value {
            let k = choose|k: int| 0 <= k < rows.len() && (#[trigger] rows[k]).class.study_group_id == c.study_group_id.value
                && rows[k].class.class_id == c.class_id.value;
            assert(classes[k] == rows[k].class);
        }
    }
}

/// Each teacher kind is stored under its own name, and each name is read back
/// as the kind it names, both by the column conversions and by `From`.
pub proof fn law_teacher_kind_names()
    ensures
        <PgTeacherKind as vstd::std_specs::convert::FromSpec<TeacherKind>>::obeys_from_spec(),
        <TeacherKind as vstd::std_specs::convert::FromSpec<PgTeacherKind>>::obeys_from_spec(),
        forall|k: TeacherKind| pg_teacher_kind_of(k) == <PgTeacherKind as vstd::std_specs::convert::FromSpec<TeacherKind>>::from_spec(k),
        forall|p: PgTeacherKind| teacher_kind_of(p) == <TeacherKind as vstd::std_specs::convert::FromSpec<PgTeacherKind>>::from_spec(p),
        pg_teacher_kind_name(pg_teacher_kind_of(TeacherKind::Assistant)) == "assistant"@,
        pg_teacher_kind_name(pg_teacher_kind_of(TeacherKind::RegularTeacher)) == "regular_teacher"@,
        pg_teacher_kind_name(pg_teacher_kind_of(TeacherKind::SeniorTeacher)) == "senior_teacher"@,
        pg_teacher_kind_name(pg_teacher_kind_of(TeacherKind::AssociateProfessor)) == "associate_professor"@,
        pg_teacher_kind_name(pg_teacher_kind_of(TeacherKind::Professor)) == "professor"@,
        forall|p: PgTeacherKind| pg_teacher_kind_name(p) == "assistant"@ ==> teacher_kind_of(p) == TeacherKind::Assistant,
        forall|p: PgTeacherKind| pg_teacher_kind_name(p) == "regular_teacher"@ ==> teacher_kind_of(p) == TeacherKind::RegularTeacher,
        forall|p: PgTeacherKind| pg_teacher_kind_name(p) == "senior_teacher"@ ==> teacher_kind_of(p) == TeacherKind::SeniorTeacher,
        forall|p: PgTeacherKind| pg_teacher_kind_name(p) == "associate_professor"@ ==> teacher_kind_of(p) == TeacherKind::AssociateProfessor,
        forall|p: PgTeacherKind| pg_teacher_kind_name(p) == "professor"@ ==> teacher_kind_of(p) == TeacherKind::Professor,
{
    assert forall|p: PgTeacherKind, q: PgTeacherKind| pg_teacher_kind_name(p) == pg_teacher_kind_name(q) implies p == q by {
        if p != q {
            law_teacher_kind_names_distinct(p, q);
        }
    }
    assert forall|p: PgTeacherKind| pg_teacher_kind_name(p) == "assistant"@ implies teacher_kind_of(p) == TeacherKind::Assistant by {
        assert(pg_teacher_kind_name(p) == pg_teacher_kind_name(PgTeacherKind::Assistant));
    }
    assert forall|p: PgTeacherKind| pg_teacher_kind_name(p) == "regular_teacher"@ implies teacher_kind_of(p) == TeacherKind::RegularTeacher by {
        assert(pg_teacher_kind_name(p) == pg_teacher_kind_name(PgTeacherKind::RegularTeacher));
    }
    assert forall|p: PgTeacherKind| pg_teacher_kind_name(p) == "senior_teacher"@ implies teacher_kind_of(p) == TeacherKind::SeniorTeacher by {
        assert(pg_teacher_kind_name(p) == pg_teacher_kind_name(PgTeacherKind::SeniorTeacher));
    }
    assert forall|p: PgTeacherKind| pg_teacher_kind_name(p) == "associate_professor"@ implies teacher_kind_of(p) == TeacherKind::AssociateProfessor by {
        assert(pg_teacher_kind_name(p) == pg_teacher_kind_name(PgTeacherKind::AssociateProfessor));
    }
    assert forall|p: PgTeacherKind| pg_teacher_kind_name(p) == "professor"@ implies teacher_kind_of(p) == TeacherKind::Professor by {
        assert(pg_teacher_kind_name(p) == pg_teacher_kind_name(PgTeacherKind::Professor));
    }
}

/// Saving a teacher binds its person, the name of its own kind, and its
/// department, in column order.
pub proof fn law_teacher_saved_values(params: Seq<SqlValue>, entity: teacher::Entity)
    requires
        saved_values(params, entity),
    ensures
        params[0] == SqlValue::Int(entity.person_id.value),
        params[2] == SqlValue::Int(entity.department_id.value),
        params[1] matches SqlValue::Text(t) && {
            &&& entity.kind == TeacherKind::Assistant ==> t@ == "assistant"@
            &&& entity.kind == TeacherKind::RegularTeacher ==> t@ == "regular_teacher"@
            &&& entity.kind == TeacherKind::SeniorTeacher ==> t@ == "senior_teacher"@
            &&& entity.kind == TeacherKind::AssociateProfessor ==> t@ == "associate_professor"@
            &&& entity.kind == TeacherKind::Professor ==> t@ == "professor"@
        },
{
    law_teacher_kind_names();
}

} // verus!
