//! The record of the `passports` table, its `gender` column type, and the
//! statements of its repository.

use vstd::prelude::*;
use crate::decimal::{decimal_text, law_decimal_round_trip, parse_u32, parsed_u32, u32_to_string};
use crate::domain::id::Id;
use crate::domain::passport::{self, Gender};
use crate::query::{
    delete_where_sql, delete_where_text, insert_returning_sql, insert_returning_text, names, select_where_sql,
    select_where_text, update_returning_sql, update_returning_text, SqlValue, Statement,
};

verus! {

/// A row of the `passports` table; number and series are stored as text.
#[derive(Debug, PartialEq, Eq)]
pub struct Passports {
    pub id: i32,
    pub person_id: i32,
    pub first_name: String,
    pub last_name: String,
    pub patronymic: String,
    pub date_of_birth: time::Date,
    pub date_of_issue: time::Date,
    pub number: String,
    pub series: String,
    pub gender: PgGender,
}

impl Passports {
    /// The passport that the row describes. A row whose number or series is not
    /// a decimal `u32` stops the program.
    pub fn into_entity(self) -> (entity: passport::Entity)
        requires
            parsed_u32(self.number@) is Some,
            parsed_u32(self.series@) is Some,
        ensures
            entity.id.value == self.id,
            entity.person_id.value == self.person_id,
            entity.first_name == self.first_name,
            entity.last_name == self.last_name,
            entity.patronymic == self.patronymic,
            entity.date_of_birth == self.date_of_birth,
            entity.date_of_issue == self.date_of_issue,
            entity.number == parsed_u32(self.number@)->Some_0,
            entity.series == parsed_u32(self.series@)->Some_0,
            entity.gender == gender_of(self.gender),
    {
        let number = match parse_u32(self.number.as_str()) {
            Some(n) => n,
            None => 0,
        };
        let series = match parse_u32(self.series.as_str()) {
            Some(n) => n,
            None => 0,
        };
        passport::Entity {
            id: Id::new(self.id),
            person_id: Id::new(self.person_id),
            first_name: self.first_name,
            last_name: self.last_name,
            patronymic: self.patronymic,
            date_of_birth: self.date_of_birth,
            date_of_issue: self.date_of_issue,
            number,
            series,
            gender: Gender::from(self.gender),
        }
    }
}

/// The `gender` column type.
#[derive(Debug, Clone, Copy, PartialEq, Eq, Structural)]
pub enum PgGender {
    Male,
    Female,
}

/// The text of a gender in the database.
pub open spec fn pg_gender_name(g: PgGender) -> Seq<char> {
    match g {
        PgGender::Male => "male"@,
        PgGender::Female => "female"@,
    }
}

impl PgGender {
    pub fn to_string(&self) -> (text: String)
        ensures
            text@ == pg_gender_name(*self),
    {
        match self {
            PgGender::Male => {
                proof { reveal_strlit("male"); }
                String::from_str("male")
            },
            PgGender::Female => {
                proof { reveal_strlit("female"); }
                String::from_str("female")
            },
        }
    }
}

pub open spec fn pg_gender_of(g: Gender) -> PgGender {
    match g {
        Gender::Male => PgGender::Male,
        Gender::Female => PgGender::Female,
    }
}

pub open spec fn gender_of(g: PgGender) -> Gender {
    match g {
        PgGender::Male => Gender::Male,
        PgGender::Female => Gender::Female,
    }
}

impl From<Gender> for PgGender {
    fn from(value: Gender) -> (g: PgGender) {
        match value {
            Gender::Male => PgGender::Male,
            Gender::Female => PgGender::Female,
        }
    }
}

impl vstd::std_specs::convert::FromSpecImpl<Gender> for PgGender {
    open spec fn obeys_from_spec() -> bool {
        true
    }

    open spec fn from_spec(value: Gender) -> PgGender {
        pg_gender_of(value)
    }
}

impl From<PgGender> for Gender {
    fn from(value: PgGender) -> (g: Gender) {
        match value {
            PgGender::Male => Gender::Male,
            PgGender::Female => Gender::Female,
        }
    }
}

impl vstd::std_specs::convert::FromSpecImpl<PgGender> for Gender {
    open spec fn obeys_from_spec() -> bool {
        true
    }

    open spec fn from_spec(value: PgGender) -> Gender {
        gender_of(value)
    }
}


/// The table's name.
pub const TABLE: &'static str = "passports";

/// The columns that saving a passport writes, in order.
pub open spec fn saved_columns() -> Seq<Seq<char>> {
    seq![
        "person_id"@,
        "first_name"@,
        "last_name"@,
        "patronymic"@,
        "date_of_birth"@,
        "date_of_issue"@,
        "number"@,
        "series"@,
        "gender"@,
    ]
}

/// Whether `params` are the values that saving `entity` writes, in column order;
/// number and series as decimal text, gender as its database name.
pub open spec fn saved_values(
    params: Seq<SqlValue>,
    person_id: i32,
    first_name: String,
    last_name: String,
    patronymic: String,
    date_of_birth: time::Date,
    date_of_issue: time::Date,
    number: u32,
    series: u32,
    gender: Gender,
) -> bool {
    &&& params.len() >= 9
    &&& params[0] == SqlValue::Int(person_id)
    &&& params[1] == SqlValue::Text(first_name)
    &&& params[2] == SqlValue::Text(last_name)
    &&& params[3] == SqlValue::Text(patronymic)
    &&& params[4] == SqlValue::Date(date_of_birth)
    &&& params[5] == SqlValue::Date(date_of_issue)
    &&& params[6] matches SqlValue::Text(t) && t@ == decimal_text(number as nat)
    &&& params[7] matches SqlValue::Text(t) && t@ == decimal_text(series as nat)
    &&& params[8] matches SqlValue::Text(t) && t@ == pg_gender_name(pg_gender_of(gender))
}

fn saved_columns_vec() -> (columns: Vec<&'static str>)
    ensures
        names(columns@) == saved_columns(),
{
    let columns: Vec<&'static str> = vec![
        "person_id",
        "first_name",
        "last_name",
        "patronymic",
        "date_of_birth",
        "date_of_issue",
        "number",
        "series",
        "gender",
    ];
    assert(names(columns@) =~= saved_columns());
    columns
}

fn saved_params(entity: passport::Entity) -> (params: Vec<SqlValue>)
    ensures
        params@.len() == 9,
        saved_values(
            params@,
            entity.person_id.value,
            entity.first_name,
            entity.last_name,
            entity.patronymic,
            entity.date_of_birth,
            entity.date_of_issue,
            entity.number,
            entity.series,
            entity.gender,
        ),
{
    let gender = PgGender::from(entity.gender).to_string();
    vec![
        SqlValue::Int(entity.person_id.value),
        SqlValue::Text(entity.first_name),
        SqlValue::Text(entity.last_name),
        SqlValue::Text(entity.patronymic),
        SqlValue::Date(entity.date_of_birth),
        SqlValue::Date(entity.date_of_issue),
        SqlValue::Text(u32_to_string(entity.number)),
        SqlValue::Text(u32_to_string(entity.series)),
        SqlValue::Text(gender),
    ]
}

/// Inserts a passport: its columns but the identifier, `RETURNING *`.
pub fn insert_statement(entity: passport::Entity) -> (stmt: Statement)
    ensures
        stmt.sql@ == insert_returning_text("passports"@, saved_columns()),
        stmt.params@.len() == 9,
        saved_values(
            stmt.params@,
            entity.person_id.value,
            entity.first_name,
            entity.last_name,
            entity.patronymic,
            entity.date_of_birth,
            entity.date_of_issue,
            entity.number,
            entity.series,
            entity.gender,
        ),
{
    let columns = saved_columns_vec();
    let sql = insert_returning_sql(TABLE, &columns);
    Statement { sql, params: saved_params(entity) }
}

/// Updates the passport with the entity's identifier: its columns but the
/// identifier, then the identifier as the key, `RETURNING *`.
pub fn update_statement(entity: passport::Entity) -> (stmt: Statement)
    ensures
        stmt.sql@ == update_returning_text("passports"@, saved_columns(), "id"@),
        stmt.params@.len() == 10,
        saved_values(
            stmt.params@,
            entity.person_id.value,
            entity.first_name,
            entity.last_name,
            entity.patronymic,
            entity.date_of_birth,
            entity.date_of_issue,
            entity.number,
            entity.series,
            entity.gender,
        ),
        stmt.params@[9] == SqlValue::Int(entity.id.value),
{
    let columns = saved_columns_vec();
    let sql = update_returning_sql(TABLE, &columns, "id");
    let id = entity.id.value;
    let mut params = saved_params(entity);
    params.push(SqlValue::Int(id));
    Statement { sql, params }
}

/// Deletes the passport with the entity's identifier.
pub fn delete_statement(entity: &passport::Entity) -> (stmt: Statement)
    ensures
        stmt.sql@ == delete_where_text("passports"@, "id"@),
        stmt.params@ == seq![SqlValue::Int(entity.id.value)],
{
    let sql = delete_where_sql(TABLE, "id");
    Statement { sql, params: vec![SqlValue::Int(entity.id.value)] }
}

/// Finds the passport with identifier `id`.
pub fn find_statement(id: Id<i32>) -> (stmt: Statement)
    ensures
        stmt.sql@ == select_where_text("passports"@, "id"@),
        stmt.params@ == seq![SqlValue::Int(id.value)],
{
    let sql = select_where_sql(TABLE, "id");
    Statement { sql, params: vec![SqlValue::Int(id.value)] }
}

/// Lists the passports of person `person_id`.
pub fn list_by_person_id_statement(person_id: Id<i32>) -> (stmt: Statement)
    ensures
        stmt.sql@ == select_where_text("passports"@, "person_id"@),
        stmt.params@ == seq![SqlValue::Int(person_id.value)],
{
    let sql = select_where_sql(TABLE, "person_id");
    Statement { sql, params: vec![SqlValue::Int(person_id.value)] }
}

/// Storing a gender and reading it back gives the same gender, either way round.
pub proof fn law_gender_round_trip(g: Gender, p: PgGender)
    ensures
        gender_of(pg_gender_of(g)) == g,
        pg_gender_of(gender_of(p)) == p,
{
}

/// Distinct genders are written as distinct texts.
pub proof fn law_gender_names_distinct(a: PgGender, b: PgGender)
    requires
        a != b,
    ensures
        pg_gender_name(a) != pg_gender_name(b),
{
    reveal_strlit("male");
    reveal_strlit("female");
    assert(pg_gender_name(PgGender::Male).len() != pg_gender_name(PgGender::Female).len());
}

/// Each gender is stored under its own name, and each name is read back as
/// the gender it names, both by the column conversions and by `From`.
pub proof fn law_gender_names()
    ensures
        <PgGender as vstd::std_specs::convert::FromSpec<Gender>>::obeys_from_spec() && <Gender as vstd::std_specs::convert::FromSpec<PgGender>>::obeys_from_spec(),
        forall|g: Gender| pg_gender_of(g) == <PgGender as vstd::std_specs::convert::FromSpec<Gender>>::from_spec(g),
        forall|g: PgGender| gender_of(g) == <Gender as vstd::std_specs::convert::FromSpec<PgGender>>::from_spec(g),
        pg_gender_name(pg_gender_of(Gender::Male)) == "male"@,
        pg_gender_name(pg_gender_of(Gender::Female)) == "female"@,
        forall|g: PgGender| pg_gender_name(g) == "male"@ ==> gender_of(g) == Gender::Male,
        forall|g: PgGender| pg_gender_name(g) == "female"@ ==> gender_of(g) == Gender::Female,
{
    assert forall|g: PgGender| pg_gender_name(g) == "male"@ implies gender_of(g) == Gender::Male by {
        if g != PgGender::Male {
            law_gender_names_distinct(g, PgGender::Male);
        }
    }
    assert forall|g: PgGender| pg_gender_name(g) == "female"@ implies gender_of(g) == Gender::Female by {
        if g != PgGender::Female {
            law_gender_names_distinct(g, PgGender::Female);
        }
    }
}

/// Saving a passport binds, in column order, its person, names and dates, a
/// number and a series text that read back as the passport's number and
/// series, and the name of its own gender.
pub proof fn law_passport_saved_values(
    params: Seq<SqlValue>,
    person_id: i32,
    first_name: String,
    last_name: String,
    patronymic: String,
    date_of_birth: time::Date,
    date_of_issue: time::Date,
    number: u32,
    series: u32,
    gender: Gender,
)
    requires
        saved_values(
            params, person_id, first_name, last_name, patronymic, date_of_birth, date_of_issue, number, series, gender,
        ),
    ensures
        params[0] == SqlValue::Int(person_id),
        params[1] == SqlValue::Text(first_name),
        params[2] == SqlValue::Text(last_name),
        params[3] == SqlValue::Text(patronymic),
        params[4] == SqlValue::Date(date_of_birth),
        params[5] == SqlValue::Date(date_of_issue),
        params[6] matches SqlValue::Text(t) && parsed_u32(t@) == Some(number),
        params[7] matches SqlValue::Text(t) && parsed_u32(t@) == Some(series),
        params[8] matches SqlValue::Text(t) && {
            &&& gender == Gender::Male ==> t@ == "male"@
            &&& gender == Gender::Female ==> t@ == "female"@
        },
{
    law_decimal_round_trip(number);
    law_decimal_round_trip(series);
    law_gender_names();
}

} // verus!
