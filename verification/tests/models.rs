use adapters::class::Classes;
use adapters::class_kind::ClassKinds;
use adapters::curriculum_module::CurriculumModules;
use adapters::decimal::{parse_u32, u32_to_string};
use adapters::discipline::Disciplines;
use adapters::domain::passport::Gender;
use adapters::domain::study_group::{Qualification, TrainingKind};
use adapters::domain::{class, class_kind, curriculum_module, discipline, person, user};
use adapters::passport::{Passports, PgGender};
use adapters::person::Persons;
use adapters::study_group::{PgQualification, PgTrainingKind, StudyGroupCurriculums, StudyGroups};
use adapters::user::Users;

#[test]
fn simple_records_convert_field_by_field() {
    let c = class::Entity::from(Classes { id: 1, curriculum_module_id: 2, kind_name: "lecture".to_string() });
    assert_eq!((c.id.value, c.curriculum_module_id.value, c.kind_name.value.as_str()), (1, 2, "lecture"));
    let k = class_kind::Entity::from(ClassKinds { name: "lab".to_string() });
    assert_eq!(k.name.value, "lab");
    let m = curriculum_module::Entity::from(CurriculumModules { id: 3, discipline_id: 4, curriculum_id: 5, semester: 2 });
    assert_eq!((m.id.value, m.discipline_id.value, m.curriculum_id.value, m.semester), (3, 4, 5, 2));
    let d = discipline::Entity::from(Disciplines { id: 6, name: "Algebra".to_string(), department_id: 7 });
    assert_eq!((d.id.value, d.name.as_str(), d.department_id.value), (6, "Algebra", 7));
    let p = person::Entity::from(Persons { id: 8, user_id: 9 });
    assert_eq!((p.id.value, p.user_id.value), (8, 9));
    let u = user::Entity::from(Users { id: 10, email: "x@y.z".to_string(), password: "h".to_string() });
    assert_eq!((u.id.value, u.email.as_str(), u.password.value.as_str()), (10, "x@y.z", "h"));
}

#[test]
fn decimal_numbers_read_as_u32_from_str_reads_them() {
    assert_eq!(parse_u32("123456"), Some(123456));
    assert_eq!(parse_u32("+42"), Some(42));
    assert_eq!(parse_u32("007"), Some(7));
    assert_eq!(parse_u32("4294967295"), Some(u32::MAX));
    assert_eq!(parse_u32("4294967296"), None);
    assert_eq!(parse_u32(""), None);
    assert_eq!(parse_u32("+"), None);
    assert_eq!(parse_u32("-1"), None);
    assert_eq!(parse_u32("12a"), None);
    assert_eq!(parse_u32(" 1"), None);
    for s in ["0", "9", "10", "99999", "4294967295", "+1", "00", "1x", "", "-0"] {
        assert_eq!(parse_u32(s), s.parse::<u32>().ok(), "{s}");
    }
}

#[test]
fn decimal_text_matches_to_string_and_reads_back() {
    for n in [0u32, 7, 10, 99, 1000, 123456, u32::MAX] {
        assert_eq!(u32_to_string(n), n.to_string());
        assert_eq!(parse_u32(&u32_to_string(n)), Some(n));
    }
}

fn passport_row(number: &str, series: &str) -> Passports {
    Passports {
        id: 1,
        person_id: 2,
        first_name: "Ivan".to_string(),
        last_name: "Petrov".to_string(),
        patronymic: "Sergeevich".to_string(),
        date_of_birth: time::Date::from_calendar_date(2000, time::Month::January, 2).unwrap(),
        date_of_issue: time::Date::from_calendar_date(2020, time::Month::March, 4).unwrap(),
        number: number.to_string(),
        series: series.to_string(),
        gender: PgGender::Female,
    }
}

#[test]
fn passport_row_converts() {
    let p = passport_row("123456", "4510").into_entity();
    assert_eq!(p.number, 123456);
    assert_eq!(p.series, 4510);
    assert_eq!(p.gender, Gender::Female);
    assert_eq!(p.first_name, "Ivan");
    assert_eq!(p.date_of_birth, time::Date::from_calendar_date(2000, time::Month::January, 2).unwrap());
}

#[test]
fn gender_names_and_round_trip() {
    assert_eq!(PgGender::Male.to_string(), "male");
    assert_eq!(PgGender::Female.to_string(), "female");
    assert_eq!(Gender::from(PgGender::from(Gender::Male)), Gender::Male);
    assert_eq!(Gender::from(PgGender::from(Gender::Female)), Gender::Female);
}

#[test]
fn study_group_converts_with_its_curricula() {
    let row = StudyGroups {
        id: 5,
        name: "M-101".to_string(),
        studying_qualification: PgQualification::Master,
        training_kind: PgTrainingKind::Correspondence,
        department_id: 3,
    };
    let g = row.into_entity(vec![
        StudyGroupCurriculums { study_group_id: 5, curriculum_id: 11 },
        StudyGroupCurriculums { study_group_id: 5, curriculum_id: 12 },
    ]);
    assert_eq!(g.id.value, 5);
    assert_eq!(g.name, "M-101");
    assert_eq!(g.studying_qualification, Qualification::Master);
    assert_eq!(g.training_kind, TrainingKind::Correspondence);
    let ids: Vec<i32> = g.curriculums.iter().map(|c| c.value).collect();
    assert_eq!(ids, vec![11, 12]);
}

#[test]
fn study_group_kind_names() {
    assert_eq!(PgQualification::Bachelor.to_string(), "bachelor");
    assert_eq!(PgQualification::Master.to_string(), "master");
    assert_eq!(PgQualification::Postgraduate.to_string(), "postgraduate");
    assert_eq!(PgQualification::Doctorate.to_string(), "doctorate");
    assert_eq!(PgTrainingKind::FullTime.to_string(), "full_time");
    assert_eq!(PgTrainingKind::Correspondence.to_string(), "correspondence");
    for q in [Qualification::Bachelor, Qualification::Master, Qualification::Postgraduate, Qualification::Doctorate] {
        assert_eq!(Qualification::from(PgQualification::from(q)), q);
    }
    for k in [TrainingKind::FullTime, TrainingKind::Correspondence] {
        assert_eq!(TrainingKind::from(PgTrainingKind::from(k)), k);
    }
}
