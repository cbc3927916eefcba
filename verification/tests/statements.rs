use adapters::domain::id::Id;
use adapters::domain::passport::Gender;
use adapters::domain::study_group::{Qualification, TrainingKind};
use adapters::domain::teacher::{TeacherClass, TeacherKind};
use adapters::domain::{class_kind, passport, person, study_group, teacher, university, user};
use adapters::query::SqlValue;

fn text(s: &str) -> SqlValue {
    SqlValue::Text(s.to_string())
}

#[test]
fn class_kind_statements() {
    let entity = class_kind::Entity { name: Id::new("lab".to_string()) };
    let insert = adapters::class_kind::insert_statement(entity.clone());
    assert_eq!(insert.sql, r#"INSERT INTO "class_kinds" ("name") VALUES ($1) RETURNING *"#);
    assert_eq!(insert.params, vec![text("lab")]);
    let update = adapters::class_kind::update_statement(entity.clone());
    assert_eq!(update.sql, r#"UPDATE "class_kinds" SET "name" = $1 RETURNING *"#);
    let delete = adapters::class_kind::delete_statement(&entity);
    assert_eq!(delete.sql, r#"DELETE FROM "class_kinds" WHERE "class_kinds" IS $1"#);
    assert_eq!(delete.params, vec![text("lab")]);
    let find = adapters::class_kind::find_statement(Id::new("lab".to_string()));
    assert_eq!(find.sql, r#"SELECT * FROM "class_kinds" WHERE "class_kinds" IS $1"#);
}

fn date(y: i32) -> time::Date {
    time::Date::from_calendar_date(y, time::Month::May, 1).unwrap()
}

fn passport_entity() -> passport::Entity {
    passport::Entity {
        id: Id::new(3),
        person_id: Id::new(4),
        first_name: "Anna".to_string(),
        last_name: "Ivanova".to_string(),
        patronymic: "Petrovna".to_string(),
        date_of_birth: date(1999),
        date_of_issue: date(2019),
        number: 654321,
        series: 4512,
        gender: Gender::Female,
    }
}

#[test]
fn passport_statements() {
    let insert = adapters::passport::insert_statement(passport_entity());
    assert_eq!(
        insert.sql,
        r#"INSERT INTO "passports" ("person_id", "first_name", "last_name", "patronymic", "date_of_birth", "date_of_issue", "number", "series", "gender") VALUES ($1, $2, $3, $4, $5, $6, $7, $8, $9) RETURNING *"#
    );
    assert_eq!(
        insert.params,
        vec![
            SqlValue::Int(4),
            text("Anna"),
            text("Ivanova"),
            text("Petrovna"),
            SqlValue::Date(date(1999)),
            SqlValue::Date(date(2019)),
            text("654321"),
            text("4512"),
            text("female"),
        ]
    );
    let update = adapters::passport::update_statement(passport_entity());
    assert_eq!(
        update.sql,
        r#"UPDATE "passports" SET "person_id" = $1, "first_name" = $2, "last_name" = $3, "patronymic" = $4, "date_of_birth" = $5, "date_of_issue" = $6, "number" = $7, "series" = $8, "gender" = $9 WHERE "id" IS $10 RETURNING *"#
    );
    assert_eq!(update.params.len(), 10);
    assert_eq!(update.params[9], SqlValue::Int(3));
    let delete = adapters::passport::delete_statement(&passport_entity());
    assert_eq!(delete.sql, r#"DELETE FROM "passports" WHERE "id" IS $1"#);
    assert_eq!(delete.params, vec![SqlValue::Int(3)]);
    let list = adapters::passport::list_by_person_id_statement(Id::new(4));
    assert_eq!(list.sql, r#"SELECT * FROM "passports" WHERE "person_id" IS $1"#);
    assert_eq!(adapters::passport::find_statement(Id::new(3)).params, vec![SqlValue::Int(3)]);
}

fn study_group_entity() -> study_group::Entity {
    study_group::Entity {
        id: Id::new(9),
        name: "B-201".to_string(),
        studying_qualification: Qualification::Bachelor,
        training_kind: TrainingKind::FullTime,
        department_id: Id::new(2),
        curriculums: vec![Id::new(31)],
    }
}

#[test]
fn study_group_statements() {
    let g = study_group_entity();
    let insert = adapters::study_group::insert_statement(&g);
    assert_eq!(
        insert.sql,
        r#"INSERT INTO "study_groups" ("name", "studying_qualification", "training_kind", "department_id") VALUES ($1, $2, $3, $4) RETURNING *"#
    );
    assert_eq!(insert.params, vec![text("B-201"), text("bachelor"), text("full_time"), SqlValue::Int(2)]);
    let update = adapters::study_group::update_statement(&g);
    assert_eq!(update.params[4], SqlValue::Int(9));
    let link = adapters::study_group::insert_curriculum_statement(&g, &g.curriculums[0]);
    assert_eq!(
        link.sql,
        r#"INSERT INTO "study_group_curriculums" ("study_group_id", "curriculum_id") VALUES ($1, $2) RETURNING *"#
    );
    assert_eq!(link.params, vec![SqlValue::Int(9), SqlValue::Int(31)]);
    let delete = adapters::study_group::delete_statement(9);
    assert_eq!(delete.sql, r#"DELETE FROM "study_groups" WHERE "id" IS $1 RETURNING *"#);
    let by_name = adapters::study_group::find_by_name_statement("B-201".to_string());
    assert_eq!(by_name.sql, r#"SELECT * FROM "study_groups" WHERE "name" IS $1"#);
    let unlink = adapters::study_group::delete_curriculums_statement(9);
    assert_eq!(unlink.sql, r#"DELETE FROM "study_group_curriculums" WHERE "study_group_id" IS $1 RETURNING *"#);
}

#[test]
fn teacher_statements() {
    let t = teacher::Entity {
        id: Id::new(5),
        person_id: Id::new(6),
        kind: TeacherKind::SeniorTeacher,
        department_id: Id::new(7),
        classes: vec![],
    };
    let insert = adapters::teacher::insert_statement(&t);
    assert_eq!(
        insert.sql,
        r#"INSERT INTO "teachers" ("person_id", "kind", "department_id") VALUES ($1, $2, $3) RETURNING *"#
    );
    assert_eq!(insert.params, vec![SqlValue::Int(6), text("senior_teacher"), SqlValue::Int(7)]);
    let find = adapters::teacher::find_statement(Id::new(5));
    assert_eq!(
        find.sql,
        r#"SELECT * FROM "teachers" INNER JOIN "teacher_classes" ON "teachers"."id" = "teacher_classes"."teacher_id" WHERE "teachers"."id" IS $1"#
    );
    let class = TeacherClass { study_group_id: Id::new(8), class_id: Id::new(9) };
    let link = adapters::teacher::insert_class_statement(5, &class);
    assert_eq!(link.params, vec![SqlValue::Int(5), SqlValue::Int(9), SqlValue::Int(8)]);
    let unlink = adapters::teacher::delete_classes_statement(5);
    assert_eq!(unlink.sql, r#"DELETE FROM "teacher_classes" WHERE "teacher_id" IS $1"#);
}

#[test]
fn user_statements() {
    let u = user::Entity {
        id: Id::new(1),
        email: "a@b.c".to_string(),
        password: user::HashedPassword { value: "hash".to_string() },
    };
    let update = adapters::user::update_statement(u.clone());
    assert_eq!(update.sql, r#"UPDATE "users" SET "email" = $1, "password" = $2 WHERE "id" IS $3 RETURNING *"#);
    assert_eq!(update.params, vec![text("a@b.c"), text("hash"), SqlValue::Int(1)]);
    let by_email = adapters::user::find_by_email_statement("a@b.c".to_string());
    assert_eq!(by_email.sql, r#"SELECT * FROM "users" WHERE "email" IS $1"#);
}

#[test]
fn university_statements() {
    let entity = university::Entity { id: Id::new(4), name: "MIT".to_string() };
    let insert = adapters::university::insert_statement(entity.clone());
    assert_eq!(insert.sql, r#"INSERT INTO "universities" ("name") VALUES ($1) RETURNING *"#);
    assert_eq!(insert.params, vec![text("MIT")]);
    let update = adapters::university::update_statement(entity.clone());
    assert_eq!(update.sql, r#"UPDATE "universities" SET "name" = $1 WHERE "id" IS $2 RETURNING *"#);
    assert_eq!(update.params, vec![text("MIT"), SqlValue::Int(4)]);
    let delete = adapters::university::delete_statement(&entity);
    assert_eq!(delete.sql, r#"DELETE FROM "universities" WHERE "id" IS $1"#);
    assert_eq!(delete.params, vec![SqlValue::Int(4)]);
    let find = adapters::university::find_statement(Id::new(4));
    assert_eq!(find.sql, r#"SELECT * FROM "universities" WHERE "id" IS $1"#);
    assert_eq!(find.params, vec![SqlValue::Int(4)]);
    let by_name = adapters::university::find_by_name_statement("MIT".to_string());
    assert_eq!(by_name.sql, r#"SELECT * FROM "universities" WHERE "name" IS $1"#);
    assert_eq!(by_name.params, vec![text("MIT")]);
    let row = adapters::university::Universities { id: 4, name: "MIT".to_string() };
    assert_eq!(university::Entity::from(row), entity);
}

#[test]
fn person_statements() {
    let insert = adapters::person::insert_statement(Id::new(2), "Ann Lee".to_string());
    assert_eq!(insert.sql, r#"INSERT INTO "persons" ("user_id", "full_name") VALUES ($1, $2) RETURNING *"#);
    assert_eq!(insert.params, vec![SqlValue::Int(2), text("Ann Lee")]);
    let update = adapters::person::update_statement(Id::new(7), Id::new(2), "Ann Lee".to_string());
    assert_eq!(update.sql, r#"UPDATE "persons" SET "user_id" = $1, "full_name" = $2 WHERE "id" IS $3 RETURNING *"#);
    assert_eq!(update.params, vec![SqlValue::Int(2), text("Ann Lee"), SqlValue::Int(7)]);
    let entity = person::Entity { id: Id::new(7), user_id: Id::new(2) };
    assert_eq!(adapters::person::delete_statement(&entity).sql, r#"DELETE FROM "persons" WHERE "id" IS $1"#);
    let find = adapters::person::find_statement(Id::new(7));
    assert_eq!(find.sql, r#"SELECT  FROM "persons" WHERE "id" IS $1"#);
    assert_eq!(find.params, vec![SqlValue::Int(7)]);
    let by_user = adapters::person::find_by_user_id_statement(Id::new(2));
    assert_eq!(by_user.sql, r#"SELECT  FROM "persons" WHERE "user_id" IS $1"#);
}
