use adapters::domain::id::Id;
use adapters::domain::student::{Entity, StudentAttestation};
use adapters::query::SqlValue;
use adapters::student::{
    delete_attestations_statement, delete_statement, entities_from_select, find_statement,
    insert_attestation_statement, insert_statement, list_by_attestations_statement, list_by_person_statement,
    list_by_study_group_statement, update_statement, JoinRow, StudentAttestations, Students,
};

fn student(id: i32) -> Students {
    Students { id, person_id: 11, study_group_id: 12 }
}

fn row(id: i32, attestation_id: i32, score: i32) -> JoinRow {
    JoinRow { student: student(id), attestation: StudentAttestations { student_id: id, attestation_id, score } }
}

fn score(attestation_id: i32, score: i32) -> StudentAttestation {
    StudentAttestation { attestation_id: Id::new(attestation_id), score }
}

#[test]
fn student_holds_each_score_once() {
    let rows = vec![
        StudentAttestations { student_id: 1, attestation_id: 4, score: 5 },
        StudentAttestations { student_id: 1, attestation_id: 4, score: 3 },
        StudentAttestations { student_id: 1, attestation_id: 4, score: 5 },
    ];
    let built = student(1).into_entity(rows);
    assert_eq!(
        built,
        Entity { id: Id::new(1), person_id: Id::new(11), study_group_id: Id::new(12), attestations: vec![score(4, 5), score(4, 3)] }
    );
}

#[test]
fn student_rows_are_grouped_by_first_appearance() {
    let entities = entities_from_select(vec![row(3, 1, 4), row(2, 1, 5), row(3, 2, 3)]);
    assert_eq!(entities.len(), 2);
    assert_eq!(entities[0].id, Id::new(3));
    assert_eq!(entities[0].attestations, vec![score(1, 4), score(2, 3)]);
    assert_eq!(entities[1].attestations, vec![score(1, 5)]);
}

#[test]
fn student_statements() {
    let e = Entity { id: Id::new(1), person_id: Id::new(11), study_group_id: Id::new(12), attestations: vec![] };
    let insert = insert_statement(&e);
    assert_eq!(insert.sql, r#"INSERT INTO "students" ("person_id", "study_group_id") VALUES ($1, $2) RETURNING *"#);
    assert_eq!(insert.params, vec![SqlValue::Int(11), SqlValue::Int(12)]);
    let update = update_statement(&e);
    assert_eq!(update.sql, r#"UPDATE "students" SET "person_id" = $1, "study_group_id" = $2 WHERE "id" IS $3 RETURNING *"#);
    assert_eq!(update.params, vec![SqlValue::Int(11), SqlValue::Int(12), SqlValue::Int(1)]);
    let join = r#"SELECT * FROM "students" INNER JOIN "student_attestations" ON "students"."id" = "student_attestations"."student_id""#;
    assert_eq!(find_statement(Id::new(1)).sql, format!(r#"{join} WHERE "students"."id" IS $1"#));
    let by_person = list_by_person_statement(Id::new(11));
    assert_eq!(by_person.sql, format!(r#"{join} WHERE "students"."person_id" = $1"#));
    assert_eq!(by_person.params, vec![SqlValue::Int(11)]);
    let by_group = list_by_study_group_statement(Id::new(12));
    assert_eq!(by_group.sql, format!(r#"{join} WHERE "students"."study_group_id" = $1"#));
    let by_attestations = list_by_attestations_statement(&vec![Id::new(4)]);
    assert_eq!(by_attestations.sql, format!(r#"{join} WHERE "student_attestations"."attestation_id" IS $1"#));
    assert_eq!(by_attestations.params, vec![SqlValue::Int(4)]);
    assert_eq!(delete_statement(&e).sql, r#"DELETE FROM "students" WHERE "id" IS $1"#);
    assert_eq!(delete_attestations_statement(1).sql, r#"DELETE FROM "student_attestations" WHERE "student_id" IS $1"#);
    let record = insert_attestation_statement(1, &score(4, 5));
    assert_eq!(
        record.sql,
        r#"INSERT INTO "student_attestations" ("student_id", "attestation_id", "score") VALUES ($1, $2, $3) RETURNING *"#
    );
    assert_eq!(record.params, vec![SqlValue::Int(1), SqlValue::Int(4), SqlValue::Int(5)]);
}
