use adapters::attestation::{
    delete_examiners_statement, delete_statement, entities_from_select, entity_from_select,
    find_by_curriculum_module_statement, find_statement, insert_examiner_statement, insert_statement,
    list_by_examiners_statement, update_statement, AttestationExaminers, Attestations, JoinRow,
};
use adapters::domain::attestation::{Duration, Entity};
use adapters::domain::id::Id;
use adapters::query::SqlValue;

fn attestation(id: i32) -> Attestations {
    Attestations { id, curriculum_module_id: 3, kind: "exam".to_string(), duration: 90 }
}

fn row(id: i32, examiner_id: i32) -> JoinRow {
    JoinRow { attestation: attestation(id), examiner: AttestationExaminers { attestation_id: id, examiner_id } }
}

fn entity() -> Entity {
    Entity {
        id: Id::new(5),
        curriculum_module_id: Id::new(3),
        kind: "exam".to_string(),
        duration: Duration(90),
        examiners: vec![Id::new(8), Id::new(9)],
    }
}

#[test]
fn attestation_holds_each_examiner_once() {
    let examiners = vec![
        AttestationExaminers { attestation_id: 5, examiner_id: 8 },
        AttestationExaminers { attestation_id: 5, examiner_id: 9 },
        AttestationExaminers { attestation_id: 5, examiner_id: 8 },
    ];
    let built = attestation(5).into_entity(examiners);
    assert_eq!(built, Entity { id: Id::new(5), ..entity() });
}

#[test]
fn attestation_rows_are_grouped_by_first_appearance() {
    let rows = vec![row(2, 8), row(1, 9), row(2, 7)];
    let entities = entities_from_select(rows);
    assert_eq!(entities.len(), 2);
    assert_eq!(entities[0].id, Id::new(2));
    assert_eq!(entities[0].examiners, vec![Id::new(8), Id::new(7)]);
    assert_eq!(entities[1].id, Id::new(1));
    assert_eq!(entities[1].examiners, vec![Id::new(9)]);
    assert!(entity_from_select(vec![]).is_none());
    assert_eq!(entity_from_select(vec![row(4, 1)]).unwrap().examiners, vec![Id::new(1)]);
}

#[test]
fn attestation_statements() {
    let e = entity();
    let insert = insert_statement(&e);
    assert_eq!(insert.sql, r#"INSERT INTO "attestations" ("curriculum_module_id", "kind", "duration") VALUES ($1, $2, $3) RETURNING *"#);
    assert_eq!(insert.params, vec![SqlValue::Int(3), SqlValue::Text("exam".to_string()), SqlValue::Int(90)]);
    let update = update_statement(&e);
    assert_eq!(
        update.sql,
        r#"UPDATE "attestations" SET "curriculum_module_id" = $1, "kind" = $2, "duration" = $3 WHERE "id" IS $4 RETURNING *"#
    );
    assert_eq!(update.params, vec![SqlValue::Int(3), SqlValue::Text("exam".to_string()), SqlValue::Int(90), SqlValue::Int(5)]);
    let find = find_statement(Id::new(5));
    assert_eq!(
        find.sql,
        r#"SELECT * FROM "attestations" INNER JOIN "attestation_examiners" ON "attestations"."id" = "attestation_examiners"."attestation_id" WHERE "attestations"."id" IS $1"#
    );
    let by_module = find_by_curriculum_module_statement(Id::new(3));
    assert_eq!(
        by_module.sql,
        r#"SELECT * FROM "attestations" INNER JOIN "attestation_examiners" ON "attestations"."id" = "attestation_examiners"."attestation_id" WHERE "attestations"."curriculum_module_id" IS $1"#
    );
    assert_eq!(by_module.params, vec![SqlValue::Int(3)]);
    let delete = delete_statement(&e);
    assert_eq!(delete.sql, r#"DELETE FROM "attestations" WHERE "id" IS $1"#);
    let unlink = delete_examiners_statement(5);
    assert_eq!(unlink.sql, r#"DELETE FROM "attestation_examiners" WHERE "attestation_id" IS $1"#);
    let link = insert_examiner_statement(5, Id::new(8));
    assert_eq!(link.sql, r#"INSERT INTO "attestation_examiners" ("attestation_id", "examiner_id") VALUES ($1, $2) RETURNING *"#);
    assert_eq!(link.params, vec![SqlValue::Int(5), SqlValue::Int(8)]);
}

#[test]
fn attestations_of_all_examiners() {
    let list = list_by_examiners_statement(&vec![Id::new(8), Id::new(9)]);
    assert_eq!(
        list.sql,
        r#"SELECT * FROM "attestations" INNER JOIN "attestation_examiners" ON "attestations"."id" = "attestation_examiners"."attestation_id" WHERE "attestation_examiners"."examiner_id" IS $1 AND "attestation_examiners"."examiner_id" IS $2"#
    );
    assert_eq!(list.params, vec![SqlValue::Int(8), SqlValue::Int(9)]);
    let three = list_by_examiners_statement(&vec![Id::new(1), Id::new(2), Id::new(3)]);
    assert_eq!(
        three.sql,
        r#"SELECT * FROM "attestations" INNER JOIN "attestation_examiners" ON "attestations"."id" = "attestation_examiners"."attestation_id" WHERE "attestation_examiners"."examiner_id" IS $1 AND "attestation_examiners"."examiner_id" IS $2 AND "attestation_examiners"."examiner_id" IS $3"#
    );
    let none = list_by_examiners_statement(&vec![]);
    assert_eq!(
        none.sql,
        r#"SELECT * FROM "attestations" INNER JOIN "attestation_examiners" ON "attestations"."id" = "attestation_examiners"."attestation_id" WHERE TRUE"#
    );
    assert!(none.params.is_empty());
}
