use adapters::domain::teacher::TeacherKind;
use adapters::teacher::{entities_from_select, entity_from_select, JoinRow, PgTeacherKind, TeacherClasses, Teachers};

fn teacher(id: i32, department_id: i32) -> Teachers {
    Teachers { id, person_id: id * 10, kind: PgTeacherKind::Professor, department_id }
}

fn class(teacher_id: i32, study_group_id: i32, class_id: i32) -> TeacherClasses {
    TeacherClasses { teacher_id, study_group_id, class_id }
}

#[test]
fn teacher_holds_each_class_once() {
    let entity = teacher(1, 4).into_entity(vec![class(1, 2, 3), class(1, 5, 6), class(1, 2, 3)]);
    assert_eq!(entity.id.value, 1);
    assert_eq!(entity.person_id.value, 10);
    assert_eq!(entity.kind, TeacherKind::Professor);
    assert_eq!(entity.department_id.value, 4);
    let classes: Vec<(i32, i32)> = entity.classes.iter().map(|c| (c.study_group_id.value, c.class_id.value)).collect();
    assert_eq!(classes, vec![(2, 3), (5, 6)]);
}

#[test]
fn no_rows_describe_no_teacher() {
    assert!(entity_from_select(Vec::new()).is_none());
}

#[test]
fn rows_of_one_teacher_describe_it() {
    let rows = vec![
        JoinRow { teacher: teacher(1, 4), class: class(1, 2, 3) },
        JoinRow { teacher: teacher(1, 4), class: class(1, 7, 8) },
    ];
    let entity = entity_from_select(rows).unwrap();
    assert_eq!(entity.id.value, 1);
    assert_eq!(entity.classes.len(), 2);
}

#[test]
fn rows_of_several_teachers_are_grouped_by_first_appearance() {
    let rows = vec![
        JoinRow { teacher: teacher(2, 4), class: class(2, 1, 1) },
        JoinRow { teacher: teacher(1, 4), class: class(1, 2, 3) },
        JoinRow { teacher: teacher(2, 4), class: class(2, 1, 2) },
        JoinRow { teacher: teacher(1, 4), class: class(1, 2, 3) },
    ];
    let entities = entities_from_select(rows);
    assert_eq!(entities.len(), 2);
    assert_eq!(entities[0].id.value, 2);
    assert_eq!(entities[0].classes.len(), 2);
    assert_eq!(entities[1].id.value, 1);
    assert_eq!(entities[1].classes.len(), 1);
    assert!(entities_from_select(Vec::new()).is_empty());
}

#[test]
fn teacher_kind_names_and_round_trip() {
    assert_eq!(PgTeacherKind::Assistant.to_string(), "assistant");
    assert_eq!(PgTeacherKind::RegularTeacher.to_string(), "regular_teacher");
    assert_eq!(PgTeacherKind::SeniorTeacher.to_string(), "senior_teacher");
    assert_eq!(PgTeacherKind::AssociateProfessor.to_string(), "associate_professor");
    assert_eq!(PgTeacherKind::Professor.to_string(), "professor");
    for kind in [
        TeacherKind::Assistant,
        TeacherKind::RegularTeacher,
        TeacherKind::SeniorTeacher,
        TeacherKind::AssociateProfessor,
        TeacherKind::Professor,
    ] {
        assert_eq!(TeacherKind::from(PgTeacherKind::from(kind)), kind);
    }
}
