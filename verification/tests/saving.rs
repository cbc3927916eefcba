use adapters::save::{begin_save, step, SaveAction, SaveEvent, SavePhase, SaveProgress, UnexpectedEvent};

fn drive(child_count: usize, events: &[SaveEvent]) -> Result<(SaveProgress, Vec<SaveAction>), UnexpectedEvent> {
    let (mut progress, first) = begin_save(child_count);
    let mut actions = vec![first];
    for event in events {
        let (next, action) = step(progress, *event)?;
        progress = next;
        actions.push(action);
    }
    Ok((progress, actions))
}

#[test]
fn save_begins_by_finding_the_entity() {
    let (progress, action) = begin_save(3);
    assert_eq!(action, SaveAction::Find);
    assert_eq!(progress.phase, SavePhase::Finding);
    assert_eq!(progress.next_child, 0);
    assert_eq!(progress.child_count, 3);
}

#[test]
fn found_entity_is_updated_and_missing_one_inserted() {
    let (progress, _) = begin_save(0);
    assert_eq!(step(progress, SaveEvent::Found { exists: true }).unwrap().1, SaveAction::Update);
    assert_eq!(step(progress, SaveEvent::Found { exists: false }).unwrap().1, SaveAction::Insert);
}

#[test]
fn save_with_two_children_asks_in_order() {
    let events = [
        SaveEvent::Found { exists: false },
        SaveEvent::ParentSaved { parent_id: 7 },
        SaveEvent::ChildrenDeleted,
        SaveEvent::ChildInserted,
        SaveEvent::ChildInserted,
    ];
    let (progress, actions) = drive(2, &events).unwrap();
    assert_eq!(
        actions,
        vec![
            SaveAction::Find,
            SaveAction::Insert,
            SaveAction::DeleteChildren { parent_id: 7 },
            SaveAction::InsertChild { parent_id: 7, index: 0 },
            SaveAction::InsertChild { parent_id: 7, index: 1 },
            SaveAction::Finish { parent_id: 7 },
        ]
    );
    assert_eq!(progress.phase, SavePhase::Done);
    assert_eq!(progress.parent_id, 7);
}

#[test]
fn save_without_children_finishes_after_deleting() {
    let events = [SaveEvent::Found { exists: true }, SaveEvent::ParentSaved { parent_id: 3 }, SaveEvent::ChildrenDeleted];
    let (progress, actions) = drive(0, &events).unwrap();
    assert_eq!(
        actions,
        vec![
            SaveAction::Find,
            SaveAction::Update,
            SaveAction::DeleteChildren { parent_id: 3 },
            SaveAction::Finish { parent_id: 3 },
        ]
    );
    assert_eq!(progress.phase, SavePhase::Done);
}

#[test]
fn answer_out_of_turn_is_refused() {
    let (progress, _) = begin_save(1);
    assert_eq!(step(progress, SaveEvent::ChildInserted), Err(UnexpectedEvent));
    assert_eq!(step(progress, SaveEvent::ParentSaved { parent_id: 1 }), Err(UnexpectedEvent));
    let events = [SaveEvent::Found { exists: true }, SaveEvent::ParentSaved { parent_id: 1 }, SaveEvent::ChildrenDeleted, SaveEvent::ChildInserted];
    let (done, _) = drive(1, &events).unwrap();
    assert_eq!(step(done, SaveEvent::ChildInserted), Err(UnexpectedEvent));
}
