//! Saving an entity that owns child rows (a teacher's classes, a study group's
//! curricula): find it, update or insert its row, delete its child rows, insert
//! one row per child, and finish. The decisions of that exchange with the
//! database, as a machine from state and event to next state and action.

use vstd::prelude::*;

verus! {

/// What the repository is to do next.
#[derive(Debug, Clone, Copy, PartialEq, Eq, Structural)]
pub enum SaveAction {
    /// Look the entity up by its identifier.
    Find,
    /// Insert the entity's row, which was not found.
    Insert,
    /// Update the entity's row, which was found.
    Update,
    /// Delete every child row of the saved row `parent_id`.
    DeleteChildren { parent_id: i32 },
    /// Insert the child row of the entity's child `index`, linked to the saved row `parent_id`.
    InsertChild { parent_id: i32, index: usize },
    /// Build the entity from the saved row `parent_id` and the inserted child rows.
    Finish { parent_id: i32 },
}

/// What the database answered to the last action.
#[derive(Debug, Clone, Copy, PartialEq, Eq, Structural)]
pub enum SaveEvent {
    Found { exists: bool },
    ParentSaved { parent_id: i32 },
    ChildrenDeleted,
    ChildInserted,
}

#[derive(Debug, Clone, Copy, PartialEq, Eq, Structural)]
pub enum SavePhase {
    Finding,
    SavingParent,
    DeletingChildren,
    InsertingChildren,
    Done,
}

/// How far a save has come.
#[derive(Debug, Clone, Copy, PartialEq, Eq, Structural)]
pub struct SaveProgress {
    pub phase: SavePhase,
    /// The identifier of the saved row, once there is one.
    pub parent_id: i32,
    /// While children are inserted: the number of child rows requested so far.
    pub next_child: usize,
    /// The number of children of the entity.
    pub child_count: usize,
}

/// An answer that does not fit the action it should answer.
#[derive(Debug, Clone, Copy, PartialEq, Eq, Structural)]
pub struct UnexpectedEvent;

/// The first state and action of saving an entity with `child_count` children.
pub fn begin_save(child_count: usize) -> (start: (SaveProgress, SaveAction))
    ensures
        start == (SaveProgress { phase: SavePhase::Finding, parent_id: 0, next_child: 0, child_count }, SaveAction::Find),
{
    (SaveProgress { phase: SavePhase::Finding, parent_id: 0, next_child: 0, child_count }, SaveAction::Find)
}

/// After the child rows are deleted, or child `next_child - 1` inserted: the
/// next child's insertion, or the end.
pub open spec fn after_child(p: SaveProgress, inserted: usize) -> (SaveProgress, SaveAction) {
    if inserted < p.child_count {
        (
            SaveProgress { phase: SavePhase::InsertingChildren, next_child: (inserted + 1) as usize, ..p },
            SaveAction::InsertChild { parent_id: p.parent_id, index: inserted },
        )
    } else {
        (SaveProgress { phase: SavePhase::Done, next_child: inserted, ..p }, SaveAction::Finish { parent_id: p.parent_id })
    }
}

/// The next state and action, or none where the event does not fit.
pub open spec fn next(p: SaveProgress, e: SaveEvent) -> Option<(SaveProgress, SaveAction)> {
    match (p.phase, e) {
        (SavePhase::Finding, SaveEvent::Found { exists }) => Some((
            SaveProgress { phase: SavePhase::SavingParent, ..p },
            if exists { SaveAction::Update } else { SaveAction::Insert },
        )),
        (SavePhase::SavingParent, SaveEvent::ParentSaved { parent_id }) => Some((
            SaveProgress { phase: SavePhase::DeletingChildren, parent_id, ..p },
            SaveAction::DeleteChildren { parent_id },
        )),
        (SavePhase::DeletingChildren, SaveEvent::ChildrenDeleted) => Some(after_child(p, 0)),
        (SavePhase::InsertingChildren, SaveEvent::ChildInserted) => Some(after_child(p, p.next_child)),
        _ => None,
    }
}

/// Whether the counters of a save are consistent.
pub open spec fn well_formed(p: SaveProgress) -> bool {
    p.next_child <= p.child_count
}

fn after_child_exec(p: SaveProgress, inserted: usize) -> (r: (SaveProgress, SaveAction))
    requires
        inserted <= p.child_count,
    ensures
        r == after_child(p, inserted),
{
    if inserted < p.child_count {
        (
            SaveProgress { phase: SavePhase::InsertingChildren, next_child: inserted + 1, ..p },
            SaveAction::InsertChild { parent_id: p.parent_id, index: inserted },
        )
    } else {
        (SaveProgress { phase: SavePhase::Done, next_child: inserted, ..p }, SaveAction::Finish { parent_id: p.parent_id })
    }
}

/// The next state and action after `event`.
pub fn step(progress: SaveProgress, event: SaveEvent) -> (r: Result<(SaveProgress, SaveAction), UnexpectedEvent>)
    requires
        well_formed(progress),
    ensures
        match next(progress, event) {
            Some(n) => r == Ok::<(SaveProgress, SaveAction), UnexpectedEvent>(n) && well_formed(n.0),
            None => r == Err::<(SaveProgress, SaveAction), UnexpectedEvent>(UnexpectedEvent),
        },
{
    match (progress.phase, event) {
        (SavePhase::Finding, SaveEvent::Found { exists }) => Ok((
            SaveProgress { phase: SavePhase::SavingParent, ..progress },
            if exists { SaveAction::Update } else { SaveAction::Insert },
        )),
        (SavePhase::SavingParent, SaveEvent::ParentSaved { parent_id }) => Ok((
            SaveProgress { phase: SavePhase::DeletingChildren, parent_id, ..progress },
            SaveAction::DeleteChildren { parent_id },
        )),
        (SavePhase::DeletingChildren, SaveEvent::ChildrenDeleted) => Ok(after_child_exec(progress, 0)),
        (SavePhase::InsertingChildren, SaveEvent::ChildInserted) => Ok(after_child_exec(progress, progress.next_child)),
        _ => Err(UnexpectedEvent),
    }
}

/// The actions that running `events` from `p` yields, with the final state;
/// none where an event does not fit.
pub open spec fn run(p: SaveProgress, events: Seq<SaveEvent>) -> Option<(SaveProgress, Seq<SaveAction>)>
    decreases events.len(),
{
    if events.len() == 0 {
        Some((p, Seq::empty()))
    } else {
        match next(p, events[0]) {
            None => None,
            Some((q, a)) => match run(q, events.skip(1)) {
                None => None,
                Some((r, rest)) => Some((r, seq![a] + rest)),
            },
        }
    }
}

/// The answers of a save that goes through: the entity was found or not, its
/// row was saved as `parent_id`, its child rows were deleted, and each of its
/// `n` children was inserted.
pub open spec fn successful_events(exists: bool, parent_id: i32, n: nat) -> Seq<SaveEvent> {
    seq![SaveEvent::Found { exists }, SaveEvent::ParentSaved { parent_id }, SaveEvent::ChildrenDeleted]
        + Seq::new(n, |i: int| SaveEvent::ChildInserted)
}

/// The insertions of children `from` to `n - 1` under the saved row `parent_id`, in order.
pub open spec fn child_insertions(parent_id: i32, from: nat, n: nat) -> Seq<SaveAction> {
    Seq::new((n - from) as nat, |i: int| SaveAction::InsertChild { parent_id, index: (from + i) as usize })
}

/// The actions of a save that goes through.
pub open spec fn expected_actions(exists: bool, parent_id: i32, n: nat) -> Seq<SaveAction> {
    seq![
        SaveAction::Find,
        if exists { SaveAction::Update } else { SaveAction::Insert },
        SaveAction::DeleteChildren { parent_id },
    ] + child_insertions(parent_id, 0, n) + seq![SaveAction::Finish { parent_id }]
}

proof fn lemma_inserting_children(p: SaveProgress, k: nat)
    requires
        p.phase == SavePhase::InsertingChildren,
        p.next_child == k,
        0 < k <= p.child_count,
    ensures
        run(p, Seq::new((p.child_count - k + 1) as nat, |i: int| SaveEvent::ChildInserted)) == Some((
            SaveProgress { phase: SavePhase::Done, next_child: p.child_count, ..p },
            child_insertions(p.parent_id, k, p.child_count as nat) + seq![SaveAction::Finish { parent_id: p.parent_id }],
        )),
    decreases p.child_count - k,
{
    let n = p.child_count as nat;
    let events = Seq::new((n - k + 1) as nat, |i: int| SaveEvent::ChildInserted);
    let finish = seq![SaveAction::Finish { parent_id: p.parent_id }];
    assert(events[0] == SaveEvent::ChildInserted);
    let (q, a) = after_child(p, p.next_child);
    assert(next(p, events[0]) == Some((q, a)));
    if k < n {
        let tail = Seq::new((n - (k + 1) + 1) as nat, |i: int| SaveEvent::ChildInserted);
        assert(events.skip(1) =~= tail);
        lemma_inserting_children(q, k + 1);
        let rest = child_insertions(p.parent_id, k + 1, n) + finish;
        assert(run(q, tail) == Some((SaveProgress { phase: SavePhase::Done, next_child: p.child_count, ..p }, rest)));
        assert(seq![a] + rest =~= child_insertions(p.parent_id, k, n) + finish);
    } else {
        assert(events.skip(1) =~= Seq::<SaveEvent>::empty());
        assert(run(q, Seq::<SaveEvent>::empty()) == Some((q, Seq::<SaveAction>::empty())));
        assert(seq![a] + Seq::<SaveAction>::empty() =~= child_insertions(p.parent_id, k, n) + finish);
    }
}

/// A save that goes through asks, in order: to find the entity, to update or
/// insert its row as it was found or not, to delete the saved row's children,
/// to insert each child once in order under the saved row, and to finish with
/// the saved row.
pub proof fn law_successful_save(exists: bool, parent_id: i32, child_count: usize)
    ensures ({
        let start = SaveProgress { phase: SavePhase::Finding, parent_id: 0, next_child: 0, child_count };
        run(start, successful_events(exists, parent_id, child_count as nat)) matches Some((end, acts))
            && end.phase == SavePhase::Done
            && end.parent_id == parent_id
            && seq![SaveAction::Find] + acts == expected_actions(exists, parent_id, child_count as nat)
    }),
{
    let n = child_count as nat;
    let p0 = SaveProgress { phase: SavePhase::Finding, parent_id: 0, next_child: 0, child_count };
    let e1 = SaveEvent::Found { exists };
    let e2 = SaveEvent::ParentSaved { parent_id };
    let e3 = SaveEvent::ChildrenDeleted;
    let tail = Seq::new(n, |i: int| SaveEvent::ChildInserted);
    let s2 = seq![e3] + tail;
    let s1 = seq![e2] + s2;
    let s0 = seq![e1] + s1;
    assert(successful_events(exists, parent_id, n) =~= s0);
    assert(s0[0] == e1);
    assert(s0.skip(1) =~= s1);
    assert(s1[0] == e2);
    assert(s1.skip(1) =~= s2);
    assert(s2[0] == e3);
    assert(s2.skip(1) =~= tail);
    let (p1, a1) = next(p0, e1)->Some_0;
    let (p2, a2) = next(p1, e2)->Some_0;
    let (p3, a3) = next(p2, e3)->Some_0;
    let end = SaveProgress { phase: SavePhase::Done, next_child: child_count, ..p3 };
    let finish = seq![SaveAction::Finish { parent_id }];
    let rest = if n == 0 { Seq::<SaveAction>::empty() } else { child_insertions(parent_id, 1, n) + finish };
    if n == 0 {
        assert(tail =~= Seq::<SaveEvent>::empty());
        assert(run(p3, tail) == Some((end, rest)));
    } else {
        assert(tail =~= Seq::new((p3.child_count - 1 + 1) as nat, |i: int| SaveEvent::ChildInserted));
        lemma_inserting_children(p3, 1);
        assert(run(p3, tail) == Some((end, rest)));
    }
    assert(run(p2, s2) == Some((end, seq![a3] + rest)));
    assert(run(p1, s1) == Some((end, seq![a2] + (seq![a3] + rest))));
    assert(run(p0, s0) == Some((end, seq![a1] + (seq![a2] + (seq![a3] + rest)))));
    if n == 0 {
        assert(child_insertions(parent_id, 0, n) =~= Seq::<SaveAction>::empty());
    } else {
        assert(child_insertions(parent_id, 0, n) =~= seq![SaveAction::InsertChild { parent_id, index: 0 }] + child_insertions(parent_id, 1, n));
    }
    assert(seq![SaveAction::Find] + (seq![a1] + (seq![a2] + (seq![a3] + rest)))
        =~= expected_actions(exists, parent_id, n));
}

} // verus!
