use commander::{
    undo_restore_items, Action, ControllerState, Event, Operation, Outcome, PendingRegistry,
    Termination, TrashEntry, Work,
};

fn s(x: &str) -> String {
    x.to_string()
}

#[test]
fn submit_allocates_strictly_increasing_ids() {
    let mut reg = PendingRegistry::new();
    let a = reg.submit(Operation::NewFile { path: s("/1") });
    let b = reg.submit(Operation::NewFile { path: s("/2") });
    let c = reg.submit(Operation::EmptyTrash);
    assert_eq!((a, b, c), (0, 1, 2));
    assert!(reg.is_pending(a) && reg.is_pending(b) && reg.is_pending(c));
    assert!(!reg.is_pending(99));
}

#[test]
fn finish_moves_id_out_of_pending_exactly_once() {
    let mut reg = PendingRegistry::new();
    let id = reg.submit(Operation::NewFolder { path: s("/d") });
    // Drive the single step to completion through the registry.
    assert!(matches!(
        reg.step_pending(id, Event::Tick),
        Some(Action::Perform { work: Work::Single })
    ));
    assert!(matches!(
        reg.step_pending(id, Event::Performed { result: Ok(None) }),
        Some(Action::Advance)
    ));
    assert!(matches!(reg.step_pending(id, Event::Tick), Some(Action::Finish)));
    let outcome = reg.finish(id).expect("terminated");
    assert!(matches!(outcome, Outcome::Completed { .. }));
    assert!(!reg.is_pending(id));
    assert_eq!(reg.complete.len(), 1);
    assert_eq!(reg.complete[0].id, id);
    assert_eq!(reg.failed.len(), 0);
    // A second finish on the same id is refused and changes nothing.
    assert!(reg.finish(id).is_none());
    assert_eq!(reg.complete.len(), 1);
}

#[test]
fn finish_refuses_an_unfinished_operation() {
    let mut reg = PendingRegistry::new();
    let id = reg.submit(Operation::NewFile { path: s("/f") });
    assert!(reg.finish(id).is_none());
    assert!(reg.is_pending(id));
}

#[test]
fn cancelled_operation_files_without_error_dialog_duty() {
    let mut reg = PendingRegistry::new();
    let id = reg.submit(Operation::Delete { paths: vec![s("/a")] });
    assert!(reg.cancel(id));
    assert!(matches!(reg.step_pending(id, Event::Tick), Some(Action::Finish)));
    let outcome = reg.finish(id).expect("terminated");
    assert!(matches!(outcome, Outcome::Cancelled));
    assert_eq!(reg.failed.len(), 1);
    assert!(matches!(reg.failed[0].term, Termination::Cancelled));
}

#[test]
fn pause_all_and_cancel_all_reach_every_pending_entry() {
    let mut reg = PendingRegistry::new();
    let a = reg.submit(Operation::NewFile { path: s("/1") });
    let b = reg.submit(Operation::EmptyTrash);
    reg.pause_all(true);
    assert!(reg.pending.iter().all(|e| e.controller.paused));
    reg.pause_all(false);
    assert!(reg.pending.iter().all(|e| !e.controller.paused));
    reg.cancel_all();
    assert!(reg.pending.iter().all(|e| e.controller.cancelled));
    assert!(reg.is_pending(a) && reg.is_pending(b));
}

#[test]
fn pause_and_cancel_touch_only_their_target() {
    let mut reg = PendingRegistry::new();
    let a = reg.submit(Operation::EmptyTrash);
    let b = reg.submit(Operation::EmptyTrash);
    assert!(reg.pause(a));
    assert!(reg.pending[0].controller.paused);
    assert!(!reg.pending[1].controller.paused);
    assert!(reg.cancel(b));
    assert!(!reg.pending[0].controller.cancelled);
    assert!(reg.pending[1].controller.cancelled);
    assert!(reg.unpause(a));
    assert!(!reg.pending[0].controller.paused);
    assert!(!reg.pause(77));
}

#[test]
fn snapshot_counts_and_averages_progress_worthy_operations() {
    let mut reg = PendingRegistry::new();
    // Two progress-worthy operations and one trivial one.
    let a = reg.submit(Operation::Copy { paths: vec![s("/x"), s("/y")], to: s("/d") });
    let _b = reg.submit(Operation::Delete { paths: vec![s("/z")] });
    let _c = reg.submit(Operation::NewFile { path: s("/n") });
    // Run the first item of the copy so its progress is one half.
    reg.step_pending(a, Event::Tick);
    reg.step_pending(a, Event::ExistsChecked { exists: false });
    reg.step_pending(a, Event::Performed { result: Ok(None) });
    let snap = reg.progress_snapshot();
    assert_eq!(snap.running, 2);
    assert_eq!(snap.finished, 0);
    // Mean of 500 and 0 permille.
    assert_eq!(snap.mean_permille, 250);
}

#[test]
fn snapshot_counts_unacknowledged_completions() {
    let mut reg = PendingRegistry::new();
    let id = reg.submit(Operation::Delete { paths: vec![s("/a")] });
    reg.step_pending(id, Event::Tick);
    reg.step_pending(
        id,
        Event::Performed {
            result: Ok(Some(TrashEntry {
                id: s("t1"),
                original_path: s("/a"),
                time_deleted: 1,
            })),
        },
    );
    reg.step_pending(id, Event::Tick);
    reg.finish(id).expect("terminated");
    let snap = reg.progress_snapshot();
    assert_eq!(snap.running, 0);
    assert_eq!(snap.finished, 1);
    assert_eq!(snap.mean_permille, 0);
    assert!(reg.dismiss_complete(id));
    assert_eq!(reg.progress_snapshot().finished, 0);
    assert!(!reg.dismiss_complete(id));
}

#[test]
fn dismiss_failed_evicts_the_entry() {
    let mut reg = PendingRegistry::new();
    let id = reg.submit(Operation::Delete { paths: vec![s("/a")] });
    reg.cancel(id);
    reg.step_pending(id, Event::Tick);
    reg.finish(id).expect("terminated");
    assert_eq!(reg.failed.len(), 1);
    assert!(reg.dismiss_failed(id));
    assert_eq!(reg.failed.len(), 0);
    assert!(!reg.dismiss_failed(id));
}

#[test]
fn step_pending_on_unknown_id_is_refused() {
    let mut reg = PendingRegistry::new();
    assert!(reg.step_pending(5, Event::Tick).is_none());
}

#[test]
fn controller_state_reports_cancel_over_pause() {
    let mut reg = PendingRegistry::new();
    let id = reg.submit(Operation::EmptyTrash);
    reg.pause(id);
    assert_eq!(reg.pending[0].controller.state(), ControllerState::Paused);
    reg.cancel(id);
    assert_eq!(reg.pending[0].controller.state(), ControllerState::Cancelled);
    assert_eq!(reg.pending[0].controller.is_paused(), true);
    assert_eq!(reg.pending[0].controller.is_cancelled(), true);
}

fn entry(id: &str, path: &str, t: i64) -> TrashEntry {
    TrashEntry {
        id: s(id),
        original_path: s(path),
        time_deleted: t,
    }
}

#[test]
fn undo_restores_exactly_the_matching_entry() {
    // Undo of [a.txt] after a delete: the re-scan holds one entry for
    // a.txt and unrelated ones; exactly the match is restored.
    let entries = vec![
        entry("t1", "/home/u/b.txt", 10),
        entry("t2", "/home/u/a.txt", 11),
        entry("t3", "/home/u/c.txt", 12),
    ];
    let deleted = vec![s("/home/u/a.txt")];
    let r = undo_restore_items(&entries, &deleted);
    assert_eq!(r.len(), 1);
    assert_eq!(r[0].id, s("t2"));
    assert_eq!(r[0].original_path, s("/home/u/a.txt"));
}

#[test]
fn undo_prefers_the_most_recent_match() {
    // Two trash entries share the original path: the most recently
    // deleted one wins.
    let entries = vec![
        entry("old", "/home/u/a.txt", 5),
        entry("new", "/home/u/a.txt", 9),
        entry("mid", "/home/u/a.txt", 7),
    ];
    let deleted = vec![s("/home/u/a.txt")];
    let r = undo_restore_items(&entries, &deleted);
    assert_eq!(r.len(), 1);
    assert_eq!(r[0].id, s("new"));
}

#[test]
fn undo_ties_break_towards_the_earlier_scan_position() {
    let entries = vec![
        entry("first", "/a", 9),
        entry("second", "/a", 9),
    ];
    let r = undo_restore_items(&entries, &vec![s("/a")]);
    assert_eq!(r.len(), 1);
    assert_eq!(r[0].id, s("first"));
}

#[test]
fn undo_skips_paths_without_a_match() {
    let entries = vec![entry("t1", "/a", 1)];
    let deleted = vec![s("/a"), s("/gone"), s("/a")];
    let r = undo_restore_items(&entries, &deleted);
    assert_eq!(r.len(), 2);
    assert_eq!(r[0].id, s("t1"));
    assert_eq!(r[1].id, s("t1"));
}

#[test]
fn undo_of_nothing_restores_nothing() {
    let r = undo_restore_items(&Vec::new(), &vec![s("/a")]);
    assert!(r.is_empty());
    let r = undo_restore_items(&vec![entry("t", "/a", 1)], &Vec::new());
    assert!(r.is_empty());
}
