use commander::{
    Action, Controller, Event, Executor, OpError, Operation, Outcome, ReplaceResult, Work,
};

fn s(x: &str) -> String {
    x.to_string()
}

/// Drive one executor with a scripted environment: destinations in
/// `existing` are reported as occupied, conflicts are answered from
/// `responses` in order, and every perform succeeds. Returns the
/// outcome and the conflict requests that were raised.
fn run_scripted(
    op: &Operation,
    existing: &[&str],
    responses: &mut Vec<ReplaceResult>,
) -> (Outcome, Vec<String>, Vec<String>) {
    let mut exec = Executor::new(op);
    let mut ctl = Controller::new(exec.items_total());
    let mut event = Event::Tick;
    let mut asked = Vec::new();
    let mut performed = Vec::new();
    loop {
        let action = exec.step(&mut ctl, event);
        event = match action {
            Action::CheckExists { path } => {
                let exists = existing.iter().any(|e| *e == path);
                Event::ExistsChecked { exists }
            }
            Action::AskConflict { request } => {
                asked.push(request.existing.clone());
                let response = responses.remove(0);
                Event::Decided { response }
            }
            Action::Perform { work } => {
                if let Work::Transfer { dst, .. } = &work {
                    performed.push(dst.clone());
                }
                Event::Performed { result: Ok(None) }
            }
            Action::Advance => Event::Tick,
            Action::Wait => panic!("scripted run does not pause"),
            Action::Finish => break,
        };
    }
    (exec.into_outcome(), asked, performed)
}

#[test]
fn copy_without_conflicts_selects_all_destinations() {
    let op = Operation::Copy {
        paths: vec![s("/src/1.txt"), s("/src/2.txt")],
        to: s("/dst"),
    };
    let (outcome, asked, performed) = run_scripted(&op, &[], &mut Vec::new());
    assert!(asked.is_empty());
    assert_eq!(performed, vec![s("/dst/1.txt"), s("/dst/2.txt")]);
    match outcome {
        Outcome::Completed { selection, trashed } => {
            assert_eq!(selection.selected, vec![s("/dst/1.txt"), s("/dst/2.txt")]);
            assert!(selection.ignored.is_empty());
            assert!(trashed.is_empty());
        }
        _ => panic!("expected completion"),
    }
}

#[test]
fn skip_conflict_ignores_destination() {
    // One existing destination: exactly one conflict request; skipping
    // it leaves the file alone and copies the other.
    let op = Operation::Copy {
        paths: vec![s("/src/1.txt"), s("/src/2.txt")],
        to: s("/dst"),
    };
    let mut responses = vec![ReplaceResult::Skip(false)];
    let (outcome, asked, performed) = run_scripted(&op, &["/dst/1.txt"], &mut responses);
    assert_eq!(asked, vec![s("/dst/1.txt")]);
    assert_eq!(performed, vec![s("/dst/2.txt")]);
    match outcome {
        Outcome::Completed { selection, .. } => {
            assert_eq!(selection.ignored, vec![s("/dst/1.txt")]);
            assert_eq!(selection.selected, vec![s("/dst/2.txt")]);
        }
        _ => panic!("expected completion"),
    }
}

#[test]
fn apply_to_all_suppresses_later_requests() {
    // Both destinations conflict. Answering the first with
    // replace-apply-to-all must resolve the second silently.
    let op = Operation::Copy {
        paths: vec![s("/src/a"), s("/src/b")],
        to: s("/dst"),
    };
    let mut responses = vec![ReplaceResult::Replace(true)];
    let (outcome, asked, performed) =
        run_scripted(&op, &["/dst/a", "/dst/b"], &mut responses);
    assert_eq!(asked, vec![s("/dst/a")]);
    assert_eq!(performed, vec![s("/dst/a"), s("/dst/b")]);
    assert!(matches!(outcome, Outcome::Completed { .. }));
}

#[test]
fn apply_to_all_skip_suppresses_later_requests() {
    let op = Operation::Copy {
        paths: vec![s("/src/a"), s("/src/b"), s("/src/c")],
        to: s("/dst"),
    };
    let mut responses = vec![ReplaceResult::Skip(true)];
    let (outcome, asked, performed) =
        run_scripted(&op, &["/dst/a", "/dst/b"], &mut responses);
    assert_eq!(asked, vec![s("/dst/a")]);
    assert_eq!(performed, vec![s("/dst/c")]);
    match outcome {
        Outcome::Completed { selection, .. } => {
            assert_eq!(selection.ignored, vec![s("/dst/a"), s("/dst/b")]);
            assert_eq!(selection.selected, vec![s("/dst/c")]);
        }
        _ => panic!("expected completion"),
    }
}

#[test]
fn sticky_choice_does_not_leak_across_operations() {
    // A second operation built after the first cached a sticky choice
    // still asks for its own conflicts.
    let op = Operation::Copy {
        paths: vec![s("/src/a")],
        to: s("/dst"),
    };
    let mut responses = vec![ReplaceResult::Replace(true)];
    let (_, asked1, _) = run_scripted(&op, &["/dst/a"], &mut responses);
    assert_eq!(asked1.len(), 1);
    let mut responses2 = vec![ReplaceResult::Replace(false)];
    let (_, asked2, _) = run_scripted(&op, &["/dst/a"], &mut responses2);
    assert_eq!(asked2.len(), 1);
}

#[test]
fn keep_both_probes_until_free_name() {
    // Keep-both synthesizes "name (2)", "name (3)", ... and transfers
    // only to a name the environment just reported free.
    let op = Operation::Copy {
        paths: vec![s("/src/x.txt")],
        to: s("/dst"),
    };
    let mut responses = vec![ReplaceResult::KeepBoth];
    let (outcome, asked, performed) = run_scripted(
        &op,
        &["/dst/x.txt", "/dst/x.txt (2)", "/dst/x.txt (3)"],
        &mut responses,
    );
    assert_eq!(asked, vec![s("/dst/x.txt")]);
    assert_eq!(performed, vec![s("/dst/x.txt (4)")]);
    match outcome {
        Outcome::Completed { selection, .. } => {
            assert_eq!(selection.selected, vec![s("/dst/x.txt (4)")]);
            assert!(selection.ignored.is_empty());
        }
        _ => panic!("expected completion"),
    }
}

#[test]
fn conflict_cancel_aborts_operation() {
    let op = Operation::Copy {
        paths: vec![s("/src/a"), s("/src/b")],
        to: s("/dst"),
    };
    let mut responses = vec![ReplaceResult::Cancel];
    let (outcome, asked, performed) = run_scripted(&op, &["/dst/a"], &mut responses);
    assert_eq!(asked.len(), 1);
    assert!(performed.is_empty());
    assert!(matches!(outcome, Outcome::Cancelled));
}

#[test]
fn cancel_before_first_item_performs_nothing() {
    let op = Operation::Copy {
        paths: vec![s("/src/a"), s("/src/b")],
        to: s("/dst"),
    };
    let mut exec = Executor::new(&op);
    let mut ctl = Controller::new(exec.items_total());
    ctl.cancel();
    let action = exec.step(&mut ctl, Event::Tick);
    assert!(matches!(action, Action::Finish));
    assert!(matches!(exec.into_outcome(), Outcome::Cancelled));
}

#[test]
fn cancel_dominates_pause() {
    let op = Operation::Delete {
        paths: vec![s("/src/a")],
    };
    let mut exec = Executor::new(&op);
    let mut ctl = Controller::new(exec.items_total());
    ctl.pause();
    let action = exec.step(&mut ctl, Event::Tick);
    assert!(matches!(action, Action::Wait));
    ctl.cancel();
    let action = exec.step(&mut ctl, Event::Tick);
    assert!(matches!(action, Action::Finish));
    assert!(matches!(exec.into_outcome(), Outcome::Cancelled));
}

#[test]
fn pause_holds_and_unpause_resumes() {
    let op = Operation::Delete {
        paths: vec![s("/a")],
    };
    let mut exec = Executor::new(&op);
    let mut ctl = Controller::new(exec.items_total());
    ctl.pause();
    assert!(matches!(exec.step(&mut ctl, Event::Tick), Action::Wait));
    assert!(matches!(exec.step(&mut ctl, Event::Tick), Action::Wait));
    ctl.unpause();
    let action = exec.step(&mut ctl, Event::Tick);
    assert!(matches!(
        action,
        Action::Perform {
            work: Work::TrashPath { index: 0 }
        }
    ));
}

#[test]
fn cancel_short_circuits_conflict_wait() {
    let op = Operation::Copy {
        paths: vec![s("/src/a")],
        to: s("/dst"),
    };
    let mut exec = Executor::new(&op);
    let mut ctl = Controller::new(exec.items_total());
    assert!(matches!(exec.step(&mut ctl, Event::Tick), Action::CheckExists { .. }));
    let action = exec.step(&mut ctl, Event::ExistsChecked { exists: true });
    assert!(matches!(action, Action::AskConflict { .. }));
    // Cancellation arrives while the request is outstanding.
    ctl.cancel();
    let action = exec.step(&mut ctl, Event::Tick);
    assert!(matches!(action, Action::Finish));
    assert!(matches!(exec.into_outcome(), Outcome::Cancelled));
}

#[test]
fn delete_failure_reports_offending_path_once() {
    // Trashing b fails with permission denied: the operation ends
    // failed, referencing b, after exactly one failure report.
    let op = Operation::Delete {
        paths: vec![s("/a"), s("/b"), s("/c")],
    };
    let mut exec = Executor::new(&op);
    let mut ctl = Controller::new(exec.items_total());
    let mut event = Event::Tick;
    let mut trashed_calls = Vec::new();
    let outcome = loop {
        let action = exec.step(&mut ctl, event);
        event = match action {
            Action::Perform {
                work: Work::TrashPath { index },
            } => {
                trashed_calls.push(index);
                if index == 1 {
                    Event::Performed {
                        result: Err(OpError::Failure {
                            path: s("/b"),
                            message: s("permission denied"),
                        }),
                    }
                } else {
                    Event::Performed {
                        result: Ok(Some(commander::TrashEntry {
                            id: format!("trash-{}", index),
                            original_path: if index == 0 { s("/a") } else { s("/c") },
                            time_deleted: 7,
                        })),
                    }
                }
            }
            Action::Advance => Event::Tick,
            Action::Finish => break exec.into_outcome(),
            other => panic!("unexpected action {:?}", other),
        };
    };
    assert_eq!(trashed_calls, vec![0, 1]);
    match outcome {
        Outcome::Failed { error } => match error {
            OpError::Failure { path, message } => {
                assert_eq!(path, s("/b"));
                assert_eq!(message, s("permission denied"));
            }
            _ => panic!("expected a plain failure"),
        },
        _ => panic!("expected failure"),
    }
}

#[test]
fn delete_collects_trash_handles() {
    let op = Operation::Delete {
        paths: vec![s("/a"), s("/b")],
    };
    let mut exec = Executor::new(&op);
    let mut ctl = Controller::new(exec.items_total());
    let mut event = Event::Tick;
    let outcome = loop {
        let action = exec.step(&mut ctl, event);
        event = match action {
            Action::Perform {
                work: Work::TrashPath { index },
            } => Event::Performed {
                result: Ok(Some(commander::TrashEntry {
                    id: format!("id-{}", index),
                    original_path: if index == 0 { s("/a") } else { s("/b") },
                    time_deleted: 40 + index as i64,
                })),
            },
            Action::Advance => Event::Tick,
            Action::Finish => break exec.into_outcome(),
            other => panic!("unexpected action {:?}", other),
        };
    };
    match outcome {
        Outcome::Completed { selection, trashed } => {
            // Deleting writes nothing the UI should select.
            assert!(selection.selected.is_empty());
            assert_eq!(trashed.len(), 2);
            assert_eq!(trashed[0].id, s("id-0"));
            assert_eq!(trashed[1].original_path, s("/b"));
        }
        _ => panic!("expected completion"),
    }
}

#[test]
fn extract_without_password_reports_distinguished_failure() {
    let op = Operation::Extract {
        paths: vec![s("/archives/archive.zip")],
        to: s("/out"),
        password: None,
    };
    let mut exec = Executor::new(&op);
    let mut ctl = Controller::new(exec.items_total());
    assert!(matches!(exec.step(&mut ctl, Event::Tick), Action::CheckExists { .. }));
    let action = exec.step(&mut ctl, Event::ExistsChecked { exists: false });
    assert!(matches!(action, Action::Perform { .. }));
    let action = exec.step(
        &mut ctl,
        Event::Performed {
            result: Err(OpError::PasswordRequired),
        },
    );
    assert!(matches!(action, Action::Finish));
    match exec.into_outcome() {
        Outcome::Failed { error } => assert_eq!(error, OpError::PasswordRequired),
        _ => panic!("expected the password-required failure"),
    }

    // Resubmitting the same operation with a password is a fresh,
    // independent attempt that can run to completion.
    let retry = Operation::Extract {
        paths: vec![s("/archives/archive.zip")],
        to: s("/out"),
        password: Some(s("x")),
    };
    let (outcome, asked, performed) = run_scripted(&retry, &[], &mut Vec::new());
    assert!(asked.is_empty());
    assert_eq!(performed, vec![s("/out/archive.zip")]);
    assert!(matches!(outcome, Outcome::Completed { .. }));
}

#[test]
fn progress_advances_item_by_item() {
    let op = Operation::Copy {
        paths: vec![s("/src/a"), s("/src/b")],
        to: s("/dst"),
    };
    let mut exec = Executor::new(&op);
    let mut ctl = Controller::new(exec.items_total());
    assert_eq!(ctl.progress(), (0, 2));
    exec.step(&mut ctl, Event::Tick);
    exec.step(&mut ctl, Event::ExistsChecked { exists: false });
    exec.step(&mut ctl, Event::Performed { result: Ok(None) });
    assert_eq!(ctl.progress(), (1, 2));
    assert_eq!(ctl.progress_permille(), 500);
    exec.step(&mut ctl, Event::Tick);
    exec.step(&mut ctl, Event::ExistsChecked { exists: false });
    exec.step(&mut ctl, Event::Performed { result: Ok(None) });
    assert_eq!(ctl.progress(), (2, 2));
    assert_eq!(ctl.progress_permille(), 1000);
}

#[test]
fn rename_is_a_single_step() {
    let op = Operation::Rename {
        from: s("/a/old.txt"),
        to: s("/a/new.txt"),
    };
    let mut exec = Executor::new(&op);
    let mut ctl = Controller::new(exec.items_total());
    let action = exec.step(&mut ctl, Event::Tick);
    assert!(matches!(action, Action::Perform { work: Work::Single }));
    let action = exec.step(&mut ctl, Event::Performed { result: Ok(None) });
    assert!(matches!(action, Action::Advance));
    let action = exec.step(&mut ctl, Event::Tick);
    assert!(matches!(action, Action::Finish));
    match exec.into_outcome() {
        Outcome::Completed { selection, .. } => {
            assert_eq!(selection.selected, vec![s("/a/new.txt")]);
        }
        _ => panic!("expected completion"),
    }
}

#[test]
fn terminal_state_is_a_sink() {
    let op = Operation::NewFile { path: s("/n") };
    let mut exec = Executor::new(&op);
    let mut ctl = Controller::new(exec.items_total());
    exec.step(&mut ctl, Event::Tick);
    exec.step(&mut ctl, Event::Performed { result: Ok(None) });
    assert!(matches!(exec.step(&mut ctl, Event::Tick), Action::Finish));
    assert!(matches!(exec.step(&mut ctl, Event::Tick), Action::Finish));
    assert!(matches!(
        exec.step(&mut ctl, Event::ExistsChecked { exists: true }),
        Action::Finish
    ));
}

#[test]
fn state_text_reports_phase_and_signals() {
    let op = Operation::Copy {
        paths: vec![s("/src/a"), s("/src/b")],
        to: s("/dst"),
    };
    let mut exec = Executor::new(&op);
    let mut ctl = Controller::new(exec.items_total());
    assert_eq!(exec.state_text(&ctl), "item 1 of 2");
    exec.step(&mut ctl, Event::Tick);
    let action = exec.step(&mut ctl, Event::ExistsChecked { exists: true });
    assert!(matches!(action, Action::AskConflict { .. }));
    assert_eq!(exec.state_text(&ctl), "waiting for conflict decision");
    ctl.pause();
    assert_eq!(exec.state_text(&ctl), "paused");
    ctl.cancel();
    assert_eq!(exec.state_text(&ctl), "cancelled");
    exec.step(&mut ctl, Event::Tick);
    assert_eq!(exec.state_text(&ctl), "cancelled");
}

#[test]
fn restore_follows_the_conflict_protocol() {
    // A file was recreated at the original location: restoring asks,
    // and a skip leaves it alone.
    let op = Operation::Restore {
        items: vec![
            commander::TrashEntry {
                id: s("t1"),
                original_path: s("/home/u/a.txt"),
                time_deleted: 3,
            },
            commander::TrashEntry {
                id: s("t2"),
                original_path: s("/home/u/b.txt"),
                time_deleted: 4,
            },
        ],
    };
    let mut responses = vec![ReplaceResult::Skip(false)];
    let (outcome, asked, performed) = run_scripted(&op, &["/home/u/a.txt"], &mut responses);
    assert_eq!(asked, vec![s("/home/u/a.txt")]);
    assert_eq!(performed, vec![s("/home/u/b.txt")]);
    match outcome {
        Outcome::Completed { selection, .. } => {
            assert_eq!(selection.ignored, vec![s("/home/u/a.txt")]);
            assert_eq!(selection.selected, vec![s("/home/u/b.txt")]);
        }
        _ => panic!("expected completion"),
    }
}

#[test]
fn move_transfers_into_the_destination_directory() {
    let op = Operation::Move {
        paths: vec![s("/from/deep/a"), s("/from/b")],
        to: s("/to"),
    };
    let (outcome, _, performed) = run_scripted(&op, &[], &mut Vec::new());
    assert_eq!(performed, vec![s("/to/a"), s("/to/b")]);
    assert!(matches!(outcome, Outcome::Completed { .. }));
}

#[test]
fn compress_is_a_single_step_selecting_the_archive() {
    let op = Operation::Compress {
        paths: vec![s("/a"), s("/b")],
        to: s("/out/all.zip"),
        archive_type: commander::ArchiveType::Zip,
        password: None,
    };
    let mut exec = Executor::new(&op);
    let mut ctl = Controller::new(exec.items_total());
    let action = exec.step(&mut ctl, Event::Tick);
    assert!(matches!(action, Action::Perform { work: Work::Single }));
    exec.step(&mut ctl, Event::Performed { result: Ok(None) });
    exec.step(&mut ctl, Event::Tick);
    match exec.into_outcome() {
        Outcome::Completed { selection, .. } => {
            assert_eq!(selection.selected, vec![s("/out/all.zip")]);
        }
        _ => panic!("expected completion"),
    }
}

#[test]
fn stray_events_are_ignored_without_state_change() {
    let op = Operation::Copy {
        paths: vec![s("/src/a")],
        to: s("/dst"),
    };
    let mut exec = Executor::new(&op);
    let mut ctl = Controller::new(exec.items_total());
    assert!(matches!(exec.step(&mut ctl, Event::Tick), Action::CheckExists { .. }));
    // A response without an outstanding request does nothing.
    let action = exec.step(
        &mut ctl,
        Event::Decided { response: ReplaceResult::Replace(true) },
    );
    assert!(matches!(action, Action::Wait));
    // The probe answer is still accepted afterwards.
    let action = exec.step(&mut ctl, Event::ExistsChecked { exists: false });
    assert!(matches!(action, Action::Perform { .. }));
}

#[test]
fn empty_work_list_completes_immediately() {
    let op = Operation::Copy {
        paths: vec![],
        to: s("/dst"),
    };
    let mut exec = Executor::new(&op);
    let mut ctl = Controller::new(exec.items_total());
    assert_eq!(ctl.progress(), (0, 0));
    let action = exec.step(&mut ctl, Event::Tick);
    assert!(matches!(action, Action::Finish));
    match exec.into_outcome() {
        Outcome::Completed { selection, trashed } => {
            assert!(selection.selected.is_empty());
            assert!(selection.ignored.is_empty());
            assert!(trashed.is_empty());
        }
        _ => panic!("expected completion"),
    }
}
