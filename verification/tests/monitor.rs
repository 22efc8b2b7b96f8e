use fanwatch::event::{EventKinds, RawEvent, CLOSE_AFTER_WRITE, OPEN_PERMISSION};
use fanwatch::monitor::{Action, Fault, Monitor, Reply, Stage};
use fanwatch::report::{AccessedPath, EventReport, Executable};

fn permission(file: i32, pid: i32) -> RawEvent {
    RawEvent { mask: OPEN_PERMISSION, file: Some(file), pid }
}

fn closed(file: i32, pid: i32) -> RawEvent {
    RawEvent { mask: CLOSE_AFTER_WRITE, file: Some(file), pid }
}

fn overflow() -> RawEvent {
    RawEvent { mask: 0x4000, file: None, pid: 0 }
}

fn path(text: &str) -> Reply {
    Reply::Path(Ok(String::from(text)))
}

fn exe(text: &str) -> Reply {
    Reply::Exe(Some(String::from(text)))
}

/// Feeds the replies to the monitor from its start and collects the actions
/// it asks for, the first of them the one it starts with.
fn drive(replies: Vec<Reply>) -> (Monitor, Vec<Action>) {
    let (mut monitor, first) = Monitor::start();
    let mut actions = vec![first];
    for reply in replies {
        let (next, action) = monitor.step(reply);
        monitor = next;
        actions.push(action);
    }
    (monitor, actions)
}

fn report(open_permission: bool, close_write: bool, file: &str, program: &str) -> EventReport {
    EventReport {
        kinds: EventKinds { open_permission, close_write },
        path: AccessedPath::Resolved(String::from(file)),
        exe: Executable::Resolved(String::from(program)),
    }
}

#[test]
fn starts_by_polling() {
    let (monitor, action) = Monitor::start();
    assert_eq!(monitor, Monitor::Polling);
    assert_eq!(action, Action::Poll);
}

#[test]
fn permission_event_is_allowed_reported_and_released() {
    let (monitor, actions) = drive(vec![
        Reply::Read(Ok(vec![permission(5, 4321)])),
        Reply::Response(Ok(())),
        path("/tmp/example.txt"),
        exe("/usr/bin/cat"),
        Reply::Release(Ok(())),
        Reply::Emitted,
    ]);
    assert_eq!(monitor, Monitor::Polling);
    assert_eq!(
        actions,
        vec![
            Action::Poll,
            Action::Allow { file: 5 },
            Action::ResolvePath { file: 5 },
            Action::ResolveExe { pid: 4321 },
            Action::Release { file: 5 },
            Action::Emit {
                report: report(true, false, "/tmp/example.txt", "/usr/bin/cat"),
                release_error: None,
            },
            Action::Poll,
        ]
    );
    if let Action::Emit { report, .. } = &actions[5] {
        assert_eq!(report.to_line(), "FAN_OPEN_PERM: File /tmp/example.txt Exe /usr/bin/cat");
    } else {
        panic!("no report");
    }
}

#[test]
fn gone_process_is_reported_not_failed() {
    let (monitor, actions) = drive(vec![
        Reply::Read(Ok(vec![permission(5, 4321)])),
        Reply::Response(Ok(())),
        path("/tmp/example.txt"),
        Reply::Exe(None),
        Reply::Release(Ok(())),
        Reply::Emitted,
    ]);
    assert_eq!(monitor, Monitor::Polling);
    assert_eq!(
        actions,
        vec![
            Action::Poll,
            Action::Allow { file: 5 },
            Action::ResolvePath { file: 5 },
            Action::ResolveExe { pid: 4321 },
            Action::Release { file: 5 },
            Action::Emit {
                report: EventReport {
                    kinds: EventKinds { open_permission: true, close_write: false },
                    path: AccessedPath::Resolved(String::from("/tmp/example.txt")),
                    exe: Executable::Gone(4321),
                },
                release_error: None,
            },
            Action::Poll,
        ]
    );
    if let Action::Emit { report, .. } = &actions[5] {
        assert_eq!(report.to_line(), "FAN_OPEN_PERM: File /tmp/example.txt Pid 4321 (gone)");
    } else {
        panic!("no report");
    }
}

#[test]
fn close_event_needs_no_answer() {
    let (monitor, actions) = drive(vec![
        Reply::Read(Ok(vec![closed(9, 77)])),
        path("/var/log/syslog"),
        exe("/usr/sbin/rsyslogd"),
        Reply::Release(Ok(())),
        Reply::Emitted,
    ]);
    assert_eq!(monitor, Monitor::Polling);
    assert_eq!(
        actions,
        vec![
            Action::Poll,
            Action::ResolvePath { file: 9 },
            Action::ResolveExe { pid: 77 },
            Action::Release { file: 9 },
            Action::Emit {
                report: report(false, true, "/var/log/syslog", "/usr/sbin/rsyslogd"),
                release_error: None,
            },
            Action::Poll,
        ]
    );
}

#[test]
fn record_with_both_kinds_is_answered_and_labelled_twice() {
    let both = RawEvent { mask: OPEN_PERMISSION | CLOSE_AFTER_WRITE, file: Some(3), pid: 10 };
    let (_, actions) = drive(vec![
        Reply::Read(Ok(vec![both])),
        Reply::Response(Ok(())),
        path("/f"),
        exe("/p"),
        Reply::Release(Ok(())),
    ]);
    assert_eq!(actions[1], Action::Allow { file: 3 });
    assert_eq!(
        actions[5],
        Action::Emit { report: report(true, true, "/f", "/p"), release_error: None }
    );
}

#[test]
fn overflow_marker_gives_no_report_and_no_answer() {
    let (monitor, actions) = drive(vec![Reply::Read(Ok(vec![overflow()]))]);
    assert_eq!(monitor, Monitor::Polling);
    assert_eq!(actions, vec![Action::Poll, Action::Poll]);
}

#[test]
fn overflow_marker_with_permission_bit_is_still_passed_over() {
    let marker = RawEvent { mask: OPEN_PERMISSION | CLOSE_AFTER_WRITE, file: None, pid: 1 };
    let (monitor, actions) = drive(vec![Reply::Read(Ok(vec![marker, marker, marker]))]);
    assert_eq!(monitor, Monitor::Polling);
    assert_eq!(actions, vec![Action::Poll, Action::Poll]);
}

#[test]
fn empty_batch_goes_back_to_polling() {
    let (monitor, actions) = drive(vec![Reply::Read(Ok(vec![]))]);
    assert_eq!(monitor, Monitor::Polling);
    assert_eq!(actions, vec![Action::Poll, Action::Poll]);
}

#[test]
fn overflow_markers_between_events_are_passed_over() {
    let (monitor, actions) = drive(vec![
        Reply::Read(Ok(vec![
            overflow(),
            closed(4, 1),
            overflow(),
            overflow(),
            closed(6, 2),
            overflow(),
        ])),
        path("/a"),
        exe("/x"),
        Reply::Release(Ok(())),
        Reply::Emitted,
        path("/b"),
        exe("/y"),
        Reply::Release(Ok(())),
        Reply::Emitted,
    ]);
    assert_eq!(monitor, Monitor::Polling);
    assert_eq!(
        actions,
        vec![
            Action::Poll,
            Action::ResolvePath { file: 4 },
            Action::ResolveExe { pid: 1 },
            Action::Release { file: 4 },
            Action::Emit { report: report(false, true, "/a", "/x"), release_error: None },
            Action::ResolvePath { file: 6 },
            Action::ResolveExe { pid: 2 },
            Action::Release { file: 6 },
            Action::Emit { report: report(false, true, "/b", "/y"), release_error: None },
            Action::Poll,
        ]
    );
}

#[test]
fn same_record_twice_is_handled_twice() {
    let record = permission(5, 4321);
    let (monitor, actions) = drive(vec![
        Reply::Read(Ok(vec![record, record])),
        Reply::Response(Ok(())),
        path("/tmp/example.txt"),
        exe("/usr/bin/cat"),
        Reply::Release(Ok(())),
        Reply::Emitted,
        Reply::Response(Ok(())),
        path("/tmp/example.txt"),
        exe("/usr/bin/cat"),
        Reply::Release(Ok(())),
        Reply::Emitted,
    ]);
    assert_eq!(monitor, Monitor::Polling);
    let once = vec![
        Action::Allow { file: 5 },
        Action::ResolvePath { file: 5 },
        Action::ResolveExe { pid: 4321 },
        Action::Release { file: 5 },
        Action::Emit {
            report: report(true, false, "/tmp/example.txt", "/usr/bin/cat"),
            release_error: None,
        },
    ];
    assert_eq!(actions.len(), 12);
    assert_eq!(actions[1..6], once[..]);
    assert_eq!(actions[6..11], once[..]);
    assert_eq!(actions[11], Action::Poll);
    let allows = actions.iter().filter(|a| matches!(a, Action::Allow { .. })).count();
    let reports = actions.iter().filter(|a| matches!(a, Action::Emit { .. })).count();
    assert_eq!(allows, 2);
    assert_eq!(reports, 2);
}

#[test]
fn same_record_in_two_batches_is_handled_twice() {
    let record = permission(5, 4321);
    let mut replies = Vec::new();
    for _ in 0..2 {
        replies.push(Reply::Read(Ok(vec![record])));
        replies.push(Reply::Response(Ok(())));
        replies.push(path("/tmp/example.txt"));
        replies.push(exe("/usr/bin/cat"));
        replies.push(Reply::Release(Ok(())));
        replies.push(Reply::Emitted);
    }
    let (monitor, actions) = drive(replies);
    assert_eq!(monitor, Monitor::Polling);
    assert_eq!(actions[1..7], actions[7..13]);
    let allows = actions.iter().filter(|a| matches!(a, Action::Allow { .. })).count();
    let reports = actions.iter().filter(|a| matches!(a, Action::Emit { .. })).count();
    assert_eq!(allows, 2);
    assert_eq!(reports, 2);
}

#[test]
fn allow_comes_before_path_even_when_path_fails() {
    let (monitor, actions) = drive(vec![
        Reply::Read(Ok(vec![permission(5, 4321)])),
        Reply::Response(Ok(())),
        Reply::Path(Err(9)),
        exe("/usr/bin/cat"),
        Reply::Release(Ok(())),
        Reply::Emitted,
    ]);
    assert_eq!(monitor, Monitor::Polling);
    assert_eq!(
        actions,
        vec![
            Action::Poll,
            Action::Allow { file: 5 },
            Action::ResolvePath { file: 5 },
            Action::ResolveExe { pid: 4321 },
            Action::Release { file: 5 },
            Action::Emit {
                report: EventReport {
                    kinds: EventKinds { open_permission: true, close_write: false },
                    path: AccessedPath::Unresolved(9),
                    exe: Executable::Resolved(String::from("/usr/bin/cat")),
                },
                release_error: None,
            },
            Action::Poll,
        ]
    );
    let allows = actions.iter().filter(|a| matches!(a, Action::Allow { .. })).count();
    assert_eq!(allows, 1);
}

#[test]
fn failed_path_does_not_stop_the_batch() {
    let (monitor, actions) = drive(vec![
        Reply::Read(Ok(vec![closed(4, 1), closed(6, 2)])),
        Reply::Path(Err(13)),
        Reply::Exe(None),
        Reply::Release(Ok(())),
        Reply::Emitted,
    ]);
    assert_eq!(actions.last(), Some(&Action::ResolvePath { file: 6 }));
    assert_eq!(
        monitor,
        Monitor::Dispatching {
            batch: vec![closed(4, 1), closed(6, 2)],
            cursor: 1,
            stage: Stage::ResolvingPath,
        }
    );
}

#[test]
fn failed_release_is_a_warning_on_the_report() {
    let (monitor, actions) = drive(vec![
        Reply::Read(Ok(vec![closed(4, 1)])),
        path("/a"),
        exe("/x"),
        Reply::Release(Err(9)),
        Reply::Emitted,
    ]);
    assert_eq!(monitor, Monitor::Polling);
    assert_eq!(
        actions[4],
        Action::Emit { report: report(false, true, "/a", "/x"), release_error: Some(9) }
    );
    assert_eq!(actions[5], Action::Poll);
}

#[test]
fn failed_read_stops_the_monitor() {
    let (monitor, actions) = drive(vec![Reply::Read(Err(5))]);
    assert_eq!(monitor, Monitor::Terminated { fault: Fault::ReadFailed(5) });
    assert_eq!(actions, vec![Action::Poll, Action::Halt { fault: Fault::ReadFailed(5) }]);
}

#[test]
fn failed_answer_stops_the_monitor() {
    let (monitor, actions) = drive(vec![
        Reply::Read(Ok(vec![permission(5, 4321), closed(6, 2)])),
        Reply::Response(Err(32)),
    ]);
    assert_eq!(monitor, Monitor::Terminated { fault: Fault::ResponseFailed(32) });
    assert_eq!(
        actions,
        vec![
            Action::Poll,
            Action::Allow { file: 5 },
            Action::Halt { fault: Fault::ResponseFailed(32) },
        ]
    );
}

#[test]
fn stopped_monitor_stays_stopped() {
    let (monitor, _) = drive(vec![Reply::Read(Err(5))]);
    let (monitor, action) = monitor.step(Reply::Read(Ok(vec![permission(5, 1)])));
    assert_eq!(monitor, Monitor::Terminated { fault: Fault::ReadFailed(5) });
    assert_eq!(action, Action::Halt { fault: Fault::ReadFailed(5) });
    let (monitor, action) = monitor.step(Reply::Emitted);
    assert_eq!(monitor, Monitor::Terminated { fault: Fault::ReadFailed(5) });
    assert_eq!(action, Action::Halt { fault: Fault::ReadFailed(5) });
}

#[test]
fn reply_out_of_turn_stops_the_monitor() {
    let halted =
        (Monitor::Terminated { fault: Fault::Protocol }, Action::Halt { fault: Fault::Protocol });
    assert_eq!(Monitor::Polling.step(Reply::Emitted), halted);
    assert_eq!(Monitor::Polling.step(Reply::Response(Ok(()))), halted);
    assert_eq!(Monitor::Polling.step(path("/a")), halted);
    let (monitor, _) = drive(vec![Reply::Read(Ok(vec![permission(5, 1)]))]);
    assert_eq!(monitor.step(path("/a")), halted);
    let (monitor, _) = drive(vec![Reply::Read(Ok(vec![closed(5, 1)]))]);
    assert_eq!(monitor.step(Reply::Response(Ok(()))), halted);
    let (monitor, _) = drive(vec![Reply::Read(Ok(vec![closed(5, 1)])), path("/a")]);
    assert_eq!(monitor.step(Reply::Release(Ok(()))), halted);
    let (monitor, _) = drive(vec![Reply::Read(Ok(vec![closed(5, 1)])), path("/a"), exe("/x")]);
    assert_eq!(monitor.step(Reply::Emitted), halted);
    let (monitor, _) = drive(vec![
        Reply::Read(Ok(vec![closed(5, 1)])),
        path("/a"),
        exe("/x"),
        Reply::Release(Ok(())),
    ]);
    assert_eq!(monitor.step(Reply::Read(Ok(vec![]))), halted);
}

#[test]
fn monitor_that_no_step_made_is_stopped() {
    let halted =
        (Monitor::Terminated { fault: Fault::Protocol }, Action::Halt { fault: Fault::Protocol });
    let beyond =
        Monitor::Dispatching { batch: vec![closed(5, 1)], cursor: 1, stage: Stage::Emitting };
    assert_eq!(beyond.step(Reply::Emitted), halted);
    let on_marker =
        Monitor::Dispatching { batch: vec![overflow()], cursor: 0, stage: Stage::ResolvingPath };
    assert_eq!(on_marker.step(path("/a")), halted);
    let empty = Monitor::Dispatching { batch: vec![], cursor: 0, stage: Stage::Responding };
    assert_eq!(empty.step(Reply::Response(Ok(()))), halted);
}

#[test]
fn stages_follow_one_another() {
    let batch = vec![permission(5, 4321)];
    let (monitor, _) = Monitor::start();
    let (monitor, _) = monitor.step(Reply::Read(Ok(batch.clone())));
    assert_eq!(
        monitor,
        Monitor::Dispatching { batch: batch.clone(), cursor: 0, stage: Stage::Responding }
    );
    let (monitor, _) = monitor.step(Reply::Response(Ok(())));
    assert_eq!(
        monitor,
        Monitor::Dispatching { batch: batch.clone(), cursor: 0, stage: Stage::ResolvingPath }
    );
    let (monitor, _) = monitor.step(path("/a"));
    assert_eq!(
        monitor,
        Monitor::Dispatching {
            batch: batch.clone(),
            cursor: 0,
            stage: Stage::ResolvingExe { path: AccessedPath::Resolved(String::from("/a")) },
        }
    );
    let (monitor, _) = monitor.step(Reply::Exe(None));
    assert_eq!(
        monitor,
        Monitor::Dispatching {
            batch: batch.clone(),
            cursor: 0,
            stage: Stage::Releasing {
                path: AccessedPath::Resolved(String::from("/a")),
                exe: Executable::Gone(4321),
            },
        }
    );
    let (monitor, _) = monitor.step(Reply::Release(Ok(())));
    assert_eq!(
        monitor,
        Monitor::Dispatching { batch: batch.clone(), cursor: 0, stage: Stage::Emitting }
    );
    let (monitor, _) = monitor.step(Reply::Emitted);
    assert_eq!(monitor, Monitor::Polling);
}

#[test]
fn next_batch_is_taken_after_the_first() {
    let (monitor, actions) = drive(vec![
        Reply::Read(Ok(vec![closed(4, 1)])),
        path("/a"),
        exe("/x"),
        Reply::Release(Ok(())),
        Reply::Emitted,
        Reply::Read(Ok(vec![overflow()])),
        Reply::Read(Ok(vec![permission(8, 3)])),
    ]);
    assert_eq!(actions[5], Action::Poll);
    assert_eq!(actions[6], Action::Poll);
    assert_eq!(actions[7], Action::Allow { file: 8 });
    assert_eq!(
        monitor,
        Monitor::Dispatching { batch: vec![permission(8, 3)], cursor: 0, stage: Stage::Responding }
    );
}
