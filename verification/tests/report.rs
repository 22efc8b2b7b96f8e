use fanwatch::event::EventKinds;
use fanwatch::report::{AccessedPath, EventReport, Executable};

fn kinds(open_permission: bool, close_write: bool) -> EventKinds {
    EventKinds { open_permission, close_write }
}

#[test]
fn line_of_a_permission_event() {
    let report = EventReport {
        kinds: kinds(true, false),
        path: AccessedPath::Resolved(String::from("/tmp/example.txt")),
        exe: Executable::Resolved(String::from("/usr/bin/cat")),
    };
    assert_eq!(report.to_line(), "FAN_OPEN_PERM: File /tmp/example.txt Exe /usr/bin/cat");
}

#[test]
fn line_of_a_close_event_of_a_gone_process() {
    let report = EventReport {
        kinds: kinds(false, true),
        path: AccessedPath::Resolved(String::from("/var/log/syslog")),
        exe: Executable::Gone(4321),
    };
    assert_eq!(report.to_line(), "FAN_CLOSE_WRITE: File /var/log/syslog Pid 4321 (gone)");
}

#[test]
fn line_with_both_kinds() {
    let report = EventReport {
        kinds: kinds(true, true),
        path: AccessedPath::Resolved(String::from("/a b")),
        exe: Executable::Resolved(String::from("/bin/sh")),
    };
    assert_eq!(report.to_line(), "FAN_OPEN_PERM: FAN_CLOSE_WRITE: File /a b Exe /bin/sh");
}

#[test]
fn line_without_kinds() {
    let report = EventReport {
        kinds: kinds(false, false),
        path: AccessedPath::Resolved(String::from("/")),
        exe: Executable::Gone(1),
    };
    assert_eq!(report.to_line(), "File / Pid 1 (gone)");
}

#[test]
fn line_of_an_unresolved_path() {
    let report = EventReport {
        kinds: kinds(true, false),
        path: AccessedPath::Unresolved(2),
        exe: Executable::Resolved(String::from("/usr/bin/cat")),
    };
    assert_eq!(report.to_line(), "FAN_OPEN_PERM: File (unresolved, error 2) Exe /usr/bin/cat");
}

#[test]
fn line_with_extreme_numbers() {
    let report = EventReport {
        kinds: kinds(false, false),
        path: AccessedPath::Unresolved(i32::MIN),
        exe: Executable::Gone(i32::MAX),
    };
    assert_eq!(
        report.to_line(),
        "File (unresolved, error -2147483648) Pid 2147483647 (gone)"
    );
    let report = EventReport {
        kinds: kinds(false, false),
        path: AccessedPath::Unresolved(0),
        exe: Executable::Gone(-1),
    };
    assert_eq!(report.to_line(), "File (unresolved, error 0) Pid -1 (gone)");
}

#[test]
fn line_keeps_text_beyond_ascii() {
    let report = EventReport {
        kinds: kinds(false, true),
        path: AccessedPath::Resolved(String::from("/tmp/caf\u{e9}")),
        exe: Executable::Resolved(String::from("/opt/\u{65e5}\u{672c}")),
    };
    assert_eq!(
        report.to_line(),
        "FAN_CLOSE_WRITE: File /tmp/caf\u{e9} Exe /opt/\u{65e5}\u{672c}"
    );
}
