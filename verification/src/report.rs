//! What the monitor reports of one event.

use crate::event::EventKinds;
use crate::text::{append_integer, integer_text};
use vstd::prelude::*;

verus! {

/// Where the file of an event lies.
#[derive(Clone, Debug, PartialEq, Eq)]
pub enum AccessedPath {
    /// The path that the descriptor of the event is bound to.
    Resolved(String),
    /// The path could not be had; the operating system gave this error number.
    Unresolved(i32),
}

/// Which program caused an event.
#[derive(Clone, Debug, PartialEq, Eq)]
pub enum Executable {
    /// The path of the program that the process runs.
    Resolved(String),
    /// The process with this identifier was gone when its program was asked
    /// for. This is common and no error.
    Gone(i32),
}

/// The report of one event.
#[derive(Clone, Debug, PartialEq, Eq)]
pub struct EventReport {
    pub kinds: EventKinds,
    pub path: AccessedPath,
    pub exe: Executable,
}

impl EventKinds {
    /// The labels of the kinds, each followed by a colon and a space.
    pub open spec fn labels(self) -> Seq<char> {
        (if self.open_permission {
            "FAN_OPEN_PERM: "@
        } else {
            Seq::<char>::empty()
        }) + (if self.close_write {
            "FAN_CLOSE_WRITE: "@
        } else {
            Seq::<char>::empty()
        })
    }
}

impl AccessedPath {
    /// The words of a report line that tell the file, with the space that
    /// ends them.
    pub open spec fn words(self) -> Seq<char> {
        match self {
            AccessedPath::Resolved(path) => "File "@ + path@ + " "@,
            AccessedPath::Unresolved(errno) => "File (unresolved, error "@ + integer_text(
                errno as int,
            ) + ") "@,
        }
    }
}

impl Executable {
    /// The words of a report line that tell the program.
    pub open spec fn words(self) -> Seq<char> {
        match self {
            Executable::Resolved(path) => "Exe "@ + path@,
            Executable::Gone(pid) => "Pid "@ + integer_text(pid as int) + " (gone)"@,
        }
    }
}

impl EventReport {
    /// The report as one line of text, without the line's end: the labels of
    /// the kinds, then the file, then the program.
    pub open spec fn line(self) -> Seq<char> {
        self.kinds.labels() + self.path.words() + self.exe.words()
    }

    /// Writes the report as one line of text, as in
    /// `FAN_OPEN_PERM: File /tmp/example.txt Exe /usr/bin/cat`.
    pub fn to_line(&self) -> (text: String)
        ensures
            text@ == self.line(),
    {
        let mut text = String::new();
        if self.kinds.open_permission {
            text.append("FAN_OPEN_PERM: ");
        }
        if self.kinds.close_write {
            text.append("FAN_CLOSE_WRITE: ");
        }
        assert(text@ =~= self.kinds.labels());
        match &self.path {
            AccessedPath::Resolved(path) => {
                text.append("File ");
                text.append(path.as_str());
                text.append(" ");
            },
            AccessedPath::Unresolved(errno) => {
                text.append("File (unresolved, error ");
                append_integer(&mut text, *errno);
                text.append(") ");
            },
        }
        assert(text@ =~= self.kinds.labels() + self.path.words());
        match &self.exe {
            Executable::Resolved(path) => {
                text.append("Exe ");
                text.append(path.as_str());
            },
            Executable::Gone(pid) => {
                text.append("Pid ");
                append_integer(&mut text, *pid);
                text.append(" (gone)");
            },
        }
        assert(text@ =~= self.line());
        text
    }
}

} // verus!
