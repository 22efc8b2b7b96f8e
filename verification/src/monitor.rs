//! The monitor loop, as a machine that decides and a driver that acts.
//!
//! The machine never touches the operating system. It names the next thing to
//! do as an `Action`; the driver does it and hands the outcome back as a
//! `Reply`; `Monitor::step` takes the reply and names the next action. The
//! driver starts with `Monitor::start` and stops when it is told to `Halt`.
//!
//! For each record of a batch that carries a file, in the order of the batch,
//! the machine asks for: the answer that allows the open, where the record
//! holds a request for permission; the path of the file; the program of the
//! process; the release of the file; the output of the report. Records that
//! mark an overflow of the queue are passed over. After the last record it
//! asks for the next batch.

use crate::event::{classify, kinds_of, Delivery, RawEvent};
use crate::report::{AccessedPath, EventReport, Executable};
use vstd::prelude::*;

verus! {

/// Why the monitor stopped.
#[derive(Clone, Copy, Debug, PartialEq, Eq, Structural)]
pub enum Fault {
    /// The queue could not be read; the operating system gave this error
    /// number.
    ReadFailed(i32),
    /// The answer to a request for permission could not be sent; the
    /// operating system gave this error number.
    ResponseFailed(i32),
    /// The driver gave a reply that does not answer the action asked of it,
    /// or a monitor that no step could have produced.
    Protocol,
}

/// What the machine asks the driver to do next.
#[derive(Clone, Debug, PartialEq, Eq)]
pub enum Action {
    /// Wait for the next batch of records and read it.
    Poll,
    /// Answer the request for permission on this file: allow it.
    Allow { file: i32 },
    /// Find the path that this file is bound to.
    ResolvePath { file: i32 },
    /// Find the program that this process runs.
    ResolveExe { pid: i32 },
    /// Close this file.
    Release { file: i32 },
    /// Put out this report. Where the file could not be closed,
    /// `release_error` holds the error number, for a warning.
    Emit { report: EventReport, release_error: Option<i32> },
    /// Stop, and report this fault.
    Halt { fault: Fault },
}

/// What came of an action. Each form answers one form of `Action`; failures
/// carry the error number that the operating system gave.
#[derive(Debug, PartialEq, Eq)]
pub enum Reply {
    /// Answers `Poll`: the batch that was read.
    Read(Result<Vec<RawEvent>, i32>),
    /// Answers `Allow`: whether the answer was sent.
    Response(Result<(), i32>),
    /// Answers `ResolvePath`: the path.
    Path(Result<String, i32>),
    /// Answers `ResolveExe`: the program, or `None` where it could not be
    /// had.
    Exe(Option<String>),
    /// Answers `Release`: whether the file was closed.
    Release(Result<(), i32>),
    /// Answers `Emit`: the report is out.
    Emitted,
}

/// How far the handling of one record has come: which reply is awaited.
#[derive(Debug, PartialEq, Eq)]
pub enum Stage {
    /// The answer to the request for permission is being sent.
    Responding,
    /// The path of the file is being looked up.
    ResolvingPath,
    /// The program of the process is being looked up.
    ResolvingExe { path: AccessedPath },
    /// The file is being closed.
    Releasing { path: AccessedPath, exe: Executable },
    /// The report is being put out.
    Emitting,
}

/// The state of the monitor loop.
#[derive(Debug, PartialEq, Eq)]
pub enum Monitor {
    /// Waiting for the next batch.
    Polling,
    /// Working through a batch: `cursor` is the index of the record in hand.
    Dispatching { batch: Vec<RawEvent>, cursor: usize, stage: Stage },
    /// Stopped for good.
    Terminated { fault: Fault },
}

/// The index of the first record of `batch` at or after `from` that carries a
/// file, or the length of `batch` where there is none.
pub open spec fn next_delivered(batch: Seq<RawEvent>, from: int) -> int
    decreases batch.len() - from,
{
    if from >= batch.len() {
        batch.len() as int
    } else if batch[from].file is Some {
        from
    } else {
        next_delivered(batch, from + 1)
    }
}

/// `next_delivered` stays between `from` and the end, passes over overflow
/// markers only, and stops on a record that carries a file.
pub proof fn lemma_next_delivered(batch: Seq<RawEvent>, from: int)
    requires
        0 <= from <= batch.len(),
    ensures
        from <= next_delivered(batch, from) <= batch.len(),
        forall|k: int| from <= k < next_delivered(batch, from) ==> batch[k].file is None,
        next_delivered(batch, from) < batch.len() ==> batch[next_delivered(batch, from)].file
            is Some,
    decreases batch.len() - from,
{
    if from < batch.len() && batch[from].file is None {
        lemma_next_delivered(batch, from + 1);
    }
}

/// The path as the report holds it.
pub open spec fn path_found(reply: Result<String, i32>) -> AccessedPath {
    match reply {
        Ok(path) => AccessedPath::Resolved(path),
        Err(errno) => AccessedPath::Unresolved(errno),
    }
}

/// The program as the report holds it: where it could not be had, the
/// process counts as gone.
pub open spec fn exe_found(reply: Option<String>, pid: i32) -> Executable {
    match reply {
        Some(path) => Executable::Resolved(path),
        None => Executable::Gone(pid),
    }
}

/// The error number of a failure, if it is one.
pub open spec fn error_of(reply: Result<(), i32>) -> Option<i32> {
    match reply {
        Ok(_) => None,
        Err(errno) => Some(errno),
    }
}

impl Monitor {
    /// Whether the monitor has a record in hand whenever it is dispatching:
    /// the cursor is within the batch and on a record that carries a file.
    pub open spec fn wf(self) -> bool {
        match self {
            Monitor::Dispatching { batch, cursor, stage } => cursor < batch@.len()
                && batch@[cursor as int].file is Some,
            _ => true,
        }
    }

    /// Whether `reply` answers the action that the monitor has asked for
    /// last. A monitor that has stopped awaits nothing.
    pub open spec fn awaits(self, reply: Reply) -> bool {
        match self {
            Monitor::Polling => reply is Read,
            Monitor::Dispatching { batch, cursor, stage } => match stage {
                Stage::Responding => reply is Response,
                Stage::ResolvingPath => reply is Path,
                Stage::ResolvingExe { path } => reply is Exe,
                Stage::Releasing { path, exe } => reply is Release,
                Stage::Emitting => reply is Emitted,
            },
            Monitor::Terminated { fault } => false,
        }
    }

    /// The monitor stopped by `fault`, and the action that says so.
    pub open spec fn halted(fault: Fault) -> (Monitor, Action) {
        (Monitor::Terminated { fault }, Action::Halt { fault })
    }

    /// The monitor as it takes up the first record of `batch` at or after
    /// `from` that carries a file, and the first action for that record; or,
    /// where none is left, the monitor back at polling.
    pub open spec fn taking_up(batch: Vec<RawEvent>, from: int) -> (Monitor, Action) {
        let at = next_delivered(batch@, from);
        if at >= batch@.len() {
            (Monitor::Polling, Action::Poll)
        } else if kinds_of(batch@[at].mask).open_permission {
            (
                Monitor::Dispatching { batch, cursor: at as usize, stage: Stage::Responding },
                Action::Allow { file: batch@[at].file->0 },
            )
        } else {
            (
                Monitor::Dispatching { batch, cursor: at as usize, stage: Stage::ResolvingPath },
                Action::ResolvePath { file: batch@[at].file->0 },
            )
        }
    }

    /// The monitor after `reply`, and the action it asks for next.
    pub open spec fn next(self, reply: Reply) -> (Monitor, Action) {
        match self {
            Monitor::Polling => match reply {
                Reply::Read(Ok(batch)) => Monitor::taking_up(batch, 0),
                Reply::Read(Err(errno)) => Monitor::halted(Fault::ReadFailed(errno)),
                _ => Monitor::halted(Fault::Protocol),
            },
            Monitor::Dispatching { batch, cursor, stage } => if !self.wf() {
                Monitor::halted(Fault::Protocol)
            } else {
                let record = batch@[cursor as int];
                let file = record.file->0;
                match stage {
                    Stage::Responding => match reply {
                        Reply::Response(Ok(_)) => (
                            Monitor::Dispatching { batch, cursor, stage: Stage::ResolvingPath },
                            Action::ResolvePath { file },
                        ),
                        Reply::Response(Err(errno)) => Monitor::halted(
                            Fault::ResponseFailed(errno),
                        ),
                        _ => Monitor::halted(Fault::Protocol),
                    },
                    Stage::ResolvingPath => match reply {
                        Reply::Path(found) => (
                            Monitor::Dispatching {
                                batch,
                                cursor,
                                stage: Stage::ResolvingExe { path: path_found(found) },
                            },
                            Action::ResolveExe { pid: record.pid },
                        ),
                        _ => Monitor::halted(Fault::Protocol),
                    },
                    Stage::ResolvingExe { path } => match reply {
                        Reply::Exe(found) => (
                            Monitor::Dispatching {
                                batch,
                                cursor,
                                stage: Stage::Releasing { path, exe: exe_found(found, record.pid) },
                            },
                            Action::Release { file },
                        ),
                        _ => Monitor::halted(Fault::Protocol),
                    },
                    Stage::Releasing { path, exe } => match reply {
                        Reply::Release(closed) => (
                            Monitor::Dispatching { batch, cursor, stage: Stage::Emitting },
                            Action::Emit {
                                report: EventReport { kinds: kinds_of(record.mask), path, exe },
                                release_error: error_of(closed),
                            },
                        ),
                        _ => Monitor::halted(Fault::Protocol),
                    },
                    Stage::Emitting => match reply {
                        Reply::Emitted => Monitor::taking_up(batch, cursor + 1),
                        _ => Monitor::halted(Fault::Protocol),
                    },
                }
            },
            Monitor::Terminated { fault } => Monitor::halted(fault),
        }
    }

    /// The monitor at the start, and its first action: to poll.
    pub fn start() -> (out: (Monitor, Action))
        ensures
            out == (Monitor::Polling, Action::Poll),
            out.0.wf(),
    {
        (Monitor::Polling, Action::Poll)
    }

    /// Stops the monitor.
    fn halt(fault: Fault) -> (out: (Monitor, Action))
        ensures
            out == Monitor::halted(fault),
    {
        (Monitor::Terminated { fault }, Action::Halt { fault })
    }

    /// Takes up the first record of `batch` at or after `from` that carries a
    /// file, or goes back to polling where none is left.
    fn take_up(batch: Vec<RawEvent>, from: usize) -> (out: (Monitor, Action))
        requires
            from <= batch@.len(),
        ensures
            out == Monitor::taking_up(batch, from as int),
            out.0.wf(),
    {
        let mut at = from;
        while at < batch.len() && batch[at].file.is_none()
            invariant
                from <= at <= batch@.len(),
                next_delivered(batch@, from as int) == next_delivered(batch@, at as int),
            decreases batch@.len() - at,
        {
            at = at + 1;
        }
        if at >= batch.len() {
            return (Monitor::Polling, Action::Poll);
        }
        match batch[at].delivery() {
            Delivery::Delivered { file, pid: _, kinds } => {
                if kinds.open_permission {
                    (
                        Monitor::Dispatching { batch, cursor: at, stage: Stage::Responding },
                        Action::Allow { file },
                    )
                } else {
                    (
                        Monitor::Dispatching { batch, cursor: at, stage: Stage::ResolvingPath },
                        Action::ResolvePath { file },
                    )
                }
            },
            Delivery::Overflow => (Monitor::Polling, Action::Poll),
        }
    }

    /// Takes the reply to the action last asked for, and asks for the next.
    ///
    /// A reply that does not answer that action stops the monitor with
    /// `Fault::Protocol`. A monitor that has stopped stays stopped, whatever
    /// the reply.
    pub fn step(self, reply: Reply) -> (out: (Monitor, Action))
        ensures
            out == self.next(reply),
            out.0.wf(),
    {
        match self {
            Monitor::Polling => match reply {
                Reply::Read(Ok(batch)) => Monitor::take_up(batch, 0),
                Reply::Read(Err(errno)) => Monitor::halt(Fault::ReadFailed(errno)),
                _ => Monitor::halt(Fault::Protocol),
            },
            Monitor::Dispatching { batch, cursor, stage } => {
                if cursor >= batch.len() {
                    return Monitor::halt(Fault::Protocol);
                }
                let record = batch[cursor];
                let file = match record.file {
                    Some(file) => file,
                    None => {
                        return Monitor::halt(Fault::Protocol);
                    },
                };
                match stage {
                    Stage::Responding => match reply {
                        Reply::Response(Ok(_)) => (
                            Monitor::Dispatching { batch, cursor, stage: Stage::ResolvingPath },
                            Action::ResolvePath { file },
                        ),
                        Reply::Response(Err(errno)) => Monitor::halt(Fault::ResponseFailed(errno)),
                        _ => Monitor::halt(Fault::Protocol),
                    },
                    Stage::ResolvingPath => match reply {
                        Reply::Path(found) => {
                            let path = match found {
                                Ok(path) => AccessedPath::Resolved(path),
                                Err(errno) => AccessedPath::Unresolved(errno),
                            };
                            (
                                Monitor::Dispatching {
                                    batch,
                                    cursor,
                                    stage: Stage::ResolvingExe { path },
                                },
                                Action::ResolveExe { pid: record.pid },
                            )
                        },
                        _ => Monitor::halt(Fault::Protocol),
                    },
                    Stage::ResolvingExe { path } => match reply {
                        Reply::Exe(found) => {
                            let exe = match found {
                                Some(path) => Executable::Resolved(path),
                                None => Executable::Gone(record.pid),
                            };
                            (
                                Monitor::Dispatching {
                                    batch,
                                    cursor,
                                    stage: Stage::Releasing { path, exe },
                                },
                                Action::Release { file },
                            )
                        },
                        _ => Monitor::halt(Fault::Protocol),
                    },
                    Stage::Releasing { path, exe } => match reply {
                        Reply::Release(closed) => {
                            let release_error = match closed {
                                Ok(_) => None,
                                Err(errno) => Some(errno),
                            };
                            (
                                Monitor::Dispatching { batch, cursor, stage: Stage::Emitting },
                                Action::Emit {
                                    report: EventReport {
                                        kinds: classify(record.mask),
                                        path,
                                        exe,
                                    },
                                    release_error,
                                },
                            )
                        },
                        _ => Monitor::halt(Fault::Protocol),
                    },
                    Stage::Emitting => match reply {
                        Reply::Emitted => Monitor::take_up(batch, cursor + 1),
                        _ => Monitor::halt(Fault::Protocol),
                    },
                }
            },
            Monitor::Terminated { fault } => Monitor::halt(fault),
        }
    }
}

} // verus!
