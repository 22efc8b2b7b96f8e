//! What the monitor does over a whole batch, and the laws that follow.
//!
//! `Monitor::next` says what one step does. Here the steps are put together:
//! `Monitor::run` feeds a sequence of replies to the machine and collects the
//! actions it asks for, and `lemma_batch_prefix` shows that a batch is worked
//! off record by record, each record on its own.

use crate::event::{kinds_of, RawEvent};
use crate::monitor::{
    error_of, exe_found, lemma_next_delivered, next_delivered, path_found, Action, Fault, Monitor,
    Reply, Stage,
};
use crate::report::EventReport;
use vstd::prelude::*;

verus! {

/// What the operating system answers while one record is handled.
pub struct Outcome {
    /// Whether the answer to the request for permission can be sent.
    pub response: Result<(), i32>,
    /// The path of the file, or the error number.
    pub path: Result<String, i32>,
    /// The program of the process, where it can be had.
    pub exe: Option<String>,
    /// Whether the file can be closed.
    pub release: Result<(), i32>,
}

impl Monitor {
    /// The monitor after the replies of `replies`, one after the other, and
    /// the actions it asked for, one for each reply.
    pub open spec fn run(self, replies: Seq<Reply>) -> (Monitor, Seq<Action>)
        decreases replies.len(),
    {
        if replies.len() == 0 {
            (self, Seq::<Action>::empty())
        } else {
            let (before, actions) = self.run(replies.drop_last());
            let (after, action) = before.next(replies.last());
            (after, actions.push(action))
        }
    }
}

impl RawEvent {
    /// Whether the record carries a file and holds a request for permission.
    pub open spec fn asks_permission(self) -> bool {
        self.file is Some && kinds_of(self.mask).open_permission
    }

    /// Whether the record asks for permission and the answer cannot be sent.
    pub open spec fn is_refused(self, outcome: Outcome) -> bool {
        self.asks_permission() && outcome.response is Err
    }

    /// The report of the record.
    pub open spec fn report(self, outcome: Outcome) -> EventReport {
        EventReport {
            kinds: kinds_of(self.mask),
            path: path_found(outcome.path),
            exe: exe_found(outcome.exe, self.pid),
        }
    }

    /// The actions that the record calls for, in order. An overflow marker
    /// calls for none. A request for permission whose answer cannot be sent
    /// calls for that answer alone.
    pub open spec fn actions(self, outcome: Outcome) -> Seq<Action> {
        if self.file is None {
            Seq::<Action>::empty()
        } else if self.is_refused(outcome) {
            seq![Action::Allow { file: self.file->0 }]
        } else {
            (if self.asks_permission() {
                seq![Action::Allow { file: self.file->0 }]
            } else {
                Seq::<Action>::empty()
            }) + seq![
                Action::ResolvePath { file: self.file->0 },
                Action::ResolveExe { pid: self.pid },
                Action::Release { file: self.file->0 },
                Action::Emit {
                    report: self.report(outcome),
                    release_error: error_of(outcome.release),
                },
            ]
        }
    }

    /// The replies to the actions of `actions`, in the same order.
    pub open spec fn replies(self, outcome: Outcome) -> Seq<Reply> {
        if self.file is None {
            Seq::<Reply>::empty()
        } else if self.is_refused(outcome) {
            seq![Reply::Response(outcome.response)]
        } else {
            (if self.asks_permission() {
                seq![Reply::Response(outcome.response)]
            } else {
                Seq::<Reply>::empty()
            }) + seq![
                Reply::Path(outcome.path),
                Reply::Exe(outcome.exe),
                Reply::Release(outcome.release),
                Reply::Emitted,
            ]
        }
    }
}

/// The actions that the first `n` records of `batch` call for, record after
/// record.
pub open spec fn actions_of(batch: Seq<RawEvent>, outcomes: Seq<Outcome>, n: int) -> Seq<Action>
    decreases n,
{
    if n <= 0 {
        Seq::<Action>::empty()
    } else {
        actions_of(batch, outcomes, n - 1) + batch[n - 1].actions(outcomes[n - 1])
    }
}

/// The replies to the actions of `actions_of`.
pub open spec fn replies_of(batch: Seq<RawEvent>, outcomes: Seq<Outcome>, n: int) -> Seq<Reply>
    decreases n,
{
    if n <= 0 {
        Seq::<Reply>::empty()
    } else {
        replies_of(batch, outcomes, n - 1) + batch[n - 1].replies(outcomes[n - 1])
    }
}

/// One more reply is one more step.
pub proof fn lemma_run_push(m: Monitor, replies: Seq<Reply>, reply: Reply)
    ensures
        m.run(replies.push(reply)) == (
            m.run(replies).0.next(reply).0,
            m.run(replies).1.push(m.run(replies).0.next(reply).1),
        ),
{
    assert(replies.push(reply).drop_last() =~= replies);
}

/// A run over one sequence of replies after another is the run over the
/// first, followed by the run over the second.
pub proof fn lemma_run_append(m: Monitor, first: Seq<Reply>, second: Seq<Reply>)
    ensures
        m.run(first + second) == (
            m.run(first).0.run(second).0,
            m.run(first).1 + m.run(first).0.run(second).1,
        ),
    decreases second.len(),
{
    let mid = m.run(first).0;
    if second.len() == 0 {
        assert(first + second =~= first);
        assert(m.run(first).1 + mid.run(second).1 =~= m.run(first).1);
    } else {
        let front = second.drop_last();
        let last = second.last();
        lemma_run_append(m, first, front);
        assert(first + second =~= (first + front).push(last));
        lemma_run_push(m, first + front, last);
        let end = mid.run(front).0;
        assert(m.run(first).1 + mid.run(second).1 =~= (m.run(first).1 + mid.run(front).1).push(
            end.next(last).1,
        ));
    }
}

/// A run that starts with `reply` is the step on `reply`, followed by the run
/// over the rest.
pub proof fn lemma_run_first(m: Monitor, reply: Reply, rest: Seq<Reply>)
    ensures
        m.run(seq![reply] + rest) == (
            m.next(reply).0.run(rest).0,
            seq![m.next(reply).1] + m.next(reply).0.run(rest).1,
        ),
{
    lemma_run_push(m, Seq::<Reply>::empty(), reply);
    assert(Seq::<Reply>::empty().push(reply) =~= seq![reply]);
    assert(Seq::<Action>::empty().push(m.next(reply).1) =~= seq![m.next(reply).1]);
    lemma_run_append(m, seq![reply], rest);
}

/// The monitor that has taken up a record and is past the answer to its
/// request for permission, if it holds one, goes through the rest of the
/// record's actions and takes up the next record.
proof fn lemma_record_resolved(batch: Vec<RawEvent>, k: int, outcome: Outcome)
    requires
        0 <= k < batch@.len(),
        batch@[k].file is Some,
    ensures
        (Monitor::Dispatching { batch, cursor: k as usize, stage: Stage::ResolvingPath }).run(
            seq![
                Reply::Path(outcome.path),
                Reply::Exe(outcome.exe),
                Reply::Release(outcome.release),
                Reply::Emitted,
            ],
        ) == (
            Monitor::taking_up(batch, k + 1).0,
            seq![
                Action::ResolveExe { pid: batch@[k].pid },
                Action::Release { file: batch@[k].file->0 },
                Action::Emit {
                    report: batch@[k].report(outcome),
                    release_error: error_of(outcome.release),
                },
                Monitor::taking_up(batch, k + 1).1,
            ],
        ),
{
    let record = batch@[k];
    assert(batch@.len() == batch.len());
    let cursor = k as usize;
    let r1 = Reply::Path(outcome.path);
    let r2 = Reply::Exe(outcome.exe);
    let r3 = Reply::Release(outcome.release);
    let r4 = Reply::Emitted;
    let m1 = Monitor::Dispatching { batch, cursor, stage: Stage::ResolvingPath };
    let m2 = Monitor::Dispatching {
        batch,
        cursor,
        stage: Stage::ResolvingExe { path: path_found(outcome.path) },
    };
    let m3 = Monitor::Dispatching {
        batch,
        cursor,
        stage: Stage::Releasing {
            path: path_found(outcome.path),
            exe: exe_found(outcome.exe, record.pid),
        },
    };
    let m4 = Monitor::Dispatching { batch, cursor, stage: Stage::Emitting };
    assert(m1.next(r1).0 == m2);
    assert(m2.next(r2).0 == m3);
    assert(m3.next(r3).0 == m4);
    assert(m4.next(r4) == Monitor::taking_up(batch, k + 1));
    let none = Seq::<Reply>::empty();
    assert(m4.run(none) == (m4, Seq::<Action>::empty()));
    lemma_run_push(m4, none, r4);
    assert(none.push(r4) =~= seq![r4]);
    lemma_run_first(m3, r3, seq![r4]);
    assert(seq![r3] + seq![r4] =~= seq![r3, r4]);
    lemma_run_first(m2, r2, seq![r3, r4]);
    assert(seq![r2] + seq![r3, r4] =~= seq![r2, r3, r4]);
    lemma_run_first(m1, r1, seq![r2, r3, r4]);
    assert(seq![r1] + seq![r2, r3, r4] =~= seq![r1, r2, r3, r4]);
    let a5 = Monitor::taking_up(batch, k + 1).1;
    assert(m4.run(seq![r4]).1 =~= seq![a5]);
    assert(m3.run(seq![r3, r4]).1 =~= seq![m3.next(r3).1, a5]);
    assert(m2.run(seq![r2, r3, r4]).1 =~= seq![m2.next(r2).1, m3.next(r3).1, a5]);
    assert(m1.run(seq![r1, r2, r3, r4]).1 =~= seq![
        m1.next(r1).1,
        m2.next(r2).1,
        m3.next(r3).1,
        a5,
    ]);
}

/// The monitor that has taken up a record which is not refused goes through
/// the record's actions, the first of which it has asked for already, and
/// takes up the next record.
pub proof fn lemma_record_handled(batch: Vec<RawEvent>, k: int, outcome: Outcome)
    requires
        0 <= k < batch@.len(),
        batch@[k].file is Some,
        !batch@[k].is_refused(outcome),
    ensures
        Monitor::taking_up(batch, k).1 == batch@[k].actions(outcome)[0],
        Monitor::taking_up(batch, k).0.run(batch@[k].replies(outcome)) == (
            Monitor::taking_up(batch, k + 1).0,
            batch@[k].actions(outcome).drop_first().push(Monitor::taking_up(batch, k + 1).1),
        ),
{
    let record = batch@[k];
    let file = record.file->0;
    let rest = seq![
        Reply::Path(outcome.path),
        Reply::Exe(outcome.exe),
        Reply::Release(outcome.release),
        Reply::Emitted,
    ];
    assert(batch@.len() == batch.len());
    let resolving = Monitor::Dispatching { batch, cursor: k as usize, stage: Stage::ResolvingPath };
    let a5 = Monitor::taking_up(batch, k + 1).1;
    assert(next_delivered(batch@, k) == k);
    lemma_record_resolved(batch, k, outcome);
    if record.asks_permission() {
        let r0 = Reply::Response(outcome.response);
        let m0 = Monitor::taking_up(batch, k).0;
        assert(m0.next(r0) == (resolving, Action::ResolvePath { file }));
        lemma_run_first(m0, r0, rest);
        assert(record.replies(outcome) =~= seq![r0] + rest);
        assert(record.actions(outcome).drop_first().push(a5) =~= seq![
            Action::ResolvePath { file },
        ] + resolving.run(rest).1);
    } else {
        assert(record.replies(outcome) =~= rest);
        assert(record.actions(outcome).drop_first().push(a5) =~= resolving.run(rest).1);
    }
}

/// After the batch is read and its first `n` records are handled, none of
/// them refused, the monitor has asked for the actions of these records, in
/// order, and is taking up the next record that carries a file, or polling
/// again where none is left.
pub proof fn lemma_batch_prefix(batch: Vec<RawEvent>, outcomes: Seq<Outcome>, n: int)
    requires
        0 <= n <= batch@.len(),
        outcomes.len() == batch@.len(),
        forall|j: int| 0 <= j < n ==> !batch@[j].is_refused(#[trigger] outcomes[j]),
    ensures
        Monitor::Polling.run(seq![Reply::Read(Ok(batch))] + replies_of(batch@, outcomes, n)) == (
            Monitor::taking_up(batch, n).0,
            actions_of(batch@, outcomes, n).push(Monitor::taking_up(batch, n).1),
        ),
    decreases n,
{
    let first = Reply::Read(Ok(batch));
    let start = Monitor::Polling;
    if n == 0 {
        lemma_run_first(start, first, Seq::<Reply>::empty());
        assert(replies_of(batch@, outcomes, 0) =~= Seq::<Reply>::empty());
        assert(actions_of(batch@, outcomes, 0).push(Monitor::taking_up(batch, 0).1) =~= seq![
            Monitor::taking_up(batch, 0).1,
        ] + Seq::<Action>::empty());
    } else {
        let k = n - 1;
        let record = batch@[k];
        let outcome = outcomes[k];
        let before = seq![first] + replies_of(batch@, outcomes, k);
        let asked = actions_of(batch@, outcomes, k);
        lemma_batch_prefix(batch, outcomes, k);
        assert(!record.is_refused(outcome));
        if record.file is None {
            assert(seq![first] + replies_of(batch@, outcomes, n) =~= before);
            assert(actions_of(batch@, outcomes, n) =~= asked);
            assert(next_delivered(batch@, k) == next_delivered(batch@, n));
        } else {
            lemma_record_handled(batch, k, outcome);
            lemma_run_append(start, before, record.replies(outcome));
            assert(seq![first] + replies_of(batch@, outcomes, n) =~= before + record.replies(
                outcome,
            ));
            let a0 = Monitor::taking_up(batch, k).1;
            let a5 = Monitor::taking_up(batch, n).1;
            assert(record.actions(outcome).len() > 0);
            assert(actions_of(batch@, outcomes, n).push(a5) =~= asked.push(a0) + record.actions(
                outcome,
            ).drop_first().push(a5));
        }
    }
}

/// The monitor stops on a failure and on nothing else. A monitor that is
/// well formed and has not stopped goes on for every reply that answers its
/// action, but for two: a batch that cannot be read, and an answer to a
/// request for permission that cannot be sent. Each of the two stops it with
/// the error number, and any reply out of turn stops it with
/// `Fault::Protocol`.
pub proof fn law_monitor_stops_only_on_failure(m: Monitor, reply: Reply)
    requires
        m.wf(),
        !(m is Terminated),
    ensures
        m.next(reply).0 is Terminated <==> m.next(reply).1 is Halt,
        m.next(reply).0 is Terminated ==> m.next(reply) == Monitor::halted(
            m.next(reply).0->fault,
        ),
        m.next(reply).0 == (Monitor::Terminated { fault: Fault::Protocol }) <==> !m.awaits(reply),
        (m.next(reply).0 matches Monitor::Terminated { fault: Fault::ReadFailed(errno) }
            ==> m is Polling && reply == Reply::Read(Err(errno))),
        (m.next(reply).0 matches Monitor::Terminated { fault: Fault::ResponseFailed(errno) }
            ==> m matches Monitor::Dispatching { stage: Stage::Responding, .. } && reply
            == Reply::Response(Err(errno))),
        (reply matches Reply::Read(Err(errno)) ==> (m is Polling ==> m.next(reply).0
            == (Monitor::Terminated { fault: Fault::ReadFailed(errno) }))),
        (reply matches Reply::Response(Err(errno)) ==> (m matches Monitor::Dispatching {
            stage: Stage::Responding,
            ..
        } ==> m.next(reply).0 == (Monitor::Terminated { fault: Fault::ResponseFailed(errno) }))),
{
    match m {
        Monitor::Polling => {
            lemma_taking_up_goes_on(reply->Read_0->Ok_0, 0);
        },
        Monitor::Dispatching { batch, cursor, stage } => {
            lemma_taking_up_goes_on(batch, cursor + 1);
        },
        Monitor::Terminated { fault } => {},
    }
}

/// Taking up a record never stops the monitor.
proof fn lemma_taking_up_goes_on(batch: Vec<RawEvent>, from: int)
    ensures
        !(Monitor::taking_up(batch, from).0 is Terminated),
        !(Monitor::taking_up(batch, from).1 is Halt),
{
}

/// A monitor that has stopped stays stopped: whatever replies it is given,
/// it keeps its fault and asks for nothing but to halt.
pub proof fn law_stopped_stays_stopped(fault: Fault, replies: Seq<Reply>)
    ensures
        (Monitor::Terminated { fault }).run(replies).0 == (Monitor::Terminated { fault }),
        (Monitor::Terminated { fault }).run(replies).1.len() == replies.len(),
        forall|i: int|
            0 <= i < replies.len() ==> (#[trigger] (Monitor::Terminated { fault }).run(
                replies,
            ).1[i]) == (Action::Halt { fault }),
    decreases replies.len(),
{
    if replies.len() > 0 {
        law_stopped_stays_stopped(fault, replies.drop_last());
    }
}

/// A batch in which no record is refused is worked off in full: the monitor
/// asks for the actions of its records, record after record, then polls
/// again, and is back at polling.
pub proof fn law_batch_is_worked_off(batch: Vec<RawEvent>, outcomes: Seq<Outcome>)
    requires
        outcomes.len() == batch@.len(),
        forall|j: int| 0 <= j < batch@.len() ==> !batch@[j].is_refused(#[trigger] outcomes[j]),
    ensures
        Monitor::Polling.run(
            seq![Reply::Read(Ok(batch))] + replies_of(batch@, outcomes, batch@.len() as int),
        ) == (
            Monitor::Polling,
            actions_of(batch@, outcomes, batch@.len() as int).push(Action::Poll),
        ),
{
    lemma_batch_prefix(batch, outcomes, batch@.len() as int);
}

/// The first record of a batch that is refused stops the monitor: it has
/// asked for the actions of the records before, then for the answer to this
/// record, and on the failure of that answer it halts with the error number,
/// and asks for nothing more of this record or of those behind it.
pub proof fn law_refusal_stops(batch: Vec<RawEvent>, outcomes: Seq<Outcome>, n: int)
    requires
        0 <= n < batch@.len(),
        outcomes.len() == batch@.len(),
        forall|j: int| 0 <= j < n ==> !batch@[j].is_refused(#[trigger] outcomes[j]),
        batch@[n].is_refused(outcomes[n]),
    ensures
        Monitor::Polling.run(
            seq![Reply::Read(Ok(batch))] + replies_of(batch@, outcomes, n + 1),
        ) == (
            Monitor::Terminated { fault: Fault::ResponseFailed(outcomes[n].response->Err_0) },
            actions_of(batch@, outcomes, n + 1).push(
                Action::Halt { fault: Fault::ResponseFailed(outcomes[n].response->Err_0) },
            ),
        ),
{
    let before = seq![Reply::Read(Ok(batch))] + replies_of(batch@, outcomes, n);
    let refusal = Reply::Response(outcomes[n].response);
    let fault = Fault::ResponseFailed(outcomes[n].response->Err_0);
    lemma_batch_prefix(batch, outcomes, n);
    assert(next_delivered(batch@, n) == n);
    assert(batch@.len() == batch.len());
    assert(Monitor::taking_up(batch, n).0.next(refusal) == Monitor::halted(fault));
    lemma_run_push(Monitor::Polling, before, refusal);
    assert(seq![Reply::Read(Ok(batch))] + replies_of(batch@, outcomes, n + 1) =~= before.push(
        refusal,
    ));
    assert(actions_of(batch@, outcomes, n + 1).push(Action::Halt { fault }) =~= actions_of(
        batch@,
        outcomes,
        n,
    ).push(Action::Allow { file: batch@[n].file->0 }).push(Action::Halt { fault }));
}

/// A record that marks an overflow leaves no trace, wherever it stands in a
/// batch: it calls for no action, so for no answer and no report, and the
/// monitor that would take it up takes up what follows it instead.
pub proof fn law_overflow_is_passed_over(batch: Vec<RawEvent>, outcomes: Seq<Outcome>, k: int)
    requires
        0 <= k < batch@.len(),
        outcomes.len() == batch@.len(),
        batch@[k].file is None,
    ensures
        batch@[k].actions(outcomes[k]) == Seq::<Action>::empty(),
        batch@[k].replies(outcomes[k]) == Seq::<Reply>::empty(),
        actions_of(batch@, outcomes, k + 1) == actions_of(batch@, outcomes, k),
        replies_of(batch@, outcomes, k + 1) == replies_of(batch@, outcomes, k),
        Monitor::taking_up(batch, k) == Monitor::taking_up(batch, k + 1),
{
    assert(actions_of(batch@, outcomes, k + 1) =~= actions_of(batch@, outcomes, k));
    assert(replies_of(batch@, outcomes, k + 1) =~= replies_of(batch@, outcomes, k));
    assert(next_delivered(batch@, k) == next_delivered(batch@, k + 1));
}

/// A batch of nothing but overflow markers sends the monitor straight back
/// to polling: no answer is sent and no report is put out.
pub proof fn law_overflow_alone_is_dropped(batch: Vec<RawEvent>)
    requires
        forall|j: int| 0 <= j < batch@.len() ==> (#[trigger] batch@[j]).file is None,
    ensures
        Monitor::Polling.next(Reply::Read(Ok(batch))) == (Monitor::Polling, Action::Poll),
{
    lemma_next_delivered(batch@, 0);
    let at = next_delivered(batch@, 0);
    if at < batch@.len() {
        assert(batch@[at].file is None);
    }
}

/// A request for permission is answered once, and before anything else is
/// done for its record. The first action for the record is the answer. The
/// path is asked for only when the answer is out, and then the rest follows
/// whether the path is found or not; no second answer is among it. Where the
/// answer cannot be sent, the monitor halts with that error and the path is
/// never asked for.
pub proof fn law_permission_is_answered_first(
    batch: Vec<RawEvent>,
    k: int,
    outcome: Outcome,
    errno: i32,
)
    requires
        0 <= k < batch@.len(),
        batch@[k].asks_permission(),
    ensures
        Monitor::taking_up(batch, k) == (
            Monitor::Dispatching { batch, cursor: k as usize, stage: Stage::Responding },
            Action::Allow { file: batch@[k].file->0 },
        ),
        Monitor::taking_up(batch, k).0.run(
            seq![
                Reply::Response(Ok(())),
                Reply::Path(outcome.path),
                Reply::Exe(outcome.exe),
                Reply::Release(outcome.release),
                Reply::Emitted,
            ],
        ) == (
            Monitor::taking_up(batch, k + 1).0,
            seq![
                Action::ResolvePath { file: batch@[k].file->0 },
                Action::ResolveExe { pid: batch@[k].pid },
                Action::Release { file: batch@[k].file->0 },
                Action::Emit {
                    report: batch@[k].report(outcome),
                    release_error: error_of(outcome.release),
                },
                Monitor::taking_up(batch, k + 1).1,
            ],
        ),
        Monitor::taking_up(batch, k).0.next(Reply::Response(Err(errno))) == Monitor::halted(
            Fault::ResponseFailed(errno),
        ),
{
    let sent = Outcome {
        response: Ok(()),
        path: outcome.path,
        exe: outcome.exe,
        release: outcome.release,
    };
    let record = batch@[k];
    assert(batch@.len() == batch.len());
    assert(next_delivered(batch@, k) == k);
    lemma_record_handled(batch, k, sent);
    assert(record.report(sent) == record.report(outcome));
    assert(record.replies(sent) =~= seq![
        Reply::Response(Ok(())),
        Reply::Path(outcome.path),
        Reply::Exe(outcome.exe),
        Reply::Release(outcome.release),
        Reply::Emitted,
    ]);
    assert(record.actions(sent).drop_first().push(Monitor::taking_up(batch, k + 1).1) =~= seq![
        Action::ResolvePath { file: record.file->0 },
        Action::ResolveExe { pid: record.pid },
        Action::Release { file: record.file->0 },
        Action::Emit { report: record.report(outcome), release_error: error_of(outcome.release) },
        Monitor::taking_up(batch, k + 1).1,
    ]);
}

/// The monitor keeps no memory of the records it has handled: a record that
/// comes twice is handled twice, each time as if it came alone. With a
/// request for permission that is two answers and two reports.
pub proof fn law_no_memory(batch: Vec<RawEvent>, record: RawEvent, outcome: Outcome)
    requires
        batch@ == seq![record, record],
        !record.is_refused(outcome),
    ensures
        Monitor::Polling.run(
            seq![Reply::Read(Ok(batch))] + record.replies(outcome) + record.replies(outcome),
        ) == (
            Monitor::Polling,
            (record.actions(outcome) + record.actions(outcome)).push(Action::Poll),
        ),
{
    let outcomes = seq![outcome, outcome];
    law_batch_is_worked_off(batch, outcomes);
    assert(replies_of(batch@, outcomes, 0) =~= Seq::<Reply>::empty());
    assert(replies_of(batch@, outcomes, 1) =~= record.replies(outcome));
    assert(replies_of(batch@, outcomes, 2) =~= record.replies(outcome) + record.replies(outcome));
    assert(actions_of(batch@, outcomes, 0) =~= Seq::<Action>::empty());
    assert(actions_of(batch@, outcomes, 1) =~= record.actions(outcome));
    assert(actions_of(batch@, outcomes, 2) =~= record.actions(outcome) + record.actions(outcome));
    assert(seq![Reply::Read(Ok(batch))] + record.replies(outcome) + record.replies(outcome)
        =~= seq![Reply::Read(Ok(batch))] + replies_of(batch@, outcomes, 2));
}

} // verus!
