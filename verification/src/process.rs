//! The process activity: the process is duplicated, the duplicate replaces
//! its program where that is asked for, and the parent waits for it to end.
//!
//! The caller forks, executes and waits; [`ProcessRun`] says which of these
//! comes next, in the parent and in the child, and keeps the time of each.

use crate::clock::{in_order, lemma_rest_in_order, non_decreasing, Timestamp};
use crate::identity::{ExecNameError, IdentityContext};
use crate::log::{times_of, ActivityLog, ActivityModel, Log, LogModel};
use nix::errno::Errno;
use vstd::prelude::*;
use vstd::string::StringExecFns;

verus! {

/// Why a process activity came to nothing.
#[derive(Debug)]
pub enum Error {
    /// The process could not be duplicated.
    Fork(Errno),
    /// Waiting for the child failed.
    WaitChild(Errno),
    /// The identity of the process could not be resolved.
    ExecName(ExecNameError),
    /// The child was to replace its program and did not end with status 0,
    /// so it cannot be known to have done so.
    ChildExit,
}

/// How a child ended.
#[derive(Clone, Copy, Debug, PartialEq, Eq, Structural)]
pub enum ExitOutcome {
    /// It exited with status 0.
    ExitedZero,
    /// It exited with this status, which is not 0.
    ExitedNonZero(i32),
    /// It was ended by the signal of this number.
    Signaled(i32),
}

impl ExitOutcome {
    /// How a child ended that exited with `status`.
    pub fn exited(status: i32) -> (outcome: ExitOutcome)
        ensures
            outcome == if status == 0 {
                ExitOutcome::ExitedZero
            } else {
                ExitOutcome::ExitedNonZero(status)
            },
    {
        if status == 0 {
            ExitOutcome::ExitedZero
        } else {
            ExitOutcome::ExitedNonZero(status)
        }
    }
}

/// The path of the program that a child executes.
pub open spec fn program() -> Seq<char> {
    "/usr/bin/printf"@
}

/// The arguments that a child executes its program with: the program's
/// path and the empty text, which prints nothing.
pub open spec fn arguments() -> Seq<Seq<char>> {
    seq![program(), Seq::empty()]
}

/// The command line by which a record names the program that the child
/// executed.
pub open spec fn executed_command_line() -> Seq<char> {
    "/usr/bin/printf ''"@
}

/// The process name by which a record names the program that the child
/// executed.
pub open spec fn executed_process_name() -> Seq<char> {
    "printf"@
}

/// The record of the duplication of `identity`'s process into the child
/// `child` at `forked`. It is the parent's.
pub open spec fn fork_record(identity: IdentityContext, child: i32, forked: Timestamp) -> LogModel {
    LogModel {
        activity: ActivityModel::Fork { child_pid: child as u32 },
        time: forked,
        username: identity.username@,
        pid: identity.pid,
        command_line: identity.command_line@,
        process_name: identity.process_name@,
    }
}

/// The record of the program that the child `child` of `identity`'s
/// process executed, as seen at `ended`. It describes the child as the
/// program that it became.
pub open spec fn exec_record(identity: IdentityContext, child: i32, ended: Timestamp) -> LogModel {
    LogModel {
        activity: ActivityModel::Exec { parent_pid: identity.pid },
        time: ended,
        username: identity.username@,
        pid: child as u32,
        command_line: executed_command_line(),
        process_name: executed_process_name(),
    }
}

/// What the end of the child comes to for a parent that forked `child` at
/// `forked` and saw it end at `ended`: without `with_exec` the fork alone is
/// recorded, however the child ended; with it both are recorded where
/// the child exited with status 0, and nothing is where it did not.
pub open spec fn concluded(
    identity: IdentityContext,
    with_exec: bool,
    child: i32,
    forked: Timestamp,
    outcome: ExitOutcome,
    ended: Timestamp,
) -> Result<Seq<LogModel>, Error> {
    if !with_exec {
        Ok(seq![fork_record(identity, child, forked)])
    } else if outcome is ExitedZero {
        Ok(seq![fork_record(identity, child, forked), exec_record(identity, child, ended)])
    } else {
        Err(Error::ChildExit)
    }
}

/// What the caller is asked to do next.
#[derive(Debug, PartialEq, Eq)]
pub enum ProcessAction {
    /// Duplicate the process, and report from both duplicates.
    Fork,
    /// In the child: replace the program by the one at `program`, run with
    /// `arguments`.
    Exec { program: String, arguments: Vec<String> },
    /// In the child: exit with `status`.
    Exit { status: i32 },
    /// In the child: end at once by a signal, as a failure.
    Abort,
    /// In the parent: wait until the child `child` has ended.
    Wait { child: i32 },
}

/// The content of a [`ProcessAction`].
pub ghost enum ProcessActionModel {
    Fork,
    Exec { program: Seq<char>, arguments: Seq<Seq<char>> },
    Exit { status: i32 },
    Abort,
    Wait { child: i32 },
}

impl View for ProcessAction {
    type V = ProcessActionModel;

    open spec fn view(&self) -> ProcessActionModel {
        match *self {
            ProcessAction::Fork => ProcessActionModel::Fork,
            ProcessAction::Exec { program, arguments } => ProcessActionModel::Exec {
                program: program@,
                arguments: arguments.deep_view(),
            },
            ProcessAction::Exit { status } => ProcessActionModel::Exit { status },
            ProcessAction::Abort => ProcessActionModel::Abort,
            ProcessAction::Wait { child } => ProcessActionModel::Wait { child },
        }
    }
}

/// How the action that was asked for ended.
#[derive(Debug)]
pub enum ProcessEvent {
    /// The process was duplicated; this is the parent, and `child` is the
    /// process id of the child.
    ForkedParent { child: i32 },
    /// The process was duplicated; this is the child.
    ForkedChild,
    ForkFailed(Errno),
    /// In the child: the program could not be replaced.
    ExecFailed,
    /// In the parent: the child has ended.
    Waited(ExitOutcome),
    WaitFailed(Errno),
}

/// How far a process activity has come.
#[derive(Clone, Copy, Debug, PartialEq, Eq, Structural)]
pub enum ProcessPhase {
    /// The process is being duplicated.
    Forking,
    /// In the child: the program is being replaced.
    Executing,
    /// In the child: the child is exiting.
    Exiting,
    /// In the child: the child is ending as a failure.
    Aborting,
    /// In the parent: the child `child` was forked at `forked` and is
    /// being waited for.
    Waiting { child: i32, forked: Timestamp },
}

/// A process activity under way.
#[derive(Debug)]
pub struct ProcessRun {
    pub identity: IdentityContext,
    pub with_exec: bool,
    pub phase: ProcessPhase,
}

/// What a process activity has come to after an event.
#[derive(Debug)]
pub enum ProcessStep {
    /// The activity goes on, and the caller is to carry out the action.
    Next(ProcessRun, ProcessAction),
    /// The activity is over: these are its records, or this stopped it.
    Done(Result<Vec<Log>, Error>),
}

/// The content of a [`ProcessStep`].
pub ghost enum ProcessStepModel {
    Next(ProcessRun, ProcessActionModel),
    Done(Result<Seq<LogModel>, Error>),
}

impl View for ProcessStep {
    type V = ProcessStepModel;

    open spec fn view(&self) -> ProcessStepModel {
        match *self {
            ProcessStep::Next(run, action) => ProcessStepModel::Next(run, action@),
            ProcessStep::Done(Ok(logs)) => ProcessStepModel::Done(Ok(logs.deep_view())),
            ProcessStep::Done(Err(error)) => ProcessStepModel::Done(Err(error)),
        }
    }
}

impl ProcessRun {
    /// The action that the run waits for the outcome of.
    pub open spec fn pending(self) -> ProcessActionModel {
        match self.phase {
            ProcessPhase::Forking => ProcessActionModel::Fork,
            ProcessPhase::Executing => ProcessActionModel::Exec { program: program(), arguments: arguments() },
            ProcessPhase::Exiting => ProcessActionModel::Exit { status: 0 },
            ProcessPhase::Aborting => ProcessActionModel::Abort,
            ProcessPhase::Waiting { child, .. } => ProcessActionModel::Wait { child },
        }
    }

    /// What the run comes to when `event` arrives at `now`.
    ///
    /// The parent keeps the time of the fork and waits for the child; the
    /// end of the child ends the run as [`concluded`] says. The child
    /// replaces its program where that was asked for and exits with status
    /// 0 otherwise; a child that could not replace its program aborts. An
    /// event that does not answer the pending action changes nothing, and
    /// the action is asked for again.
    pub open spec fn advanced(self, event: ProcessEvent, now: Timestamp) -> ProcessStepModel {
        match (self.phase, event) {
            (ProcessPhase::Forking, ProcessEvent::ForkFailed(errno)) => ProcessStepModel::Done(
                Err(Error::Fork(errno)),
            ),
            (ProcessPhase::Forking, ProcessEvent::ForkedChild) => if self.with_exec {
                ProcessStepModel::Next(
                    ProcessRun { phase: ProcessPhase::Executing, ..self },
                    ProcessActionModel::Exec { program: program(), arguments: arguments() },
                )
            } else {
                ProcessStepModel::Next(
                    ProcessRun { phase: ProcessPhase::Exiting, ..self },
                    ProcessActionModel::Exit { status: 0 },
                )
            },
            (ProcessPhase::Forking, ProcessEvent::ForkedParent { child }) => ProcessStepModel::Next(
                ProcessRun { phase: ProcessPhase::Waiting { child, forked: now }, ..self },
                ProcessActionModel::Wait { child },
            ),
            (ProcessPhase::Executing, ProcessEvent::ExecFailed) => ProcessStepModel::Next(
                ProcessRun { phase: ProcessPhase::Aborting, ..self },
                ProcessActionModel::Abort,
            ),
            (ProcessPhase::Waiting { .. }, ProcessEvent::WaitFailed(errno)) => ProcessStepModel::Done(
                Err(Error::WaitChild(errno)),
            ),
            (ProcessPhase::Waiting { child, forked }, ProcessEvent::Waited(outcome)) => ProcessStepModel::Done(
                concluded(self.identity, self.with_exec, child, forked, outcome, now),
            ),
            _ => ProcessStepModel::Next(self, self.pending()),
        }
    }

    /// The action that the run waits for the outcome of.
    pub fn pending_action(&self) -> (action: ProcessAction)
        ensures
            action@ == self.pending(),
    {
        match self.phase {
            ProcessPhase::Forking => ProcessAction::Fork,
            ProcessPhase::Executing => execute(),
            ProcessPhase::Exiting => ProcessAction::Exit { status: 0 },
            ProcessPhase::Aborting => ProcessAction::Abort,
            ProcessPhase::Waiting { child, .. } => ProcessAction::Wait { child },
        }
    }

    /// Takes the outcome of the pending action, which arrived at `now`.
    pub fn advance(self, event: ProcessEvent, now: Timestamp) -> (step: ProcessStep)
        ensures
            step@ == self.advanced(event, now),
    {
        match (self.phase, event) {
            (ProcessPhase::Forking, ProcessEvent::ForkFailed(errno)) => ProcessStep::Done(Err(Error::Fork(errno))),
            (ProcessPhase::Forking, ProcessEvent::ForkedChild) => if self.with_exec {
                ProcessStep::Next(ProcessRun { phase: ProcessPhase::Executing, ..self }, execute())
            } else {
                ProcessStep::Next(
                    ProcessRun { phase: ProcessPhase::Exiting, ..self },
                    ProcessAction::Exit { status: 0 },
                )
            },
            (ProcessPhase::Forking, ProcessEvent::ForkedParent { child }) => ProcessStep::Next(
                ProcessRun { phase: ProcessPhase::Waiting { child, forked: now }, ..self },
                ProcessAction::Wait { child },
            ),
            (ProcessPhase::Executing, ProcessEvent::ExecFailed) => ProcessStep::Next(
                ProcessRun { phase: ProcessPhase::Aborting, ..self },
                ProcessAction::Abort,
            ),
            (ProcessPhase::Waiting { .. }, ProcessEvent::WaitFailed(errno)) => ProcessStep::Done(
                Err(Error::WaitChild(errno)),
            ),
            (ProcessPhase::Waiting { child, forked }, ProcessEvent::Waited(outcome)) => ProcessStep::Done(
                conclude(&self.identity, self.with_exec, child, forked, outcome, now),
            ),
            (phase, _) => {
                let run = ProcessRun { phase, ..self };
                let action = run.pending_action();
                ProcessStep::Next(run, action)
            },
        }
    }
}

/// The action that asks the child to replace its program.
fn execute() -> (action: ProcessAction)
    ensures
        action@ == (ProcessActionModel::Exec { program: program(), arguments: arguments() }),
{
    let mut words: Vec<String> = Vec::new();
    words.push(String::from_str("/usr/bin/printf"));
    words.push(String::new());
    assert(words.deep_view() =~= arguments());
    ProcessAction::Exec { program: String::from_str("/usr/bin/printf"), arguments: words }
}

/// The records of a process activity whose child was forked at `forked`
/// and seen to end at `ended`, or the failure that the end of the child
/// amounts to.
pub fn conclude(
    identity: &IdentityContext,
    with_exec: bool,
    child: i32,
    forked: Timestamp,
    outcome: ExitOutcome,
    ended: Timestamp,
) -> (result: Result<Vec<Log>, Error>)
    ensures
        match concluded(*identity, with_exec, child, forked, outcome, ended) {
            Ok(records) => result matches Ok(logs) && logs.deep_view() == records,
            Err(error) => result == Err::<Vec<Log>, Error>(error),
        },
{
    let parent_pid = identity.pid;
    let child_pid = #[verifier::truncate]
    (child as u32);
    let mut logs = Vec::new();
    logs.push(
        Log {
            command_line: identity.command_line.clone(),
            username: identity.username.clone(),
            time: forked,
            pid: parent_pid,
            process_name: identity.process_name.clone(),
            activity: ActivityLog::Fork { child_pid },
        },
    );
    if with_exec {
        match outcome {
            ExitOutcome::ExitedZero => logs.push(
                Log {
                    username: identity.username.clone(),
                    time: ended,
                    command_line: String::from_str("/usr/bin/printf ''"),
                    pid: child_pid,
                    process_name: String::from_str("printf"),
                    activity: ActivityLog::Exec { parent_pid },
                },
            ),
            _ => {
                return Err(Error::ChildExit);
            },
        }
    }
    assert(logs.deep_view() =~= concluded(*identity, with_exec, child, forked, outcome, ended)->Ok_0);
    Ok(logs)
}

/// Begins a process activity for `identity`: the process is to be
/// duplicated, and the duplicate is to replace its program if `with_exec` is
/// set.
///
/// Returns the run and its first action, the fork.
pub fn process(identity: &IdentityContext, with_exec: bool) -> (start: (ProcessRun, ProcessAction))
    ensures
        start.0 == (ProcessRun { identity: *identity, with_exec, phase: ProcessPhase::Forking }),
        start.1@ == start.0.pending(),
{
    (ProcessRun { identity: identity.clone(), with_exec, phase: ProcessPhase::Forking }, ProcessAction::Fork)
}

/// What `run` comes to when `events` arrive one after the other, each at
/// the time it is paired with. Events that arrive after the end are not
/// looked at.
pub open spec fn replayed(run: ProcessRun, events: Seq<(ProcessEvent, Timestamp)>) -> ProcessStepModel
    decreases events.len(),
{
    if events.len() == 0 {
        ProcessStepModel::Next(run, run.pending())
    } else {
        match run.advanced(events[0].0, events[0].1) {
            ProcessStepModel::Next(next, _) => replayed(next, events.drop_first()),
            ProcessStepModel::Done(outcome) => ProcessStepModel::Done(outcome),
        }
    }
}

/// After `events`, a run that began as `run` stands as `waiting`: it is
/// the parent's, and waits for its child to end.
pub open spec fn awaits_child(
    run: ProcessRun,
    events: Seq<(ProcessEvent, Timestamp)>,
    waiting: ProcessRun,
) -> bool {
    &&& run.phase is Forking
    &&& waiting.phase is Waiting
    &&& replayed(run, events) == ProcessStepModel::Next(waiting, waiting.pending())
}

/// A run keeps its identity and what it was asked to do, and the time that
/// a waiting parent has kept is that of an event that has arrived.
proof fn lemma_run_keeps_what_it_began_with(
    run: ProcessRun,
    events: Seq<(ProcessEvent, Timestamp)>,
    reached: ProcessRun,
)
    requires
        replayed(run, events) == ProcessStepModel::Next(reached, reached.pending()),
    ensures
        reached.identity == run.identity,
        reached.with_exec == run.with_exec,
        reached.phase matches ProcessPhase::Waiting { forked, .. } ==> run.phase == reached.phase || (events.len()
            > 0 && (in_order(events) ==> forked.le(events.last().1))),
    decreases events.len(),
{
    if events.len() > 0 {
        match run.advanced(events[0].0, events[0].1) {
            ProcessStepModel::Next(next, _) => {
                lemma_run_keeps_what_it_began_with(next, events.drop_first(), reached);
                if in_order(events) {
                    lemma_rest_in_order(events);
                }
            },
            ProcessStepModel::Done(_) => {},
        }
    }
}

/// The end of the child ends every run that waits for it, as [`concluded`]
/// says of the identity and the request that the run began with. Where no
/// event arrived before the one before it, the child did not end before
/// it was forked.
pub proof fn lemma_end_of_child_ends_run(
    run: ProcessRun,
    events: Seq<(ProcessEvent, Timestamp)>,
    waiting: ProcessRun,
    outcome: ExitOutcome,
    ended: Timestamp,
)
    requires
        awaits_child(run, events, waiting),
    ensures
        waiting.phase matches ProcessPhase::Waiting { child, forked } && {
            &&& waiting.advanced(ProcessEvent::Waited(outcome), ended) == ProcessStepModel::Done(
                concluded(run.identity, run.with_exec, child, forked, outcome, ended),
            )
            &&& in_order(events.push((ProcessEvent::Waited(outcome), ended))) ==> forked.le(ended)
        },
{
    lemma_run_keeps_what_it_began_with(run, events, waiting);
    let all = events.push((ProcessEvent::Waited(outcome), ended));
    if in_order(all) {
        assert(events.len() > 0);
        assert forall|i: int, j: int| 0 <= i <= j < events.len() implies events[i].1.le(events[j].1) by {
            assert(all[i] == events[i]);
            assert(all[j] == events[j]);
        }
        assert(all[events.len() - 1] == events.last());
        assert(all[events.len() as int].1 == ended);
        assert(all[events.len() - 1].1.le(all[events.len() as int].1));
    }
}

/// Where the child was not asked to replace its program, every run that
/// comes to the end of its child ends with one record, that of the fork,
/// however the child ended.
pub proof fn lemma_fork_alone(
    run: ProcessRun,
    events: Seq<(ProcessEvent, Timestamp)>,
    waiting: ProcessRun,
    outcome: ExitOutcome,
    ended: Timestamp,
)
    requires
        awaits_child(run, events, waiting),
        !run.with_exec,
    ensures
        waiting.advanced(ProcessEvent::Waited(outcome), ended) matches ProcessStepModel::Done(Ok(records))
            && records.len() == 1 && records[0].activity is Fork,
{
    lemma_end_of_child_ends_run(run, events, waiting, outcome, ended);
}

/// Where the child was asked to replace its program and exited with status
/// 0, the run ends with two records, that of the fork and then that of
/// the program executed. Where no event arrived before the one before it,
/// their times do not decrease.
pub proof fn lemma_fork_then_exec(
    run: ProcessRun,
    events: Seq<(ProcessEvent, Timestamp)>,
    waiting: ProcessRun,
    ended: Timestamp,
)
    requires
        awaits_child(run, events, waiting),
        run.with_exec,
    ensures
        waiting.advanced(ProcessEvent::Waited(ExitOutcome::ExitedZero), ended) matches ProcessStepModel::Done(
            Ok(records),
        ) && {
            &&& records.len() == 2
            &&& records[0].activity is Fork
            &&& records[1].activity is Exec
            &&& in_order(events.push((ProcessEvent::Waited(ExitOutcome::ExitedZero), ended))) ==> non_decreasing(
                times_of(records),
            )
        },
{
    lemma_end_of_child_ends_run(run, events, waiting, ExitOutcome::ExitedZero, ended);
}

/// Where the child was asked to replace its program and exited with
/// another status than 0, or was ended by a signal, the run ends with
/// [`Error::ChildExit`] and without records.
pub proof fn lemma_unverified_exec_fails(
    run: ProcessRun,
    events: Seq<(ProcessEvent, Timestamp)>,
    waiting: ProcessRun,
    outcome: ExitOutcome,
    ended: Timestamp,
)
    requires
        awaits_child(run, events, waiting),
        run.with_exec,
        outcome !is ExitedZero,
    ensures
        waiting.advanced(ProcessEvent::Waited(outcome), ended) == ProcessStepModel::Done(Err(Error::ChildExit)),
{
    lemma_end_of_child_ends_run(run, events, waiting, outcome, ended);
}

/// In the records that a run ends with, the record of a program executed
/// stands only behind that of the fork, and only where the child was asked
/// to replace its program and exited with status 0.
pub proof fn lemma_exec_follows_fork(
    run: ProcessRun,
    events: Seq<(ProcessEvent, Timestamp)>,
    waiting: ProcessRun,
    outcome: ExitOutcome,
    ended: Timestamp,
)
    requires
        awaits_child(run, events, waiting),
    ensures
        waiting.advanced(ProcessEvent::Waited(outcome), ended) matches ProcessStepModel::Done(Ok(records))
            ==> forall|i: int|
            0 <= i < records.len() && (#[trigger] records[i]).activity is Exec ==> {
                &&& i == 1
                &&& records[0].activity is Fork
                &&& run.with_exec
                &&& outcome is ExitedZero
            },
{
    lemma_end_of_child_ends_run(run, events, waiting, outcome, ended);
}

} // verus!
