//! The playbook: activities carried out one after the other, all or
//! nothing.
//!
//! A [`Run`] carries out the activities of a playbook in their order. It
//! begins the generator of each, hands every event to the generator that is
//! at work, and gathers the records. The first activity that fails ends the
//! run, and what had been gathered is dropped.

use crate::clock::{Timestamp};
use crate::file::{file, initial, FileAction, FileActionModel, FileEvent, FileRun, FileRunModel, FileStep, FileStepModel};
use crate::identity::{ExecNameError, IdentityContext};
use crate::log::{Log, LogModel};
use crate::network::{network, NetworkAction, NetworkActionModel, NetworkEvent, NetworkPhase, NetworkRun, NetworkStep, NetworkStepModel};
use crate::process::{process, ProcessAction, ProcessActionModel, ProcessEvent, ProcessPhase, ProcessRun, ProcessStep, ProcessStepModel};
use std::path::PathBuf;
use vstd::prelude::*;

verus! {

/// One activity of a playbook.
#[derive(Debug)]
pub enum ActivitySpec {
    /// A file with the extension `extension` is created in `directory`,
    /// written to if `modify` is set, and deleted.
    File { modify: bool, directory: PathBuf, extension: String },
    /// The process is duplicated, and the duplicate replaces its program if
    /// `with_exec` is set.
    Process { with_exec: bool },
    /// A probe is sent over a connection.
    Network,
}

/// Why an activity came to nothing.
#[derive(Debug)]
pub enum ActivityError {
    File(crate::file::Error),
    Process(crate::process::Error),
    Network(crate::network::Error),
}

/// Why a playbook came to nothing: its activity number `index`, counted
/// from 1, failed with `cause`, and those before it had gone well.
#[derive(Debug)]
pub struct DispatchError {
    pub index: usize,
    pub cause: ActivityError,
}

/// What the caller is asked to do next, for the generator at work.
#[derive(Debug, PartialEq, Eq)]
pub enum Action {
    File(FileAction),
    Process(ProcessAction),
    Network(NetworkAction),
}

/// The content of an [`Action`].
pub ghost enum ActionModel {
    File(FileActionModel),
    Process(ProcessActionModel),
    Network(NetworkActionModel),
}

impl View for Action {
    type V = ActionModel;

    open spec fn view(&self) -> ActionModel {
        match *self {
            Action::File(action) => ActionModel::File(action@),
            Action::Process(action) => ActionModel::Process(action@),
            Action::Network(action) => ActionModel::Network(action@),
        }
    }
}

/// How the action that was asked for ended.
#[derive(Debug)]
pub enum Event {
    File(FileEvent),
    Process(ProcessEvent),
    Network(NetworkEvent),
}

/// The generator at work.
#[derive(Debug)]
enum Generator {
    File(FileRun),
    Process(ProcessRun),
    Network(NetworkRun),
}

/// The content of the generator at work.
pub ghost enum GeneratorModel {
    File(FileRunModel),
    Process(ProcessRun),
    Network(NetworkRun),
}

impl GeneratorModel {
    /// The generator that carries out `spec` for `identity`, as it begins.
    pub open spec fn of(identity: IdentityContext, spec: ActivitySpec) -> GeneratorModel {
        match spec {
            ActivitySpec::File { modify, directory, extension } => GeneratorModel::File(
                initial(identity, directory, extension@, modify),
            ),
            ActivitySpec::Process { with_exec } => GeneratorModel::Process(
                ProcessRun { identity, with_exec, phase: ProcessPhase::Forking },
            ),
            ActivitySpec::Network => GeneratorModel::Network(
                NetworkRun { identity, phase: NetworkPhase::Connecting },
            ),
        }
    }

    /// The action that the generator waits for the outcome of.
    pub open spec fn pending(self) -> ActionModel {
        match self {
            GeneratorModel::File(run) => ActionModel::File(run.pending()),
            GeneratorModel::Process(run) => ActionModel::Process(run.pending()),
            GeneratorModel::Network(run) => ActionModel::Network(run.pending()),
        }
    }
}

impl View for Generator {
    type V = GeneratorModel;

    closed spec fn view(&self) -> GeneratorModel {
        match *self {
            Generator::File(run) => GeneratorModel::File(run@),
            Generator::Process(run) => GeneratorModel::Process(run),
            Generator::Network(run) => GeneratorModel::Network(run),
        }
    }
}

/// A playbook under way.
#[derive(Debug)]
pub struct Run {
    identity: IdentityContext,
    specs: Vec<ActivitySpec>,
    position: usize,
    logs: Vec<Log>,
    current: Generator,
}

/// The content of a [`Run`]: the activities `specs`, of which those before
/// `position` have left `records` and the one at `position` is carried out
/// by `current`.
pub ghost struct RunModel {
    pub identity: IdentityContext,
    pub specs: Seq<ActivitySpec>,
    pub position: usize,
    pub records: Seq<LogModel>,
    pub current: GeneratorModel,
}

impl View for Run {
    type V = RunModel;

    closed spec fn view(&self) -> RunModel {
        RunModel {
            identity: self.identity,
            specs: self.specs@,
            position: self.position,
            records: self.logs.deep_view(),
            current: self.current@,
        }
    }
}

/// What a playbook has come to after an event.
#[derive(Debug)]
pub enum Step {
    /// The playbook goes on, and the caller is to carry out the action.
    Next(Run, Action),
    /// The playbook is over: these are the records of all its activities,
    /// or this stopped it.
    Done(Result<Vec<Log>, DispatchError>),
}

/// The content of a [`Step`].
pub ghost enum StepModel {
    Next(RunModel, ActionModel),
    Done(Result<Seq<LogModel>, DispatchError>),
}

impl View for Step {
    type V = StepModel;

    open spec fn view(&self) -> StepModel {
        match *self {
            Step::Next(run, action) => StepModel::Next(run@, action@),
            Step::Done(Ok(logs)) => StepModel::Done(Ok(logs.deep_view())),
            Step::Done(Err(error)) => StepModel::Done(Err(error)),
        }
    }
}

impl Step {
    /// A run that goes on has an activity to carry out.
    pub open spec fn wf(self) -> bool {
        self matches Step::Next(run, _) ==> run@.wf()
    }
}

/// The failure of the activity `spec` for want of an identity.
pub open spec fn unresolved(spec: ActivitySpec, error: ExecNameError) -> ActivityError {
    match spec {
        ActivitySpec::File { .. } => ActivityError::File(crate::file::Error::ExecName(error)),
        ActivitySpec::Process { .. } => ActivityError::Process(crate::process::Error::ExecName(error)),
        ActivitySpec::Network => ActivityError::Network(crate::network::Error::ExecName(error)),
    }
}

/// What a playbook comes to when its activities before `position` have
/// left `records`: it is over where no activity is left, and goes on with
/// the generator of the one at `position` where one is.
pub open spec fn proceeded(
    identity: IdentityContext,
    specs: Seq<ActivitySpec>,
    position: usize,
    records: Seq<LogModel>,
) -> StepModel {
    if position >= specs.len() {
        StepModel::Done(Ok(records))
    } else {
        let current = GeneratorModel::of(identity, specs[position as int]);
        StepModel::Next(RunModel { identity, specs, position, records, current }, current.pending())
    }
}

/// What a playbook comes to when the activity at `position` ends with
/// `outcome`: its failure ends the playbook and is reported with its
/// number, counted from 1; its records are put behind `records`, and the
/// playbook proceeds with the next activity.
pub open spec fn concluded(
    identity: IdentityContext,
    specs: Seq<ActivitySpec>,
    position: usize,
    records: Seq<LogModel>,
    outcome: Result<Seq<LogModel>, ActivityError>,
) -> StepModel {
    match outcome {
        Err(cause) => StepModel::Done(Err(DispatchError { index: (position + 1) as usize, cause })),
        Ok(added) => proceeded(identity, specs, (position + 1) as usize, records + added),
    }
}

/// What a playbook begins as: without activities it is over at once and
/// has no records; without an identity its first activity fails; else it
/// proceeds with the first activity.
pub open spec fn begun(identity: Result<IdentityContext, ExecNameError>, specs: Seq<ActivitySpec>) -> StepModel {
    if specs.len() == 0 {
        StepModel::Done(Ok(Seq::empty()))
    } else {
        match identity {
            Ok(identity) => proceeded(identity, specs, 0, Seq::empty()),
            Err(error) => StepModel::Done(Err(DispatchError { index: 1, cause: unresolved(specs[0], error) })),
        }
    }
}

impl RunModel {
    /// The run has an activity to carry out.
    pub open spec fn wf(self) -> bool {
        self.position < self.specs.len() <= usize::MAX
    }

    /// What the run comes to when the activity that it carries out ends
    /// with `outcome`.
    pub open spec fn concluded(self, outcome: Result<Seq<LogModel>, ActivityError>) -> StepModel {
        concluded(self.identity, self.specs, self.position, self.records, outcome)
    }

    /// What the run comes to when `event` arrives at `now`.
    ///
    /// The event goes to the generator at work. While that goes on, so
    /// does the run; when it ends, the run is [`RunModel::concluded`] with
    /// what it ended with. An event for another kind of generator changes
    /// nothing, and the pending action is asked for again.
    pub open spec fn advanced(self, event: Event, now: Timestamp) -> StepModel {
        match (self.current, event) {
            (GeneratorModel::File(run), Event::File(event)) => match run.advanced(event, now) {
                FileStepModel::Next(run, action) => StepModel::Next(
                    RunModel { current: GeneratorModel::File(run), ..self },
                    ActionModel::File(action),
                ),
                FileStepModel::Done(Ok(records)) => self.concluded(Ok(records)),
                FileStepModel::Done(Err(error)) => self.concluded(Err(ActivityError::File(error))),
            },
            (GeneratorModel::Process(run), Event::Process(event)) => match run.advanced(event, now) {
                ProcessStepModel::Next(run, action) => StepModel::Next(
                    RunModel { current: GeneratorModel::Process(run), ..self },
                    ActionModel::Process(action),
                ),
                ProcessStepModel::Done(Ok(records)) => self.concluded(Ok(records)),
                ProcessStepModel::Done(Err(error)) => self.concluded(Err(ActivityError::Process(error))),
            },
            (GeneratorModel::Network(run), Event::Network(event)) => match run.advanced(event, now) {
                NetworkStepModel::Next(run, action) => StepModel::Next(
                    RunModel { current: GeneratorModel::Network(run), ..self },
                    ActionModel::Network(action),
                ),
                NetworkStepModel::Done(Ok(record)) => self.concluded(Ok(seq![record])),
                NetworkStepModel::Done(Err(error)) => self.concluded(Err(ActivityError::Network(error))),
            },
            _ => StepModel::Next(self, self.current.pending()),
        }
    }
}

impl Generator {
    /// The generator that carries out `spec` for `identity`, and its first
    /// action.
    fn begin(identity: &IdentityContext, spec: &ActivitySpec) -> (start: (Generator, Action))
        ensures
            start.0@ == GeneratorModel::of(*identity, *spec),
            start.1@ == start.0@.pending(),
    {
        match spec {
            ActivitySpec::File { modify, directory, extension } => {
                let (run, action) = file(identity, directory, extension.as_str(), *modify);
                (Generator::File(run), Action::File(action))
            },
            ActivitySpec::Process { with_exec } => {
                let (run, action) = process(identity, *with_exec);
                (Generator::Process(run), Action::Process(action))
            },
            ActivitySpec::Network => {
                let (run, action) = network(identity);
                (Generator::Network(run), Action::Network(action))
            },
        }
    }

    /// The action that the generator waits for the outcome of.
    fn pending_action(&self) -> (action: Action)
        ensures
            action@ == self@.pending(),
    {
        match self {
            Generator::File(run) => Action::File(run.pending_action()),
            Generator::Process(run) => Action::Process(run.pending_action()),
            Generator::Network(run) => Action::Network(run.pending_action()),
        }
    }
}

/// Goes on with the activity at `position`, if there is one.
fn proceed(identity: IdentityContext, specs: Vec<ActivitySpec>, position: usize, logs: Vec<Log>) -> (step: Step)
    ensures
        step@ == proceeded(identity, specs@, position, logs.deep_view()),
        step.wf(),
{
    if position >= specs.len() {
        Step::Done(Ok(logs))
    } else {
        let (current, action) = Generator::begin(&identity, &specs[position]);
        Step::Next(Run { identity, specs, position, logs, current }, action)
    }
}

/// Ends the activity at `position` with `outcome`.
fn conclude(
    identity: IdentityContext,
    specs: Vec<ActivitySpec>,
    position: usize,
    logs: Vec<Log>,
    outcome: Result<Vec<Log>, ActivityError>,
) -> (step: Step)
    requires
        position < specs.len(),
    ensures
        step@ == concluded(
            identity,
            specs@,
            position,
            logs.deep_view(),
            match outcome {
                Ok(added) => Ok(added.deep_view()),
                Err(cause) => Err(cause),
            },
        ),
        step.wf(),
{
    match outcome {
        Err(cause) => Step::Done(Err(DispatchError { index: position + 1, cause })),
        Ok(added) => {
            let mut logs = logs;
            let mut added = added;
            let ghost before = logs.deep_view();
            let ghost behind = added.deep_view();
            logs.append(&mut added);
            assert(logs.deep_view() =~= before + behind);
            proceed(identity, specs, position + 1, logs)
        },
    }
}

/// Begins to carry out the activities `specs`, in their order, for
/// `identity`, or without one where it could not be resolved.
///
/// Returns the playbook's first action, or its end where it has none.
pub fn run(identity: Result<IdentityContext, ExecNameError>, specs: Vec<ActivitySpec>) -> (step: Step)
    ensures
        step@ == begun(identity, specs@),
        step.wf(),
{
    let logs: Vec<Log> = Vec::new();
    assert(logs.deep_view() =~= Seq::empty());
    if specs.len() == 0 {
        Step::Done(Ok(logs))
    } else {
        match identity {
            Ok(identity) => proceed(identity, specs, 0, logs),
            Err(error) => {
                let cause = match &specs[0] {
                    ActivitySpec::File { .. } => ActivityError::File(crate::file::Error::ExecName(error)),
                    ActivitySpec::Process { .. } => ActivityError::Process(crate::process::Error::ExecName(error)),
                    ActivitySpec::Network => ActivityError::Network(crate::network::Error::ExecName(error)),
                };
                Step::Done(Err(DispatchError { index: 1, cause }))
            },
        }
    }
}

impl Run {
    /// Takes the outcome of the pending action, which arrived at `now`.
    pub fn advance(self, event: Event, now: Timestamp) -> (step: Step)
        requires
            self@.wf(),
        ensures
            step@ == self@.advanced(event, now),
            step.wf(),
    {
        let Run { identity, specs, position, logs, current } = self;
        match (current, event) {
            (Generator::File(run), Event::File(event)) => match run.advance(event, now) {
                FileStep::Next(run, action) => Step::Next(
                    Run { identity, specs, position, logs, current: Generator::File(run) },
                    Action::File(action),
                ),
                FileStep::Done(Ok(added)) => conclude(identity, specs, position, logs, Ok(added)),
                FileStep::Done(Err(error)) => conclude(
                    identity,
                    specs,
                    position,
                    logs,
                    Err(ActivityError::File(error)),
                ),
            },
            (Generator::Process(run), Event::Process(event)) => match run.advance(event, now) {
                ProcessStep::Next(run, action) => Step::Next(
                    Run { identity, specs, position, logs, current: Generator::Process(run) },
                    Action::Process(action),
                ),
                ProcessStep::Done(Ok(added)) => conclude(identity, specs, position, logs, Ok(added)),
                ProcessStep::Done(Err(error)) => conclude(
                    identity,
                    specs,
                    position,
                    logs,
                    Err(ActivityError::Process(error)),
                ),
            },
            (Generator::Network(run), Event::Network(event)) => match run.advance(event, now) {
                NetworkStep::Next(run, action) => Step::Next(
                    Run { identity, specs, position, logs, current: Generator::Network(run) },
                    Action::Network(action),
                ),
                NetworkStep::Done(Ok(log)) => {
                    let mut added = Vec::new();
                    added.push(log);
                    assert(added.deep_view() =~= seq![log@]);
                    conclude(identity, specs, position, logs, Ok(added))
                },
                NetworkStep::Done(Err(error)) => conclude(
                    identity,
                    specs,
                    position,
                    logs,
                    Err(ActivityError::Network(error)),
                ),
            },
            (current, _) => {
                let action = current.pending_action();
                Step::Next(Run { identity, specs, position, logs, current }, action)
            },
        }
    }
}

/// The records that `outcomes` hold, in the order of the outcomes.
pub open spec fn gathered(outcomes: Seq<Result<Seq<LogModel>, ActivityError>>) -> Seq<LogModel>
    decreases outcomes.len(),
{
    if outcomes.len() == 0 {
        Seq::empty()
    } else {
        let first = match outcomes[0] {
            Ok(records) => records,
            Err(_) => Seq::empty(),
        };
        first + gathered(outcomes.drop_first())
    }
}

/// What a playbook that stands at `step` comes to when its activities end
/// with `outcomes`, one after the other. Outcomes behind the end of the
/// playbook are not looked at.
pub open spec fn settled(step: StepModel, outcomes: Seq<Result<Seq<LogModel>, ActivityError>>) -> StepModel
    decreases outcomes.len(),
{
    if outcomes.len() == 0 {
        step
    } else {
        match step {
            StepModel::Next(run, _) => settled(run.concluded(outcomes[0]), outcomes.drop_first()),
            StepModel::Done(_) => step,
        }
    }
}

/// Whether all of `outcomes` but the last are records, and the last is a
/// failure.
pub open spec fn fails_at_last(outcomes: Seq<Result<Seq<LogModel>, ActivityError>>) -> bool {
    &&& outcomes.len() > 0
    &&& outcomes.last() is Err
    &&& forall|i: int| 0 <= i < outcomes.len() - 1 ==> outcomes[i] is Ok
}

/// Whether all of `outcomes` are records.
pub open spec fn all_succeed(outcomes: Seq<Result<Seq<LogModel>, ActivityError>>) -> bool {
    forall|i: int| 0 <= i < outcomes.len() ==> outcomes[i] is Ok
}

proof fn lemma_first_failure_from(
    identity: IdentityContext,
    specs: Seq<ActivitySpec>,
    position: usize,
    records: Seq<LogModel>,
    outcomes: Seq<Result<Seq<LogModel>, ActivityError>>,
)
    requires
        position + outcomes.len() <= specs.len() <= usize::MAX,
        fails_at_last(outcomes),
    ensures
        settled(proceeded(identity, specs, position, records), outcomes) == StepModel::Done(
            Err(DispatchError { index: (position + outcomes.len()) as usize, cause: outcomes.last()->Err_0 }),
        ),
    decreases outcomes.len(),
{
    let rest = outcomes.drop_first();
    let run = proceeded(identity, specs, position, records)->Next_0;
    if outcomes.len() > 1 {
        assert(outcomes[0] is Ok);
        assert(rest.last() == outcomes.last());
        assert forall|i: int| 0 <= i < rest.len() - 1 implies rest[i] is Ok by {
            assert(rest[i] == outcomes[i + 1]);
        }
        lemma_first_failure_from(
            identity,
            specs,
            (position + 1) as usize,
            records + outcomes[0]->Ok_0,
            rest,
        );
    } else {
        assert(outcomes[0] == outcomes.last());
        assert(settled(run.concluded(outcomes[0]), rest) == run.concluded(outcomes[0]));
    }
}

proof fn lemma_all_succeed_from(
    identity: IdentityContext,
    specs: Seq<ActivitySpec>,
    position: usize,
    records: Seq<LogModel>,
    outcomes: Seq<Result<Seq<LogModel>, ActivityError>>,
)
    requires
        position + outcomes.len() == specs.len() <= usize::MAX,
        all_succeed(outcomes),
    ensures
        settled(proceeded(identity, specs, position, records), outcomes) == StepModel::Done(
            Ok(records + gathered(outcomes)),
        ),
    decreases outcomes.len(),
{
    if outcomes.len() == 0 {
        assert(records + gathered(outcomes) =~= records);
    } else {
        let rest = outcomes.drop_first();
        let added = outcomes[0]->Ok_0;
        assert forall|i: int| 0 <= i < rest.len() implies rest[i] is Ok by {
            assert(rest[i] == outcomes[i + 1]);
        }
        lemma_all_succeed_from(identity, specs, (position + 1) as usize, records + added, rest);
        assert((records + added) + gathered(rest) =~= records + gathered(outcomes));
    }
}

/// Where the activities of a playbook end one after the other, all well
/// but the last of them, the playbook ends with a [`DispatchError`] that
/// holds the number of that activity, counted from 1, and what it failed
/// with. The records of the activities before it are not returned.
pub proof fn lemma_first_failure_ends_playbook(
    identity: IdentityContext,
    specs: Seq<ActivitySpec>,
    outcomes: Seq<Result<Seq<LogModel>, ActivityError>>,
)
    requires
        outcomes.len() <= specs.len() <= usize::MAX,
        fails_at_last(outcomes),
    ensures
        settled(begun(Ok(identity), specs), outcomes) == StepModel::Done(
            Err(DispatchError { index: outcomes.len() as usize, cause: outcomes.last()->Err_0 }),
        ),
{
    lemma_first_failure_from(identity, specs, 0, Seq::empty(), outcomes);
}

/// Where all activities of a playbook end well, the playbook ends with
/// their records, those of each activity before those of the next.
pub proof fn lemma_playbook_gathers_in_order(
    identity: IdentityContext,
    specs: Seq<ActivitySpec>,
    outcomes: Seq<Result<Seq<LogModel>, ActivityError>>,
)
    requires
        outcomes.len() == specs.len() <= usize::MAX,
        all_succeed(outcomes),
    ensures
        settled(begun(Ok(identity), specs), outcomes) == StepModel::Done(Ok(gathered(outcomes))),
{
    lemma_all_succeed_from(identity, specs, 0, Seq::empty(), outcomes);
    assert(Seq::<LogModel>::empty() + gathered(outcomes) =~= gathered(outcomes));
    if specs.len() == 0 {
        assert(gathered(outcomes) =~= Seq::empty());
    }
}

} // verus!
