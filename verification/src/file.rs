//! The file activity: a file with a fresh name is created, written to where
//! that is asked for, and deleted again.
//!
//! The caller creates the file, writes to it and releases it; [`FileRun`]
//! says which of these comes next and keeps the time of each.

use crate::clock::{in_order, lemma_rest_in_order, non_decreasing, Timestamp};
use crate::identity::{ExecNameError, IdentityContext};
use crate::log::{times_of, ActivityLog, ActivityModel, Log, LogModel};
use std::path::PathBuf;
use vstd::prelude::*;
use vstd::string::StringExecFns;

verus! {

/// Why a file activity came to nothing.
#[derive(Debug)]
pub enum Error {
    /// The file could not be created.
    Create(std::io::Error),
    /// The identity of the process could not be resolved.
    ExecName(ExecNameError),
    /// The file could not be written to, or what was written not flushed.
    Write(std::io::Error),
}

/// What is done to the file.
#[derive(Clone, Copy, Debug, PartialEq, Eq, Structural)]
pub enum Activity {
    Create,
    Modify,
    Delete,
}

/// All of a file record but its time and the kind of action.
#[derive(Debug)]
pub struct FileLogBuilder {
    pub username: String,
    pub pid: u32,
    pub command_line: String,
    pub process_name: String,
    pub path: PathBuf,
}

impl Clone for FileLogBuilder {
    fn clone(&self) -> (copy: Self)
        ensures
            copy == *self,
    {
        FileLogBuilder {
            username: self.username.clone(),
            pid: self.pid,
            command_line: self.command_line.clone(),
            process_name: self.process_name.clone(),
            path: self.path.clone(),
        }
    }
}

impl FileLogBuilder {
    /// The builder of the records that `identity` leaves on the file at
    /// `path`.
    pub open spec fn of(identity: IdentityContext, path: PathBuf) -> FileLogBuilder {
        FileLogBuilder {
            username: identity.username,
            pid: identity.pid,
            command_line: identity.command_line,
            process_name: identity.process_name,
            path,
        }
    }

    /// The record of `activity` on the builder's file at `time`.
    pub open spec fn record(self, time: Timestamp, activity: Activity) -> LogModel {
        LogModel {
            activity: match activity {
                Activity::Create => ActivityModel::FileCreated { path: self.path },
                Activity::Modify => ActivityModel::FileModified { path: self.path },
                Activity::Delete => ActivityModel::FileDeleted { path: self.path },
            },
            time,
            username: self.username@,
            pid: self.pid,
            command_line: self.command_line@,
            process_name: self.process_name@,
        }
    }

    /// The record of `activity` on the builder's file at `time`.
    pub fn build(self, time: Timestamp, activity: Activity) -> (log: Log)
        ensures
            log@ == self.record(time, activity),
    {
        Log {
            time,
            activity: match activity {
                Activity::Create => ActivityLog::FileCreated { path: self.path },
                Activity::Modify => ActivityLog::FileModified { path: self.path },
                Activity::Delete => ActivityLog::FileDeleted { path: self.path },
            },
            username: self.username,
            pid: self.pid,
            command_line: self.command_line,
            process_name: self.process_name,
        }
    }
}

/// The bytes with which a file is modified: the text `tag`.
pub open spec fn marker() -> Seq<u8> {
    seq![0x74u8, 0x61u8, 0x67u8]
}

/// The records of a file that was created at `created`, modified at
/// `modified` if at all, and deleted at `deleted`.
pub open spec fn lifecycle(
    builder: FileLogBuilder,
    created: Timestamp,
    modified: Option<Timestamp>,
    deleted: Timestamp,
) -> Seq<LogModel> {
    match modified {
        Some(modified) => seq![
            builder.record(created, Activity::Create),
            builder.record(modified, Activity::Modify),
            builder.record(deleted, Activity::Delete),
        ],
        None => seq![builder.record(created, Activity::Create), builder.record(deleted, Activity::Delete)],
    }
}

/// What the caller is asked to do next.
#[derive(Debug, PartialEq, Eq)]
pub enum FileAction {
    /// Create a file in `directory`, under a name that no file there has
    /// and that ends in `suffix`, in one step that fails where the name is
    /// taken; keep it open.
    Create { directory: PathBuf, suffix: String },
    /// Write `payload` to the file and flush it.
    Write { payload: Vec<u8> },
    /// Close the file and delete it.
    Release,
}

/// The content of a [`FileAction`].
pub ghost enum FileActionModel {
    Create { directory: PathBuf, suffix: Seq<char> },
    Write { payload: Seq<u8> },
    Release,
}

impl View for FileAction {
    type V = FileActionModel;

    open spec fn view(&self) -> FileActionModel {
        match *self {
            FileAction::Create { directory, suffix } => FileActionModel::Create { directory, suffix: suffix@ },
            FileAction::Write { payload } => FileActionModel::Write { payload: payload@ },
            FileAction::Release => FileActionModel::Release,
        }
    }
}

/// How the action that was asked for ended.
#[derive(Debug)]
pub enum FileEvent {
    /// The file was created at `path`.
    Created { path: PathBuf },
    CreateFailed(std::io::Error),
    /// The payload was written and flushed.
    Written,
    /// Writing or flushing failed.
    WriteFailed(std::io::Error),
    /// The file was closed and deleted.
    Released,
}

/// How far a file activity has come.
#[derive(Debug)]
pub enum FilePhase {
    /// The file is being created.
    Creating,
    /// The file was created at `created` and is being written to.
    Writing { builder: FileLogBuilder, created: Timestamp },
    /// The file is being released, all else having gone well.
    Releasing { builder: FileLogBuilder, created: Timestamp, modified: Option<Timestamp> },
    /// The file is being released after writing to it failed with `error`.
    Failing { error: std::io::Error },
}

/// A file activity under way.
#[derive(Debug)]
pub struct FileRun {
    pub identity: IdentityContext,
    pub directory: PathBuf,
    pub suffix: String,
    pub modify: bool,
    pub phase: FilePhase,
}

/// The content of a [`FileRun`].
pub ghost struct FileRunModel {
    pub identity: IdentityContext,
    pub directory: PathBuf,
    pub suffix: Seq<char>,
    pub modify: bool,
    pub phase: FilePhase,
}

impl View for FileRun {
    type V = FileRunModel;

    open spec fn view(&self) -> FileRunModel {
        FileRunModel {
            identity: self.identity,
            directory: self.directory,
            suffix: self.suffix@,
            modify: self.modify,
            phase: self.phase,
        }
    }
}

/// What a file activity has come to after an event.
#[derive(Debug)]
pub enum FileStep {
    /// The activity goes on, and the caller is to carry out the action.
    Next(FileRun, FileAction),
    /// The activity is over: these are its records, or this stopped it.
    Done(Result<Vec<Log>, Error>),
}

/// The content of a [`FileStep`].
pub ghost enum FileStepModel {
    Next(FileRunModel, FileActionModel),
    Done(Result<Seq<LogModel>, Error>),
}

impl View for FileStep {
    type V = FileStepModel;

    open spec fn view(&self) -> FileStepModel {
        match *self {
            FileStep::Next(run, action) => FileStepModel::Next(run@, action@),
            FileStep::Done(Ok(logs)) => FileStepModel::Done(Ok(logs.deep_view())),
            FileStep::Done(Err(error)) => FileStepModel::Done(Err(error)),
        }
    }
}

impl FileRunModel {
    /// The action that the run waits for the outcome of.
    pub open spec fn pending(self) -> FileActionModel {
        match self.phase {
            FilePhase::Creating => FileActionModel::Create { directory: self.directory, suffix: self.suffix },
            FilePhase::Writing { .. } => FileActionModel::Write { payload: marker() },
            FilePhase::Releasing { .. } => FileActionModel::Release,
            FilePhase::Failing { .. } => FileActionModel::Release,
        }
    }

    /// What the run comes to when `event` arrives at `now`.
    ///
    /// A created file is written to where that was asked for and released
    /// otherwise; a written file is released; a file that could not be
    /// written to is released before the failure ends the run; the release
    /// ends the run. An event that does not answer the pending action
    /// changes nothing, and the action is asked for again.
    pub open spec fn advanced(self, event: FileEvent, now: Timestamp) -> FileStepModel {
        match (self.phase, event) {
            (FilePhase::Creating, FileEvent::Created { path }) => {
                let builder = FileLogBuilder::of(self.identity, path);
                if self.modify {
                    FileStepModel::Next(
                        FileRunModel { phase: FilePhase::Writing { builder, created: now }, ..self },
                        FileActionModel::Write { payload: marker() },
                    )
                } else {
                    FileStepModel::Next(
                        FileRunModel { phase: FilePhase::Releasing { builder, created: now, modified: None }, ..self },
                        FileActionModel::Release,
                    )
                }
            },
            (FilePhase::Creating, FileEvent::CreateFailed(error)) => FileStepModel::Done(Err(Error::Create(error))),
            (FilePhase::Writing { builder, created }, FileEvent::Written) => FileStepModel::Next(
                FileRunModel { phase: FilePhase::Releasing { builder, created, modified: Some(now) }, ..self },
                FileActionModel::Release,
            ),
            (FilePhase::Writing { .. }, FileEvent::WriteFailed(error)) => FileStepModel::Next(
                FileRunModel { phase: FilePhase::Failing { error }, ..self },
                FileActionModel::Release,
            ),
            (FilePhase::Releasing { builder, created, modified }, FileEvent::Released) => FileStepModel::Done(
                Ok(lifecycle(builder, created, modified, now)),
            ),
            (FilePhase::Failing { error }, FileEvent::Released) => FileStepModel::Done(Err(Error::Write(error))),
            _ => FileStepModel::Next(self, self.pending()),
        }
    }
}

impl FileRun {
    /// The action that the run waits for the outcome of.
    pub fn pending_action(&self) -> (action: FileAction)
        ensures
            action@ == self@.pending(),
    {
        match &self.phase {
            FilePhase::Creating => FileAction::Create {
                directory: self.directory.clone(),
                suffix: self.suffix.clone(),
            },
            FilePhase::Writing { .. } => write_marker(),
            FilePhase::Releasing { .. } => FileAction::Release,
            FilePhase::Failing { .. } => FileAction::Release,
        }
    }

    /// Takes the outcome of the pending action, which arrived at `now`.
    pub fn advance(self, event: FileEvent, now: Timestamp) -> (step: FileStep)
        ensures
            step@ == self@.advanced(event, now),
    {
        match (self.phase, event) {
            (FilePhase::Creating, FileEvent::Created { path }) => {
                let builder = FileLogBuilder {
                    username: self.identity.username.clone(),
                    pid: self.identity.pid,
                    command_line: self.identity.command_line.clone(),
                    process_name: self.identity.process_name.clone(),
                    path,
                };
                if self.modify {
                    FileStep::Next(
                        FileRun { phase: FilePhase::Writing { builder, created: now }, ..self },
                        write_marker(),
                    )
                } else {
                    FileStep::Next(
                        FileRun { phase: FilePhase::Releasing { builder, created: now, modified: None }, ..self },
                        FileAction::Release,
                    )
                }
            },
            (FilePhase::Creating, FileEvent::CreateFailed(error)) => FileStep::Done(Err(Error::Create(error))),
            (FilePhase::Writing { builder, created }, FileEvent::Written) => FileStep::Next(
                FileRun { phase: FilePhase::Releasing { builder, created, modified: Some(now) }, ..self },
                FileAction::Release,
            ),
            (FilePhase::Writing { .. }, FileEvent::WriteFailed(error)) => FileStep::Next(
                FileRun { phase: FilePhase::Failing { error }, ..self },
                FileAction::Release,
            ),
            (FilePhase::Releasing { builder, created, modified }, FileEvent::Released) => {
                let mut logs = Vec::new();
                logs.push(builder.clone().build(created, Activity::Create));
                if let Some(modified) = modified {
                    logs.push(builder.clone().build(modified, Activity::Modify));
                }
                logs.push(builder.build(now, Activity::Delete));
                assert(logs.deep_view() =~= lifecycle(builder, created, modified, now));
                FileStep::Done(Ok(logs))
            },
            (FilePhase::Failing { error }, FileEvent::Released) => FileStep::Done(Err(Error::Write(error))),
            (phase, _) => {
                let run = FileRun { phase, ..self };
                let action = run.pending_action();
                FileStep::Next(run, action)
            },
        }
    }
}

/// The action that asks for the marker to be written.
fn write_marker() -> (action: FileAction)
    ensures
        action@ == (FileActionModel::Write { payload: marker() }),
{
    let mut payload: Vec<u8> = Vec::new();
    payload.push(0x74u8);
    payload.push(0x61u8);
    payload.push(0x67u8);
    assert(payload@ =~= marker());
    FileAction::Write { payload }
}

/// The run that [`file`] begins.
pub open spec fn initial(identity: IdentityContext, path: PathBuf, file_type: Seq<char>, modify: bool) -> FileRunModel {
    FileRunModel { identity, directory: path, suffix: seq!['.'] + file_type, modify, phase: FilePhase::Creating }
}

/// Begins a file activity for `identity`: a file whose name ends in a dot
/// and `file_type` is to be created in the directory `path`, written to if
/// `modify` is set, and deleted.
///
/// Returns the run and its first action, the creation of the file.
pub fn file(identity: &IdentityContext, path: &PathBuf, file_type: &str, modify: bool) -> (start: (
    FileRun,
    FileAction,
))
    ensures
        start.0@ == initial(*identity, *path, file_type@, modify),
        start.1@ == start.0@.pending(),
{
    let mut suffix = String::from_str(".");
    proof {
        reveal_strlit(".");
    }
    assert("."@ == seq!['.']);
    suffix.append(file_type);
    let run = FileRun {
        identity: identity.clone(),
        directory: path.clone(),
        suffix,
        modify,
        phase: FilePhase::Creating,
    };
    let action = run.pending_action();
    (run, action)
}

/// The path of the file that `record` is about, if it is about one.
pub open spec fn path_of(record: LogModel) -> Option<PathBuf> {
    match record.activity {
        ActivityModel::FileCreated { path } => Some(path),
        ActivityModel::FileModified { path } => Some(path),
        ActivityModel::FileDeleted { path } => Some(path),
        _ => None,
    }
}

/// `records` tell the life of one file as `identity` lived it: its creation
/// first, its deletion last, between them its modification exactly when
/// `modify` is set, and the same path in all of them.
pub open spec fn is_file_lifecycle(records: Seq<LogModel>, identity: IdentityContext, modify: bool) -> bool {
    &&& records.len() == if modify { 3int } else { 2int }
    &&& records.first().activity is FileCreated
    &&& modify ==> records[1].activity is FileModified
    &&& records.last().activity is FileDeleted
    &&& forall|i: int|
        0 <= i < records.len() ==> {
            &&& path_of(#[trigger] records[i]) == path_of(records[0])
            &&& records[i].username == identity.username@
            &&& records[i].pid == identity.pid
            &&& records[i].command_line == identity.command_line@
            &&& records[i].process_name == identity.process_name@
        }
}

/// What `run` comes to when `events` arrive one after the other, each at
/// the time it is paired with. Events that arrive after the end are not
/// looked at.
pub open spec fn replayed(run: FileRunModel, events: Seq<(FileEvent, Timestamp)>) -> FileStepModel
    decreases events.len(),
{
    if events.len() == 0 {
        FileStepModel::Next(run, run.pending())
    } else {
        match run.advanced(events[0].0, events[0].1) {
            FileStepModel::Next(next, _) => replayed(next, events.drop_first()),
            FileStepModel::Done(outcome) => FileStepModel::Done(outcome),
        }
    }
}

impl FileRunModel {
    /// What holds of a run however far it has come: the records in the
    /// making carry the run's identity, and a file is written to exactly
    /// when the run was asked to.
    pub open spec fn coherent(self) -> bool {
        match self.phase {
            FilePhase::Creating => true,
            FilePhase::Writing { builder, .. } => self.modify && builder == FileLogBuilder::of(
                self.identity,
                builder.path,
            ),
            FilePhase::Releasing { builder, modified, .. } => (modified is Some <==> self.modify) && builder
                == FileLogBuilder::of(self.identity, builder.path),
            FilePhase::Failing { .. } => true,
        }
    }

    /// The times that the run has kept are in order, and none is later than
    /// `limit`.
    pub open spec fn settled_by(self, limit: Timestamp) -> bool {
        match self.phase {
            FilePhase::Writing { created, .. } => created.le(limit),
            FilePhase::Releasing { created, modified: Some(modified), .. } => created.le(modified) && modified.le(
                limit,
            ),
            FilePhase::Releasing { created, modified: None, .. } => created.le(limit),
            _ => true,
        }
    }
}

/// From wherever a coherent run stands, the records that it ends with tell
/// the life of one file, and their times are in order where the events
/// arrived in order and after what the run had kept.
pub proof fn lemma_run_ends_in_lifecycle(run: FileRunModel, events: Seq<(FileEvent, Timestamp)>)
    requires
        run.coherent(),
    ensures
        replayed(run, events) matches FileStepModel::Done(Ok(records)) ==> {
            &&& is_file_lifecycle(records, run.identity, run.modify)
            &&& in_order(events) && run.settled_by(events[0].1) ==> non_decreasing(times_of(records))
        },
    decreases events.len(),
{
    if events.len() > 0 {
        let (event, now) = events[0];
        let rest = events.drop_first();
        match run.advanced(event, now) {
            FileStepModel::Next(next, _) => {
                lemma_run_ends_in_lifecycle(next, rest);
                if in_order(events) && run.settled_by(now) {
                    lemma_rest_in_order(events);
                }
            },
            FileStepModel::Done(Ok(records)) => {
                assert(is_file_lifecycle(records, run.identity, run.modify));
                if run.settled_by(now) {
                    assert(non_decreasing(times_of(records)));
                }
            },
            FileStepModel::Done(Err(_)) => {},
        }
    }
}

/// Every run of a file activity that ends well ends with the records of one
/// file's life: its creation, its modification where that was asked for,
/// and its deletion, all with the same path and the identity of the run.
/// Where no event arrived before the one before it, the times of the
/// records do not decrease.
pub proof fn lemma_file_runs(run: FileRunModel, events: Seq<(FileEvent, Timestamp)>)
    requires
        run.phase is Creating,
    ensures
        replayed(run, events) matches FileStepModel::Done(Ok(records)) ==> {
            &&& is_file_lifecycle(records, run.identity, run.modify)
            &&& in_order(events) ==> non_decreasing(times_of(records))
        },
{
    lemma_run_ends_in_lifecycle(run, events);
}

/// A file that could not be written to is released before the run ends, and
/// the run then ends with the failure to write and without records.
pub proof fn lemma_failed_write_releases(
    run: FileRunModel,
    error: std::io::Error,
    failed: Timestamp,
    released: Timestamp,
)
    requires
        run.phase is Writing,
    ensures
        run.advanced(FileEvent::WriteFailed(error), failed) matches FileStepModel::Next(next, action) && action
            == FileActionModel::Release && next.advanced(FileEvent::Released, released) == FileStepModel::Done(
            Err(Error::Write(error)),
        ),
{
}

} // verus!
