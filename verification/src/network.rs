//! The network activity: a connection is opened to a well-known host and a
//! few bytes are sent over it.
//!
//! The caller connects, writes and reads the addresses back;
//! [`NetworkRun`] says which of these comes next and keeps the time at
//! which the bytes were sent.

use crate::clock::{Timestamp};
use crate::identity::{ExecNameError, IdentityContext};
use crate::log::{ActivityLog, ActivityModel, Log, LogModel, SocketAddress};
use vstd::prelude::*;
use vstd::string::StringExecFns;

verus! {

/// Why a network activity came to nothing.
#[derive(Debug)]
pub enum Error {
    /// The connection could not be opened.
    Connect(std::io::Error),
    /// The time limit for writing could not be set.
    SetTimeout(std::io::Error),
    /// The bytes could not be written, or not within the time limit.
    Write(std::io::Error),
    /// The identity of the process could not be resolved.
    ExecName(ExecNameError),
    /// The address of the far end could not be read back from the
    /// connection.
    RemoteAddr(std::io::Error),
    /// The address of the near end could not be read back from the
    /// connection.
    LocalAddr(std::io::Error),
}

/// The host and port that the connection is opened to.
pub open spec fn endpoint() -> Seq<char> {
    "google.com:80"@
}

/// The bytes that are sent.
pub open spec fn probe() -> Seq<u8> {
    seq![1u8, 1u8, 1u8, 4u8]
}

/// The seconds after which a write that has not finished fails.
pub const WRITE_TIMEOUT_SECS: u64 = 1;

/// The name by which a record calls the protocol of the connection.
pub open spec fn protocol() -> Seq<char> {
    "TCP"@
}

/// The record of the probe that `identity`'s process sent at `written` over
/// a connection from `source` to `destination`.
pub open spec fn probe_record(
    identity: IdentityContext,
    written: Timestamp,
    destination: SocketAddress,
    source: SocketAddress,
) -> LogModel {
    LogModel {
        activity: ActivityModel::Network {
            destination,
            source,
            protocol: protocol(),
            bytes_sent: probe().len() as usize,
        },
        time: written,
        username: identity.username@,
        pid: identity.pid,
        command_line: identity.command_line@,
        process_name: identity.process_name@,
    }
}

/// What the caller is asked to do next.
#[derive(Debug, PartialEq, Eq)]
pub enum NetworkAction {
    /// Open a TCP connection to `endpoint`, a host name and a port with a
    /// colon between them.
    Connect { endpoint: String },
    /// Let writes to the connection fail that have not finished after
    /// `seconds`.
    SetWriteTimeout { seconds: u64 },
    /// Write `payload` to the connection, once.
    Write { payload: Vec<u8> },
    /// Read from the connection the address of its far end.
    ReadPeerAddress,
    /// Read from the connection the address of its near end.
    ReadLocalAddress,
}

/// The content of a [`NetworkAction`].
pub ghost enum NetworkActionModel {
    Connect { endpoint: Seq<char> },
    SetWriteTimeout { seconds: u64 },
    Write { payload: Seq<u8> },
    ReadPeerAddress,
    ReadLocalAddress,
}

impl View for NetworkAction {
    type V = NetworkActionModel;

    open spec fn view(&self) -> NetworkActionModel {
        match *self {
            NetworkAction::Connect { endpoint } => NetworkActionModel::Connect { endpoint: endpoint@ },
            NetworkAction::SetWriteTimeout { seconds } => NetworkActionModel::SetWriteTimeout { seconds },
            NetworkAction::Write { payload } => NetworkActionModel::Write { payload: payload@ },
            NetworkAction::ReadPeerAddress => NetworkActionModel::ReadPeerAddress,
            NetworkAction::ReadLocalAddress => NetworkActionModel::ReadLocalAddress,
        }
    }
}

/// How the action that was asked for ended.
#[derive(Debug)]
pub enum NetworkEvent {
    Connected,
    ConnectFailed(std::io::Error),
    TimeoutSet,
    TimeoutFailed(std::io::Error),
    /// The write returned without a failure.
    Written,
    WriteFailed(std::io::Error),
    PeerAddress(SocketAddress),
    PeerAddressFailed(std::io::Error),
    LocalAddress(SocketAddress),
    LocalAddressFailed(std::io::Error),
}

/// How far a network activity has come.
#[derive(Clone, Copy, Debug, PartialEq, Eq, Structural)]
pub enum NetworkPhase {
    /// The connection is being opened.
    Connecting,
    /// The time limit for writing is being set.
    SettingTimeout,
    /// The probe is being written.
    Writing,
    /// The probe was written at `written`, and the address of the far end
    /// is being read.
    ReadingPeer { written: Timestamp },
    /// The far end is `destination`, and the address of the near end is
    /// being read.
    ReadingLocal { written: Timestamp, destination: SocketAddress },
}

/// A network activity under way.
#[derive(Debug)]
pub struct NetworkRun {
    pub identity: IdentityContext,
    pub phase: NetworkPhase,
}

/// What a network activity has come to after an event.
#[derive(Debug)]
pub enum NetworkStep {
    /// The activity goes on, and the caller is to carry out the action.
    Next(NetworkRun, NetworkAction),
    /// The activity is over: this is its record, or this stopped it.
    Done(Result<Log, Error>),
}

/// The content of a [`NetworkStep`].
pub ghost enum NetworkStepModel {
    Next(NetworkRun, NetworkActionModel),
    Done(Result<LogModel, Error>),
}

impl View for NetworkStep {
    type V = NetworkStepModel;

    open spec fn view(&self) -> NetworkStepModel {
        match *self {
            NetworkStep::Next(run, action) => NetworkStepModel::Next(run, action@),
            NetworkStep::Done(Ok(log)) => NetworkStepModel::Done(Ok(log@)),
            NetworkStep::Done(Err(error)) => NetworkStepModel::Done(Err(error)),
        }
    }
}

impl NetworkRun {
    /// The action that the run waits for the outcome of.
    pub open spec fn pending(self) -> NetworkActionModel {
        match self.phase {
            NetworkPhase::Connecting => NetworkActionModel::Connect { endpoint: endpoint() },
            NetworkPhase::SettingTimeout => NetworkActionModel::SetWriteTimeout { seconds: WRITE_TIMEOUT_SECS },
            NetworkPhase::Writing => NetworkActionModel::Write { payload: probe() },
            NetworkPhase::ReadingPeer { .. } => NetworkActionModel::ReadPeerAddress,
            NetworkPhase::ReadingLocal { .. } => NetworkActionModel::ReadLocalAddress,
        }
    }

    /// What the run comes to when `event` arrives at `now`.
    ///
    /// The connection is opened, the time limit set, the probe written and
    /// the two addresses read back, in this order, and the first failure
    /// ends the run. The time that is kept is the one at which the write
    /// was seen to return. An event that does not answer the pending
    /// action changes nothing, and the action is asked for again.
    pub open spec fn advanced(self, event: NetworkEvent, now: Timestamp) -> NetworkStepModel {
        match (self.phase, event) {
            (NetworkPhase::Connecting, NetworkEvent::Connected) => NetworkStepModel::Next(
                NetworkRun { phase: NetworkPhase::SettingTimeout, ..self },
                NetworkActionModel::SetWriteTimeout { seconds: WRITE_TIMEOUT_SECS },
            ),
            (NetworkPhase::Connecting, NetworkEvent::ConnectFailed(error)) => NetworkStepModel::Done(
                Err(Error::Connect(error)),
            ),
            (NetworkPhase::SettingTimeout, NetworkEvent::TimeoutSet) => NetworkStepModel::Next(
                NetworkRun { phase: NetworkPhase::Writing, ..self },
                NetworkActionModel::Write { payload: probe() },
            ),
            (NetworkPhase::SettingTimeout, NetworkEvent::TimeoutFailed(error)) => NetworkStepModel::Done(
                Err(Error::SetTimeout(error)),
            ),
            (NetworkPhase::Writing, NetworkEvent::Written) => NetworkStepModel::Next(
                NetworkRun { phase: NetworkPhase::ReadingPeer { written: now }, ..self },
                NetworkActionModel::ReadPeerAddress,
            ),
            (NetworkPhase::Writing, NetworkEvent::WriteFailed(error)) => NetworkStepModel::Done(
                Err(Error::Write(error)),
            ),
            (NetworkPhase::ReadingPeer { written }, NetworkEvent::PeerAddress(destination)) => NetworkStepModel::Next(
                NetworkRun { phase: NetworkPhase::ReadingLocal { written, destination }, ..self },
                NetworkActionModel::ReadLocalAddress,
            ),
            (NetworkPhase::ReadingPeer { .. }, NetworkEvent::PeerAddressFailed(error)) => NetworkStepModel::Done(
                Err(Error::RemoteAddr(error)),
            ),
            (NetworkPhase::ReadingLocal { written, destination }, NetworkEvent::LocalAddress(source)) =>
                NetworkStepModel::Done(Ok(probe_record(self.identity, written, destination, source))),
            (NetworkPhase::ReadingLocal { .. }, NetworkEvent::LocalAddressFailed(error)) => NetworkStepModel::Done(
                Err(Error::LocalAddr(error)),
            ),
            _ => NetworkStepModel::Next(self, self.pending()),
        }
    }

    /// The action that the run waits for the outcome of.
    pub fn pending_action(&self) -> (action: NetworkAction)
        ensures
            action@ == self.pending(),
    {
        match self.phase {
            NetworkPhase::Connecting => NetworkAction::Connect { endpoint: String::from_str("google.com:80") },
            NetworkPhase::SettingTimeout => NetworkAction::SetWriteTimeout { seconds: WRITE_TIMEOUT_SECS },
            NetworkPhase::Writing => write_probe(),
            NetworkPhase::ReadingPeer { .. } => NetworkAction::ReadPeerAddress,
            NetworkPhase::ReadingLocal { .. } => NetworkAction::ReadLocalAddress,
        }
    }

    /// Takes the outcome of the pending action, which arrived at `now`.
    pub fn advance(self, event: NetworkEvent, now: Timestamp) -> (step: NetworkStep)
        ensures
            step@ == self.advanced(event, now),
    {
        match (self.phase, event) {
            (NetworkPhase::Connecting, NetworkEvent::Connected) => NetworkStep::Next(
                NetworkRun { phase: NetworkPhase::SettingTimeout, ..self },
                NetworkAction::SetWriteTimeout { seconds: WRITE_TIMEOUT_SECS },
            ),
            (NetworkPhase::Connecting, NetworkEvent::ConnectFailed(error)) => NetworkStep::Done(
                Err(Error::Connect(error)),
            ),
            (NetworkPhase::SettingTimeout, NetworkEvent::TimeoutSet) => NetworkStep::Next(
                NetworkRun { phase: NetworkPhase::Writing, ..self },
                write_probe(),
            ),
            (NetworkPhase::SettingTimeout, NetworkEvent::TimeoutFailed(error)) => NetworkStep::Done(
                Err(Error::SetTimeout(error)),
            ),
            (NetworkPhase::Writing, NetworkEvent::Written) => NetworkStep::Next(
                NetworkRun { phase: NetworkPhase::ReadingPeer { written: now }, ..self },
                NetworkAction::ReadPeerAddress,
            ),
            (NetworkPhase::Writing, NetworkEvent::WriteFailed(error)) => NetworkStep::Done(Err(Error::Write(error))),
            (NetworkPhase::ReadingPeer { written }, NetworkEvent::PeerAddress(destination)) => NetworkStep::Next(
                NetworkRun { phase: NetworkPhase::ReadingLocal { written, destination }, ..self },
                NetworkAction::ReadLocalAddress,
            ),
            (NetworkPhase::ReadingPeer { .. }, NetworkEvent::PeerAddressFailed(error)) => NetworkStep::Done(
                Err(Error::RemoteAddr(error)),
            ),
            (NetworkPhase::ReadingLocal { written, destination }, NetworkEvent::LocalAddress(source)) => {
                assert(probe().len() == 4);
                NetworkStep::Done(
                    Ok(
                        Log {
                            time: written,
                            command_line: self.identity.command_line,
                            username: self.identity.username,
                            pid: self.identity.pid,
                            process_name: self.identity.process_name,
                            activity: ActivityLog::Network {
                                destination,
                                source,
                                protocol: "TCP",
                                bytes_sent: 4,
                            },
                        },
                    ),
                )
            },
            (NetworkPhase::ReadingLocal { .. }, NetworkEvent::LocalAddressFailed(error)) => NetworkStep::Done(
                Err(Error::LocalAddr(error)),
            ),
            (phase, _) => {
                let run = NetworkRun { phase, ..self };
                let action = run.pending_action();
                NetworkStep::Next(run, action)
            },
        }
    }
}

/// The action that asks for the probe to be written.
fn write_probe() -> (action: NetworkAction)
    ensures
        action@ == (NetworkActionModel::Write { payload: probe() }),
{
    let mut payload: Vec<u8> = Vec::new();
    payload.push(1u8);
    payload.push(1u8);
    payload.push(1u8);
    payload.push(4u8);
    assert(payload@ =~= probe());
    NetworkAction::Write { payload }
}

/// Begins a network activity for `identity`.
///
/// Returns the run and its first action, the opening of the connection.
pub fn network(identity: &IdentityContext) -> (start: (NetworkRun, NetworkAction))
    ensures
        start.0 == (NetworkRun { identity: *identity, phase: NetworkPhase::Connecting }),
        start.1@ == start.0.pending(),
{
    let run = NetworkRun { identity: identity.clone(), phase: NetworkPhase::Connecting };
    let action = run.pending_action();
    (run, action)
}

/// What `run` comes to when `events` arrive one after the other, each at
/// the time it is paired with. Events that arrive after the end are not
/// looked at.
pub open spec fn replayed(run: NetworkRun, events: Seq<(NetworkEvent, Timestamp)>) -> NetworkStepModel
    decreases events.len(),
{
    if events.len() == 0 {
        NetworkStepModel::Next(run, run.pending())
    } else {
        match run.advanced(events[0].0, events[0].1) {
            NetworkStepModel::Next(next, _) => replayed(next, events.drop_first()),
            NetworkStepModel::Done(outcome) => NetworkStepModel::Done(outcome),
        }
    }
}

/// Whether `event` is among `events`.
pub open spec fn reported(events: Seq<(NetworkEvent, Timestamp)>, event: NetworkEvent) -> bool {
    exists|i: int| 0 <= i < events.len() && (#[trigger] events[i]).0 == event
}

/// Whether every address that `events` report is a specified one.
pub open spec fn reports_specified_addresses(events: Seq<(NetworkEvent, Timestamp)>) -> bool {
    forall|i: int|
        0 <= i < events.len() ==> match (#[trigger] events[i]).0 {
            NetworkEvent::PeerAddress(address) => !address.unspecified(),
            NetworkEvent::LocalAddress(address) => !address.unspecified(),
            _ => true,
        }
}

/// `record` is that of the probe which `run`'s identity sent at `written`
/// from `source` to `destination`, and `events` reported both addresses,
/// unless `run` has kept the far end already.
spec fn ends_with(
    run: NetworkRun,
    events: Seq<(NetworkEvent, Timestamp)>,
    record: LogModel,
    written: Timestamp,
    destination: SocketAddress,
    source: SocketAddress,
) -> bool {
    &&& record == probe_record(run.identity, written, destination, source)
    &&& reported(events, NetworkEvent::LocalAddress(source))
    &&& reported(events, NetworkEvent::PeerAddress(destination)) || run.phase == (NetworkPhase::ReadingLocal {
        written,
        destination,
    })
}

/// From wherever a run stands, the record that it ends with is that of the
/// probe, sent by the run's identity over a connection whose ends are the
/// addresses that were reported, or the far end that the run has kept.
proof fn lemma_run_ends_in_probe(run: NetworkRun, events: Seq<(NetworkEvent, Timestamp)>)
    ensures
        replayed(run, events) matches NetworkStepModel::Done(Ok(record)) ==> exists|
            written: Timestamp,
            destination: SocketAddress,
            source: SocketAddress,
        | #[trigger] ends_with(run, events, record, written, destination, source),
    decreases events.len(),
{
    if events.len() > 0 {
        let rest = events.drop_first();
        match run.advanced(events[0].0, events[0].1) {
            NetworkStepModel::Next(next, _) => {
                lemma_run_ends_in_probe(next, rest);
                if let NetworkStepModel::Done(Ok(record)) = replayed(next, rest) {
                    let (written, destination, source) = choose|
                        written: Timestamp,
                        destination: SocketAddress,
                        source: SocketAddress,
                    | #[trigger] ends_with(next, rest, record, written, destination, source);
                    lemma_reported_in_rest(events, NetworkEvent::LocalAddress(source));
                    if reported(rest, NetworkEvent::PeerAddress(destination)) {
                        lemma_reported_in_rest(events, NetworkEvent::PeerAddress(destination));
                    } else if run.phase != (NetworkPhase::ReadingLocal { written, destination }) {
                        assert(events[0].0 == NetworkEvent::PeerAddress(destination));
                    }
                    assert(ends_with(run, events, record, written, destination, source));
                }
            },
            NetworkStepModel::Done(Ok(record)) => {
                let written = run.phase->ReadingLocal_written;
                let destination = run.phase->ReadingLocal_destination;
                let source = events[0].0->LocalAddress_0;
                assert(events[0].0 == NetworkEvent::LocalAddress(source));
                assert(ends_with(run, events, record, written, destination, source));
            },
            NetworkStepModel::Done(Err(_)) => {},
        }
    }
}

/// An event that is among all but the first of `events` is among `events`.
proof fn lemma_reported_in_rest(events: Seq<(NetworkEvent, Timestamp)>, event: NetworkEvent)
    requires
        events.len() > 0,
        reported(events.drop_first(), event),
    ensures
        reported(events, event),
{
    let rest = events.drop_first();
    let i = choose|i: int| 0 <= i < rest.len() && (#[trigger] rest[i]).0 == event;
    assert(events[i + 1].0 == event);
}

/// Every run of a network activity that ends well ends with one record,
/// which says that 4 bytes were sent over TCP by the identity of the run,
/// from and to the addresses that were read back from the connection.
/// Neither address is the unspecified one unless the connection reported
/// such an address.
pub proof fn lemma_network_runs(run: NetworkRun, events: Seq<(NetworkEvent, Timestamp)>)
    requires
        run.phase is Connecting,
    ensures
        replayed(run, events) matches NetworkStepModel::Done(Ok(record)) ==> {
            &&& record.activity matches ActivityModel::Network { destination, source, protocol, bytes_sent }
            &&& bytes_sent == 4
            &&& protocol == "TCP"@
            &&& reported(events, NetworkEvent::PeerAddress(destination))
            &&& reported(events, NetworkEvent::LocalAddress(source))
            &&& reports_specified_addresses(events) ==> !destination.unspecified() && !source.unspecified()
            &&& record.username == run.identity.username@
            &&& record.pid == run.identity.pid
            &&& record.command_line == run.identity.command_line@
            &&& record.process_name == run.identity.process_name@
        },
{
    lemma_run_ends_in_probe(run, events);
    if let NetworkStepModel::Done(Ok(record)) = replayed(run, events) {
        let (written, destination, source) = choose|
            written: Timestamp,
            destination: SocketAddress,
            source: SocketAddress,
        | #[trigger] ends_with(run, events, record, written, destination, source);
        assert(probe().len() == 4);
        if reports_specified_addresses(events) {
            let i = choose|i: int| 0 <= i < events.len() && (#[trigger] events[i]).0 == NetworkEvent::PeerAddress(destination);
            let j = choose|j: int| 0 <= j < events.len() && (#[trigger] events[j]).0 == NetworkEvent::LocalAddress(source);
            assert(!destination.unspecified());
            assert(!source.unspecified());
        }
    }
}

} // verus!
