//! The records that the generators produce.

use crate::clock::Timestamp;
use std::path::PathBuf;
use vstd::prelude::*;

verus! {

/// The address and port of one end of a connection.
#[derive(Clone, Copy, Debug, PartialEq, Eq, Structural)]
#[allow(inconsistent_fields)]
pub enum SocketAddress {
    /// An IPv4 address, its four bytes read as one big-endian number.
    V4 { address: u32, port: u16 },
    /// An IPv6 address, its sixteen bytes read as one big-endian number.
    V6 { address: u128, port: u16, flowinfo: u32, scope_id: u32 },
}

impl SocketAddress {
    /// The address is the unspecified one, `0.0.0.0` or `::`.
    pub open spec fn unspecified(self) -> bool {
        match self {
            SocketAddress::V4 { address, .. } => address == 0,
            SocketAddress::V6 { address, .. } => address == 0,
        }
    }

    /// Whether the address is the unspecified one, `0.0.0.0` or `::`.
    pub fn is_unspecified(&self) -> (answer: bool)
        ensures
            answer == self.unspecified(),
    {
        match self {
            SocketAddress::V4 { address, .. } => *address == 0,
            SocketAddress::V6 { address, .. } => *address == 0,
        }
    }
}

/// What was done, with the data that belongs to that kind of action.
#[derive(Debug, PartialEq, Eq)]
pub enum ActivityLog {
    /// Data was sent over a connection from `source` to `destination`.
    Network { destination: SocketAddress, source: SocketAddress, protocol: &'static str, bytes_sent: usize },
    /// The process was duplicated; the record is the parent's.
    Fork { child_pid: u32 },
    /// The duplicate replaced its program; the record is the child's.
    Exec { parent_pid: u32 },
    FileCreated { path: PathBuf },
    FileModified { path: PathBuf },
    FileDeleted { path: PathBuf },
}

/// The content of an [`ActivityLog`], with text as sequences of characters.
pub ghost enum ActivityModel {
    Network { destination: SocketAddress, source: SocketAddress, protocol: Seq<char>, bytes_sent: usize },
    Fork { child_pid: u32 },
    Exec { parent_pid: u32 },
    FileCreated { path: PathBuf },
    FileModified { path: PathBuf },
    FileDeleted { path: PathBuf },
}

impl View for ActivityLog {
    type V = ActivityModel;

    open spec fn view(&self) -> ActivityModel {
        match *self {
            ActivityLog::Network { destination, source, protocol, bytes_sent } => ActivityModel::Network {
                destination,
                source,
                protocol: protocol@,
                bytes_sent,
            },
            ActivityLog::Fork { child_pid } => ActivityModel::Fork { child_pid },
            ActivityLog::Exec { parent_pid } => ActivityModel::Exec { parent_pid },
            ActivityLog::FileCreated { path } => ActivityModel::FileCreated { path },
            ActivityLog::FileModified { path } => ActivityModel::FileModified { path },
            ActivityLog::FileDeleted { path } => ActivityModel::FileDeleted { path },
        }
    }
}

/// One recorded action: what was done, when, and by which process.
///
/// `time` is the instant at which the action was observed, not the one at
/// which the record was put together. `pid`, `command_line` and
/// `process_name` describe the process that the action belongs to, which
/// for [`ActivityLog::Exec`] is the child.
#[derive(Debug, PartialEq, Eq)]
pub struct Log {
    pub activity: ActivityLog,
    pub time: Timestamp,
    pub username: String,
    pub pid: u32,
    pub command_line: String,
    pub process_name: String,
}

/// The content of a [`Log`], with text as sequences of characters.
pub ghost struct LogModel {
    pub activity: ActivityModel,
    pub time: Timestamp,
    pub username: Seq<char>,
    pub pid: u32,
    pub command_line: Seq<char>,
    pub process_name: Seq<char>,
}

impl View for Log {
    type V = LogModel;

    open spec fn view(&self) -> LogModel {
        LogModel {
            activity: self.activity@,
            time: self.time,
            username: self.username@,
            pid: self.pid,
            command_line: self.command_line@,
            process_name: self.process_name@,
        }
    }
}

impl DeepView for Log {
    type V = LogModel;

    open spec fn deep_view(&self) -> LogModel {
        self@
    }
}

/// The instants of `records`, in their order.
pub open spec fn times_of(records: Seq<LogModel>) -> Seq<Timestamp> {
    records.map_values(|record: LogModel| record.time)
}

} // verus!
