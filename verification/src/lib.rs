//! Generators of operating-system activity for exercising endpoint
//! monitoring agents, written without any I/O of their own.
//!
//! Every generator is a small machine. It names the next operation that the
//! caller has to carry out on the operating system, takes the outcome of
//! that operation as an event, together with the time at which it arrived,
//! and ends with the records of what was done, or with the failure that
//! stopped it.

pub mod clock;
pub mod file;
pub mod foreign;
pub mod identity;
pub mod log;
pub mod network;
pub mod playbook;
pub mod process;

pub use crate::clock::Timestamp;
pub use crate::file::file;
pub use crate::identity::{ExecNameError, IdentityContext};
pub use crate::log::{ActivityLog, Log, SocketAddress};
pub use crate::network::network;
pub use crate::playbook::{run, ActivitySpec, DispatchError};
pub use crate::process::process;
