//! Launch orchestration and IPC for a local key-signing daemon.
//!
//! A desktop application hands its signing requests to a privileged daemon
//! that holds the keys. This library decides how that daemon is provisioned,
//! started, reached and stopped:
//!
//! - [`provision`] plans the installation of the daemon executable;
//! - [`trust`] reads the trust session that allows a start without prompt;
//! - [`process`] describes the commands that start and stop the daemon;
//! - [`monitor`] waits, within a bound, for the daemon's endpoint;
//! - [`ipc`] exchanges one request and one response with the daemon;
//! - [`launch`] composes these into the launch state machine;
//! - [`paths`] and [`text`] hold the locations and the text primitives that
//!   the others share.
//!
//! The library performs no input or output. Its functions take what was
//! observed as plain values and say what is to be done next.

pub mod ipc;
pub mod launch;
pub mod monitor;
pub mod paths;
pub mod process;
pub mod provision;
pub mod text;
pub mod trust;
