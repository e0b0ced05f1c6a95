//! A poll-based file watcher core: snapshots of file modification times,
//! change detection between consecutive snapshots, and the state machines
//! that drive a supervised child process and the watch loop itself.
//!
//! The crate holds only the decision logic. Reading the filesystem, timers,
//! interrupt delivery and process spawning are left to the caller, which
//! hands in plain values (paths as bytes, timestamps as integers) and
//! carries out the actions this library tells it to perform.

pub mod command;
pub mod control;
pub mod detector;
pub mod snapshot;
pub mod supervisor;

pub use command::CommandSpec;
pub use command::WatchError;
pub use control::ControlLoop;
pub use control::Phase;
pub use snapshot::FileEntry;
pub use snapshot::Snapshot;
pub use snapshot::Timestamp;
pub use supervisor::Supervisor;
pub use supervisor::SupervisorAction;
