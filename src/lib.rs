//! Launching a child process on a pseudo-terminal and bridging its single
//! byte stream to the caller, with every decision verified: allocation and
//! close-on-exec hygiene, nonblocking mode, the steps a child runs before
//! exec, the end-of-stream convention of the master side, resumable writes,
//! and the control loop that drains output after the child exits.
//!
//! Policy on stderr: the child's three standard streams are duplicates of
//! the slave side, so stderr is merged into the terminal's one stream, as a
//! terminal-native program expects (`isatty` holds on all three). The control
//! loop also supports a separate stderr channel for drivers that give the
//! child one of its own.
pub mod bridge;
pub mod descriptor;
pub mod error;
pub mod fdflags;
pub mod launch;
pub mod pty;
pub mod reap;
pub mod size;

pub use descriptor::{raw_stderr, raw_stdin, raw_stdout, File, PtyFd};
pub use error::{BridgeError, LaunchError, OsError};
pub use fdflags::{get_nonblocking, set_nonblocking};
pub use launch::close_random_fds;
pub use pty::{openpty, StdioSet, UnixMasterPty, UnixSlavePty};
pub use size::PtySize;
