use vstd::prelude::*;

verus! {

/// A failed system call, with the OS error code it reported.
#[derive(Debug, Clone, Copy, PartialEq, Eq, Structural)]
pub struct OsError {
    pub code: i32,
}

/// Why launching a child on a pseudo-terminal failed.
#[derive(Debug, Clone, Copy, PartialEq, Eq, Structural)]
pub enum LaunchError {
    /// The child could not become a session leader.
    SessionSetup(OsError),
    /// The pseudo-terminal could not become the child's controlling terminal.
    ControllingTerminal(OsError),
    /// The process could not be spawned (not found, not permitted, or a
    /// step before exec failed).
    Spawn(OsError),
}

/// A read or write failure of a bridged stream that is not the
/// pseudo-terminal's end-of-stream convention.
#[derive(Debug, Clone, Copy, PartialEq, Eq, Structural)]
pub struct BridgeError {
    /// The OS error code, when the OS gave one.
    pub code: Option<i32>,
}

} // verus!
