use vstd::prelude::*;

use crate::descriptor::PtyFd;
use crate::error::OsError;
use crate::fdflags::{cloexec, set_nonblocking};
use crate::size::PtySize;

verus! {

/// Relies on nix::pty::openpty: asks the OS for a master/slave pair of one
/// pseudo-terminal with the given window size, without terminal settings;
/// gives the raw (master, slave) descriptors, or the errno. Both are open
/// at once when the call returns, so their numbers differ.
#[verifier::external_body]
fn open_pair(size: PtySize) -> (r: Result<(i32, i32), i32>)
    ensures
        r is Ok ==> r->Ok_0.0 >= 0 && r->Ok_0.1 >= 0 && r->Ok_0.0 != r->Ok_0.1,
{
    let ws = nix::pty::Winsize {
        ws_row: size.rows,
        ws_col: size.cols,
        ws_xpixel: size.pixel_width,
        ws_ypixel: size.pixel_height,
    };
    match nix::pty::openpty(&ws, None::<&nix::sys::termios::Termios>) {
        Ok(p) => Ok((p.master, p.slave)),
        Err(e) => Err(e as i32),
    }
}

/// The master end of a pseudo-terminal, kept by the parent. Its descriptor
/// is closed when the value is dropped.
pub struct UnixMasterPty {
    pub fd: PtyFd,
    /// The geometry the terminal was allocated with.
    pub size: PtySize,
}

/// The slave end of a pseudo-terminal, handed to the child. Every copy of
/// it must be closed before the master sees end of stream.
pub struct UnixSlavePty {
    pub fd: PtyFd,
    /// The geometry the terminal was allocated with.
    pub size: PtySize,
}

impl UnixMasterPty {
    /// An independent reader of the terminal's output.
    pub fn try_clone_reader(&self) -> (r: Result<PtyFd, OsError>)
        ensures
            r is Ok ==> r->Ok_0@ >= 0 && r->Ok_0@ != self.fd@,
    {
        self.fd.try_clone()
    }
}

/// The child's three standard streams: each an independent duplicate of the
/// slave side, so that closing one leaves the others open.
pub struct StdioSet {
    pub stdin: PtyFd,
    pub stdout: PtyFd,
    pub stderr: PtyFd,
}

impl UnixSlavePty {
    /// An independent duplicate of the slave side, for one of the child's
    /// standard streams.
    pub fn try_clone(&self) -> (r: Result<PtyFd, OsError>)
        ensures
            r is Ok ==> r->Ok_0@ >= 0 && r->Ok_0@ != self.fd@,
    {
        self.fd.try_clone()
    }

    /// Three independent duplicates for the child's standard streams. On
    /// failure the duplicates already made are closed.
    pub fn stdio_duplicates(&self) -> (r: Result<StdioSet, OsError>)
        ensures
            r is Ok ==> r->Ok_0.stdin@ != self.fd@ && r->Ok_0.stdout@ != self.fd@
                && r->Ok_0.stderr@ != self.fd@,
    {
        let stdin = match self.fd.try_clone() {
            Ok(d) => d,
            Err(e) => {
                return Err(e);
            },
        };
        let stdout = match self.fd.try_clone() {
            Ok(d) => d,
            Err(e) => {
                return Err(e);
            },
        };
        let stderr = match self.fd.try_clone() {
            Ok(d) => d,
            Err(e) => {
                return Err(e);
            },
        };
        Ok(StdioSet { stdin, stdout, stderr })
    }
}

/// Allocates a pseudo-terminal pair of the given geometry. Both descriptors
/// get close-on-exec before anything else is done with them; if that or
/// putting them in blocking mode fails, both are closed and the error is
/// returned, never a half-configured pair.
pub fn openpty(size: PtySize) -> (r: Result<(UnixMasterPty, UnixSlavePty), OsError>)
    ensures
        r is Ok ==> r->Ok_0.0.size == size && r->Ok_0.1.size == size,
        r is Ok ==> r->Ok_0.0.fd@ != r->Ok_0.1.fd@,
{
    let (m, s) = match open_pair(size) {
        Ok(pair) => pair,
        Err(code) => {
            return Err(OsError { code });
        },
    };
    let master = PtyFd::adopt_raw(m);
    let slave = PtyFd::adopt_raw(s);
    match cloexec(m) {
        Ok(()) => {},
        Err(e) => {
            return Err(e);
        },
    }
    match cloexec(s) {
        Ok(()) => {},
        Err(e) => {
            return Err(e);
        },
    }
    match set_nonblocking(m, false) {
        Ok(()) => {},
        Err(e) => {
            return Err(e);
        },
    }
    match set_nonblocking(s, false) {
        Ok(()) => {},
        Err(e) => {
            return Err(e);
        },
    }
    Ok((UnixMasterPty { fd: master, size }, UnixSlavePty { fd: slave, size }))
}

} // verus!
