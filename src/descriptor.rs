use vstd::prelude::*;

use crate::bridge::{classified, classify_read, outcome_of, read_outcome, PendingWrite};
use crate::error::{BridgeError, OsError};
use crate::fdflags::{get_nonblocking, set_nonblocking};
use crate::reap::{Channel, Event};
use filedescriptor::FileDescriptor;

verus! {

#[verifier::external_type_specification]
#[verifier::external_body]
pub struct ExFileDescriptor(FileDescriptor);

/// Relies on filedescriptor::FileDescriptor::new: takes ownership of a raw
/// descriptor, to be closed once when the value is dropped.
#[verifier::external_body]
fn adopt(raw: i32) -> (r: FileDescriptor) {
    FileDescriptor::new(raw)
}

/// Relies on filedescriptor::AsRawFileDescriptor::as_raw_file_descriptor:
/// the raw number of an owned descriptor.
#[verifier::external_body]
fn raw_number(fd: &FileDescriptor) -> (r: i32) {
    filedescriptor::AsRawFileDescriptor::as_raw_file_descriptor(fd)
}

/// Relies on nix::fcntl::fcntl with F_DUPFD_CLOEXEC and argument 0: a new
/// descriptor for the same open file, with close-on-exec set, or the errno
/// of the call. The new one is the lowest free number from 0 up; the call
/// succeeds only while `fd` is open, so it is not `fd`.
#[verifier::external_body]
fn dup_cloexec(fd: i32) -> (r: Result<i32, i32>)
    ensures
        r is Ok ==> r->Ok_0 >= 0 && r->Ok_0 != fd,
{
    match nix::fcntl::fcntl(fd, nix::fcntl::FcntlArg::F_DUPFD_CLOEXEC(0)) {
        Ok(v) => Ok(v),
        Err(e) => Err(e as i32),
    }
}

/// Relies on std::io::Read::read for FileDescriptor: one read(2) into the
/// buffer, whose length stays; a count of at most that length, or the OS
/// error code.
#[verifier::external_body]
fn read_raw(fd: &mut FileDescriptor, buf: &mut Vec<u8>) -> (r: Result<usize, Option<i32>>)
    ensures
        final(buf)@.len() == old(buf)@.len(),
        r is Ok ==> r->Ok_0 <= old(buf)@.len(),
{
    match std::io::Read::read(fd, buf.as_mut_slice()) {
        Ok(n) => Ok(n),
        Err(e) => Err(e.raw_os_error()),
    }
}

/// Relies on std::io::Write::write for FileDescriptor: one write(2) of the
/// data; a count of at most its length, or the OS error code.
#[verifier::external_body]
fn write_raw(fd: &mut FileDescriptor, data: &Vec<u8>) -> (r: Result<usize, Option<i32>>)
    ensures
        r is Ok ==> r->Ok_0 <= data@.len(),
{
    match std::io::Write::write(fd, data.as_slice()) {
        Ok(n) => Ok(n),
        Err(e) => Err(e.raw_os_error()),
    }
}

/// Relies on libc::EIO: the error code that reading the master side of a
/// pseudo-terminal reports once its slave side is closed.
#[verifier::external_body]
fn libc_eio() -> (r: i32) {
    libc::EIO
}

/// Relies on libc::EAGAIN: the error code of a nonblocking read that finds
/// nothing available.
#[verifier::external_body]
fn libc_eagain() -> (r: i32) {
    libc::EAGAIN
}

/// Whether a raw read result fits a buffer of `len` bytes.
pub open spec fn fits(raw: Result<usize, Option<i32>>, len: nat) -> bool {
    raw is Ok ==> raw->Ok_0 <= len
}

/// An owned descriptor: closed exactly once, when the value is dropped. It
/// cannot be copied; `try_clone` makes an independent duplicate. The view is
/// its raw number. It also records the platform's error codes for a closed
/// slave side (EIO) and for a read that would block (EAGAIN).
pub struct PtyFd {
    fd: FileDescriptor,
    raw: i32,
    eio: i32,
    would_block: i32,
}

impl View for PtyFd {
    type V = i32;

    closed spec fn view(&self) -> i32 {
        self.raw
    }
}

/// Whether two values stand for the same descriptor with the same codes.
pub open spec fn same_fd(a: PtyFd, b: PtyFd) -> bool {
    a@ == b@ && a.eio() == b.eio() && a.would_block() == b.would_block()
}

impl PtyFd {
    /// The error code of a read on a master whose slave side is closed.
    pub closed spec fn eio(&self) -> i32 {
        self.eio
    }

    /// The error code of a nonblocking read that finds nothing available.
    pub closed spec fn would_block(&self) -> i32 {
        self.would_block
    }

    pub fn eio_code(&self) -> (r: i32)
        ensures
            r == self.eio(),
    {
        self.eio
    }

    pub fn would_block_code(&self) -> (r: i32)
        ensures
            r == self.would_block(),
    {
        self.would_block
    }

    /// Takes ownership of a raw descriptor and puts it in blocking mode,
    /// which programs on a terminal expect. On failure the descriptor is
    /// closed.
    pub fn adopt_blocking(raw: i32) -> (r: Result<PtyFd, OsError>)
        ensures
            r is Ok ==> r->Ok_0@ == raw,
    {
        let fd = adopt(raw);
        match set_nonblocking(raw, false) {
            Ok(()) => Ok(PtyFd { fd, raw, eio: libc_eio(), would_block: libc_eagain() }),
            Err(e) => Err(e),
        }
    }

    /// Wraps an owned descriptor, putting it in blocking mode.
    pub fn from_fd(fd: FileDescriptor) -> (r: Result<PtyFd, OsError>) {
        let raw = raw_number(&fd);
        match set_nonblocking(raw, false) {
            Ok(()) => Ok(PtyFd { fd, raw, eio: libc_eio(), would_block: libc_eagain() }),
            Err(e) => Err(e),
        }
    }

    /// Takes ownership of a raw descriptor as it is.
    pub(crate) fn adopt_raw(raw: i32) -> (r: PtyFd)
        ensures
            r@ == raw,
    {
        PtyFd { fd: adopt(raw), raw, eio: libc_eio(), would_block: libc_eagain() }
    }

    pub fn as_raw_fd(&self) -> (r: i32)
        ensures
            r == self@,
    {
        self.raw
    }

    /// The owned descriptor itself, for handing to a process builder.
    pub fn descriptor(&self) -> &FileDescriptor {
        &self.fd
    }

    /// Gives up the owned descriptor, which then closes on its own drop.
    pub fn into_descriptor(self) -> FileDescriptor {
        self.fd
    }

    /// An independent duplicate, with close-on-exec set: closing either
    /// leaves the other open.
    pub fn try_clone(&self) -> (r: Result<PtyFd, OsError>)
        ensures
            r is Ok ==> r->Ok_0@ >= 0 && r->Ok_0@ != self@,
    {
        match dup_cloexec(self.raw) {
            Ok(raw) => Ok(PtyFd::adopt_raw(raw)),
            Err(code) => Err(OsError { code }),
        }
    }

    /// Reads into the buffer. The pseudo-terminal's EIO on a closed slave
    /// side reads as end of stream (zero bytes), not as an error.
    pub fn read(&mut self, buf: &mut Vec<u8>) -> (r: Result<usize, BridgeError>)
        ensures
            same_fd(*final(self), *old(self)),
            final(buf)@.len() == old(buf)@.len(),
            r is Ok ==> r->Ok_0 <= old(buf)@.len(),
            exists|raw: Result<usize, Option<i32>>|
                fits(raw, old(buf)@.len()) && r == #[trigger] outcome_of(raw, old(self).eio()),
            r is Err ==> r->Err_0.code != Some(old(self).eio()),
    {
        let raw = read_raw(&mut self.fd, buf);
        let r = read_outcome(raw, self.eio);
        assert(fits(raw, old(buf)@.len()) && r == outcome_of(raw, old(self).eio()));
        r
    }

    /// Reads into the buffer and reports the outcome as an event of the
    /// channel: bytes read, end of stream, nothing available yet, or failure.
    pub fn read_event(&mut self, ch: Channel, buf: &mut Vec<u8>) -> (e: Event)
        ensures
            same_fd(*final(self), *old(self)),
            final(buf)@.len() == old(buf)@.len(),
            exists|raw: Result<usize, Option<i32>>|
                fits(raw, old(buf)@.len()) && e == classified(
                    ch,
                    #[trigger] outcome_of(raw, old(self).eio()),
                    old(self).would_block(),
                ),
            e is Data ==> e->Data_0 == ch && e->Data_1 <= old(buf)@.len(),
            e is EndOfStream ==> e->EndOfStream_0 == ch,
            e is NoData ==> e->NoData_0 == ch,
            e is ReadFailed ==> e->ReadFailed_0 == ch,
            !(e is ChildExited || e is CancelRequested || e is SignalFailed),
    {
        let r = self.read(buf);
        let e = classify_read(ch, r, self.would_block);
        let ghost raw = choose|raw: Result<usize, Option<i32>>|
            fits(raw, old(buf)@.len()) && r == #[trigger] outcome_of(raw, old(self).eio());
        assert(fits(raw, old(buf)@.len()) && e == classified(
            ch,
            outcome_of(raw, old(self).eio()),
            old(self).would_block(),
        ));
        e
    }

    /// Writes as much of the data as the descriptor accepts in one call.
    pub fn write(&mut self, data: &Vec<u8>) -> (r: Result<usize, BridgeError>)
        ensures
            same_fd(*final(self), *old(self)),
            r is Ok ==> r->Ok_0 <= data@.len(),
    {
        match write_raw(&mut self.fd, data) {
            Ok(n) => Ok(n),
            Err(code) => Err(BridgeError { code }),
        }
    }

    /// Makes one write attempt of the pending bytes and records how many
    /// were accepted, so that the next attempt resumes after them in order.
    pub fn write_pending(&mut self, p: &mut PendingWrite) -> (r: Result<usize, BridgeError>)
        requires
            old(p).wf(),
        ensures
            same_fd(*final(self), *old(self)),
            final(p).wf(),
            r is Ok ==> r->Ok_0 <= old(p).remaining().len(),
            final(p)@.0 == old(p)@.0,
            match r {
                Ok(n) => final(p).written() == old(p).written() + old(p).remaining().take(n as int)
                    && final(p).remaining() == old(p).remaining().skip(n as int),
                Err(_) => final(p)@ == old(p)@,
            },
    {
        let chunk = p.chunk();
        match self.write(&chunk) {
            Ok(n) => {
                p.advance(n);
                Ok(n)
            },
            Err(e) => Err(e),
        }
    }
}

/// Duplicates one of the process's standard descriptors, close-on-exec.
fn dup_standard(fd: i32) -> (r: Result<PtyFd, OsError>)
    ensures
        r is Ok ==> r->Ok_0@ >= 0 && r->Ok_0@ != fd,
{
    match dup_cloexec(fd) {
        Ok(raw) => Ok(PtyFd::adopt_raw(raw)),
        Err(code) => Err(OsError { code }),
    }
}

/// An unbuffered duplicate of standard input.
pub fn raw_stdin() -> (r: Result<PtyFd, OsError>)
    ensures
        r is Ok ==> r->Ok_0@ >= 0 && r->Ok_0@ != 0,
{
    dup_standard(0)
}

/// An unbuffered duplicate of standard output.
pub fn raw_stdout() -> (r: Result<PtyFd, OsError>)
    ensures
        r is Ok ==> r->Ok_0@ >= 0 && r->Ok_0@ != 1,
{
    dup_standard(1)
}

/// An unbuffered duplicate of standard error.
pub fn raw_stderr() -> (r: Result<PtyFd, OsError>)
    ensures
        r is Ok ==> r->Ok_0@ >= 0 && r->Ok_0@ != 2,
{
    dup_standard(2)
}

/// A descriptor prepared for event-driven use: in nonblocking mode, so that
/// a read or write never stalls the loop that polls it. Regular files accept
/// the mode and are simply always ready. The view is the raw number.
pub struct File {
    file: PtyFd,
}

impl View for File {
    type V = i32;

    closed spec fn view(&self) -> i32 {
        self.file@
    }
}

impl File {
    /// The error code of a read on a master whose slave side is closed.
    pub closed spec fn eio(&self) -> i32 {
        self.file.eio()
    }

    /// The error code of a nonblocking read that finds nothing available.
    pub closed spec fn would_block(&self) -> i32 {
        self.file.would_block()
    }

    /// The wrapped descriptor, as a spec value.
    pub closed spec fn inner(&self) -> PtyFd {
        self.file
    }

    /// Wraps the descriptor, enabling nonblocking mode unless it is on.
    pub fn new_nb(file: PtyFd) -> (r: Result<File, OsError>)
        ensures
            r is Ok ==> same_fd(r->Ok_0.inner(), file),
    {
        let raw = file.as_raw_fd();
        match get_nonblocking(raw) {
            Ok(true) => {},
            Ok(false) => match set_nonblocking(raw, true) {
                Ok(()) => {},
                Err(e) => {
                    return Err(e);
                },
            },
            Err(e) => {
                return Err(e);
            },
        }
        File::raw_new(file)
    }

    /// Wraps a descriptor already in nonblocking mode, as it is.
    pub fn raw_new(file: PtyFd) -> (r: Result<File, OsError>)
        ensures
            r is Ok,
            same_fd(r->Ok_0.inner(), file),
    {
        Ok(File { file })
    }

    pub fn as_raw_fd(&self) -> (r: i32)
        ensures
            r == self.inner()@,
    {
        self.file.as_raw_fd()
    }

    /// Reads as `PtyFd::read` does: EIO is end of stream, every other
    /// outcome passes unchanged.
    pub fn read(&mut self, buf: &mut Vec<u8>) -> (r: Result<usize, BridgeError>)
        ensures
            same_fd(final(self).inner(), old(self).inner()),
            final(buf)@.len() == old(buf)@.len(),
            r is Ok ==> r->Ok_0 <= old(buf)@.len(),
            exists|raw: Result<usize, Option<i32>>|
                fits(raw, old(buf)@.len()) && r == #[trigger] outcome_of(raw, old(self).eio()),
            r is Err ==> r->Err_0.code != Some(old(self).eio()),
    {
        let r = self.file.read(buf);
        let ghost raw = choose|raw: Result<usize, Option<i32>>|
            fits(raw, old(buf)@.len()) && r == #[trigger] outcome_of(raw, old(self).file.eio());
        assert(fits(raw, old(buf)@.len()) && r == outcome_of(raw, old(self).eio()));
        r
    }

    /// Reads as `PtyFd::read_event` does, reporting the outcome as an event.
    pub fn read_event(&mut self, ch: Channel, buf: &mut Vec<u8>) -> (e: Event)
        ensures
            same_fd(final(self).inner(), old(self).inner()),
            final(buf)@.len() == old(buf)@.len(),
            exists|raw: Result<usize, Option<i32>>|
                fits(raw, old(buf)@.len()) && e == classified(
                    ch,
                    #[trigger] outcome_of(raw, old(self).eio()),
                    old(self).would_block(),
                ),
            e is Data ==> e->Data_0 == ch && e->Data_1 <= old(buf)@.len(),
            e is EndOfStream ==> e->EndOfStream_0 == ch,
            e is NoData ==> e->NoData_0 == ch,
            e is ReadFailed ==> e->ReadFailed_0 == ch,
            !(e is ChildExited || e is CancelRequested || e is SignalFailed),
    {
        let e = self.file.read_event(ch, buf);
        let ghost raw = choose|raw: Result<usize, Option<i32>>|
            fits(raw, old(buf)@.len()) && e == classified(
                ch,
                #[trigger] outcome_of(raw, old(self).file.eio()),
                old(self).file.would_block(),
            );
        assert(fits(raw, old(buf)@.len()) && e == classified(
            ch,
            outcome_of(raw, old(self).eio()),
            old(self).would_block(),
        ));
        e
    }

    pub fn write(&mut self, data: &Vec<u8>) -> (r: Result<usize, BridgeError>)
        ensures
            same_fd(final(self).inner(), old(self).inner()),
            r is Ok ==> r->Ok_0 <= data@.len(),
    {
        self.file.write(data)
    }

    /// Makes one write attempt of the pending bytes, as
    /// `PtyFd::write_pending` does.
    pub fn write_pending(&mut self, p: &mut PendingWrite) -> (r: Result<usize, BridgeError>)
        requires
            old(p).wf(),
        ensures
            same_fd(final(self).inner(), old(self).inner()),
            final(p).wf(),
            r is Ok ==> r->Ok_0 <= old(p).remaining().len(),
            final(p)@.0 == old(p)@.0,
            match r {
                Ok(n) => final(p).written() == old(p).written() + old(p).remaining().take(n as int)
                    && final(p).remaining() == old(p).remaining().skip(n as int),
                Err(_) => final(p)@ == old(p)@,
            },
    {
        self.file.write_pending(p)
    }

    /// Gives back the wrapped descriptor.
    pub fn into_inner(self) -> (r: PtyFd)
        ensures
            same_fd(r, self.inner()),
    {
        self.file
    }
}

} // verus!
