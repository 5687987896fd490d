use vstd::prelude::*;

use crate::error::OsError;

verus! {

/// A flag word with one flag bit switched on or off, every other bit kept.
pub open spec fn with_flag(flags: i32, bit: i32, on: bool) -> i32 {
    if on {
        flags | bit
    } else {
        flags & !bit
    }
}

/// Whether a flag bit is set in a flag word.
pub open spec fn has_flag(flags: i32, bit: i32) -> bool {
    flags & bit != 0
}

/// Switches one flag bit of a flag word on or off.
pub fn set_flag(flags: i32, bit: i32, on: bool) -> (r: i32)
    ensures
        r == with_flag(flags, bit, on),
{
    if on {
        flags | bit
    } else {
        flags & !bit
    }
}

/// Reads one flag bit of a flag word.
pub fn flag_is_set(flags: i32, bit: i32) -> (r: bool)
    ensures
        r == has_flag(flags, bit),
{
    flags & bit != 0
}

/// Reading a flag back after switching it gives what was written, and the
/// other bits of the word are those it had before.
pub proof fn lemma_flag_round_trip(flags: i32, bit: i32, on: bool)
    requires
        bit != 0,
    ensures
        has_flag(with_flag(flags, bit, on), bit) == on,
        with_flag(flags, bit, on) & !bit == flags & !bit,
{
    if on {
        assert((flags | bit) & bit != 0) by (bit_vector)
            requires
                bit != 0,
        ;
        assert((flags | bit) & !bit == flags & !bit) by (bit_vector);
    } else {
        assert((flags & !bit) & bit == 0) by (bit_vector);
        assert((flags & !bit) & !bit == flags & !bit) by (bit_vector);
    }
}

/// Relies on libc::O_NONBLOCK: the file status flag of nonblocking mode, a
/// nonzero bit on every platform libc lists.
#[verifier::external_body]
pub(crate) fn nonblock_bit() -> (r: i32)
    ensures
        r != 0,
{
    libc::O_NONBLOCK
}

/// Relies on libc::FD_CLOEXEC: the descriptor flag of close-on-exec, a
/// nonzero bit on every platform libc lists.
#[verifier::external_body]
pub(crate) fn cloexec_bit() -> (r: i32)
    ensures
        r != 0,
{
    libc::FD_CLOEXEC
}

/// Relies on nix::fcntl::fcntl with F_GETFL: the file status flags of a
/// descriptor, or the errno of the failed call.
#[verifier::external_body]
fn get_status_flags(fd: i32) -> (r: Result<i32, i32>) {
    match nix::fcntl::fcntl(fd, nix::fcntl::FcntlArg::F_GETFL) {
        Ok(v) => Ok(v),
        Err(e) => Err(e as i32),
    }
}

/// Relies on nix::fcntl::fcntl with F_SETFL: replaces the file status flags
/// of a descriptor (the bits that nix's OFlag knows), or gives the errno.
#[verifier::external_body]
fn put_status_flags(fd: i32, flags: i32) -> (r: Result<(), i32>) {
    let f = nix::fcntl::OFlag::from_bits_truncate(flags);
    match nix::fcntl::fcntl(fd, nix::fcntl::FcntlArg::F_SETFL(f)) {
        Ok(_) => Ok(()),
        Err(e) => Err(e as i32),
    }
}

/// Relies on nix::fcntl::fcntl with F_GETFD: the descriptor flags of a
/// descriptor, or the errno of the failed call.
#[verifier::external_body]
fn get_descriptor_flags(fd: i32) -> (r: Result<i32, i32>) {
    match nix::fcntl::fcntl(fd, nix::fcntl::FcntlArg::F_GETFD) {
        Ok(v) => Ok(v),
        Err(e) => Err(e as i32),
    }
}

/// Relies on nix::fcntl::fcntl with F_SETFD: replaces the descriptor flags
/// of a descriptor (the bits that nix's FdFlag knows), or gives the errno.
#[verifier::external_body]
fn put_descriptor_flags(fd: i32, flags: i32) -> (r: Result<(), i32>) {
    let f = nix::fcntl::FdFlag::from_bits_truncate(flags);
    match nix::fcntl::fcntl(fd, nix::fcntl::FcntlArg::F_SETFD(f)) {
        Ok(_) => Ok(()),
        Err(e) => Err(e as i32),
    }
}

/// The nonblocking mode that a raw F_GETFL result reports, given the
/// status flag bit of nonblocking mode; a failed call is an OS error.
pub open spec fn nonblocking_answer(raw: Result<i32, i32>, bit: i32) -> Result<bool, OsError> {
    match raw {
        Ok(flags) => Ok(has_flag(flags, bit)),
        Err(code) => Err(OsError { code }),
    }
}

/// The flag word to write back after a raw F_GETFL or F_GETFD result, with
/// one flag bit switched on or off; a failed read is an OS error.
pub open spec fn updated_word(raw: Result<i32, i32>, bit: i32, on: bool) -> Result<i32, OsError> {
    match raw {
        Ok(flags) => Ok(with_flag(flags, bit, on)),
        Err(code) => Err(OsError { code }),
    }
}

/// The outcome of a read-modify-write of a flag word: the read's error, else
/// the write's error, else success.
pub open spec fn write_back(word: Result<i32, OsError>, put: Result<(), i32>) -> Result<(), OsError> {
    match word {
        Err(e) => Err(e),
        Ok(_) => match put {
            Ok(()) => Ok(()),
            Err(code) => Err(OsError { code }),
        },
    }
}

/// Decides the nonblocking mode from a raw F_GETFL result.
pub fn nonblocking_from(raw: Result<i32, i32>, bit: i32) -> (r: Result<bool, OsError>)
    ensures
        r == nonblocking_answer(raw, bit),
{
    match raw {
        Ok(flags) => Ok(flag_is_set(flags, bit)),
        Err(code) => Err(OsError { code }),
    }
}

/// Computes the flag word to write back from a raw F_GETFL or F_GETFD
/// result: the flag reads back as asked, every other bit as it was.
pub fn flag_word(raw: Result<i32, i32>, bit: i32, on: bool) -> (r: Result<i32, OsError>)
    ensures
        r == updated_word(raw, bit, on),
        bit != 0 && r is Ok ==> has_flag(r->Ok_0, bit) == on && r->Ok_0 & !bit == raw->Ok_0
            & !bit,
{
    match raw {
        Ok(flags) => {
            proof {
                if bit != 0 {
                    lemma_flag_round_trip(flags, bit, on);
                }
            }
            Ok(set_flag(flags, bit, on))
        },
        Err(code) => Err(OsError { code }),
    }
}

/// Decides the outcome of a read-modify-write from the computed word and the
/// raw result of writing it.
pub fn write_back_outcome(word: Result<i32, OsError>, put: Result<(), i32>) -> (r: Result<
    (),
    OsError,
>)
    ensures
        r == write_back(word, put),
{
    match word {
        Err(e) => Err(e),
        Ok(_) => match put {
            Ok(()) => Ok(()),
            Err(code) => Err(OsError { code }),
        },
    }
}

/// Gets the nonblocking mode of a descriptor: the answer that the F_GETFL
/// result gives for the platform's nonzero nonblocking bit.
pub fn get_nonblocking(fd: i32) -> (r: Result<bool, OsError>)
    ensures
        exists|raw: Result<i32, i32>, bit: i32|
            bit != 0 && r == #[trigger] nonblocking_answer(raw, bit),
{
    let bit = nonblock_bit();
    let raw = get_status_flags(fd);
    let r = nonblocking_from(raw, bit);
    assert(bit != 0 && r == nonblocking_answer(raw, bit));
    r
}

/// Sets the nonblocking mode of a descriptor on or off, keeping its other
/// status flags: the F_GETFL result, updated for the platform's nonzero
/// nonblocking bit, is written back with F_SETFL, and the call is skipped
/// when the read failed. Not atomic: the caller must control the descriptor
/// alone.
pub fn set_nonblocking(fd: i32, nonblocking: bool) -> (r: Result<(), OsError>)
    ensures
        exists|prev: Result<i32, i32>, bit: i32, put: Result<(), i32>|
            bit != 0 && r == #[trigger] write_back(updated_word(prev, bit, nonblocking), put),
{
    let bit = nonblock_bit();
    let prev = get_status_flags(fd);
    let word = flag_word(prev, bit, nonblocking);
    let put = match word {
        Ok(w) => put_status_flags(fd, w),
        Err(_) => Ok(()),
    };
    let r = write_back_outcome(word, put);
    assert(bit != 0 && r == write_back(updated_word(prev, bit, nonblocking), put));
    r
}

/// Sets the close-on-exec flag of a descriptor, keeping its other flags:
/// the F_GETFD result, updated for the platform's nonzero close-on-exec bit,
/// is written back with F_SETFD, and the call is skipped when the read
/// failed.
pub fn cloexec(fd: i32) -> (r: Result<(), OsError>)
    ensures
        exists|prev: Result<i32, i32>, bit: i32, put: Result<(), i32>|
            bit != 0 && r == #[trigger] write_back(updated_word(prev, bit, true), put),
{
    let bit = cloexec_bit();
    let prev = get_descriptor_flags(fd);
    let word = flag_word(prev, bit, true);
    let put = match word {
        Ok(w) => put_descriptor_flags(fd, w),
        Err(_) => Ok(()),
    };
    let r = write_back_outcome(word, put);
    assert(bit != 0 && r == write_back(updated_word(prev, bit, true), put));
    r
}

} // verus!
