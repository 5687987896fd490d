use vstd::prelude::*;

use crate::error::{LaunchError, OsError};

verus! {

/// The inherited signals whose disposition the child resets to default.
#[derive(Debug, Clone, Copy, PartialEq, Eq, Structural)]
pub enum Signal {
    ChildDeath,
    Hangup,
    Interrupt,
    Quit,
    Terminate,
    Alarm,
}

/// One step that the child performs between fork and exec.
#[derive(Debug, Clone, Copy, PartialEq, Eq, Structural)]
pub enum PreExecStep {
    /// Reset the disposition of a signal to its default.
    ResetSignal(Signal),
    /// Become the leader of a new session.
    NewSession,
    /// Make the terminal on descriptor 0 the controlling terminal.
    SetControllingTerminal,
    /// Close every descriptor above the standard three, best effort.
    CloseStrayDescriptors,
}

/// The steps in the order they must run: signal dispositions first, then
/// the session, then the controlling terminal (which needs the session),
/// then the cleanup of stray descriptors.
pub open spec fn pre_exec_plan() -> Seq<PreExecStep> {
    seq![
        PreExecStep::ResetSignal(Signal::ChildDeath),
        PreExecStep::ResetSignal(Signal::Hangup),
        PreExecStep::ResetSignal(Signal::Interrupt),
        PreExecStep::ResetSignal(Signal::Quit),
        PreExecStep::ResetSignal(Signal::Terminate),
        PreExecStep::ResetSignal(Signal::Alarm),
        PreExecStep::NewSession,
        PreExecStep::SetControllingTerminal,
        PreExecStep::CloseStrayDescriptors,
    ]
}

/// What the failure of a step with an OS error code means for the launch:
/// the session and the controlling terminal are fatal, the rest is best
/// effort and ignored.
pub open spec fn failure_of(step: PreExecStep, code: i32) -> Option<LaunchError> {
    match step {
        PreExecStep::NewSession => Some(LaunchError::SessionSetup(OsError { code })),
        PreExecStep::SetControllingTerminal => Some(
            LaunchError::ControllingTerminal(OsError { code }),
        ),
        _ => None,
    }
}

/// The steps to run in the child, in order. Built before the fork, so that
/// running them needs no allocation.
pub fn pre_exec_steps() -> (r: Vec<PreExecStep>)
    ensures
        r@ == pre_exec_plan(),
{
    let r = vec![
        PreExecStep::ResetSignal(Signal::ChildDeath),
        PreExecStep::ResetSignal(Signal::Hangup),
        PreExecStep::ResetSignal(Signal::Interrupt),
        PreExecStep::ResetSignal(Signal::Quit),
        PreExecStep::ResetSignal(Signal::Terminate),
        PreExecStep::ResetSignal(Signal::Alarm),
        PreExecStep::NewSession,
        PreExecStep::SetControllingTerminal,
        PreExecStep::CloseStrayDescriptors,
    ];
    assert(r@ =~= pre_exec_plan());
    r
}

/// Decides whether a failed step ends the launch, and with which error.
pub fn step_failure(step: PreExecStep, code: i32) -> (r: Option<LaunchError>)
    ensures
        r == failure_of(step, code),
{
    match step {
        PreExecStep::NewSession => Some(LaunchError::SessionSetup(OsError { code })),
        PreExecStep::SetControllingTerminal => Some(
            LaunchError::ControllingTerminal(OsError { code }),
        ),
        _ => None,
    }
}

/// The error code that a launch error carries.
pub open spec fn code_of(e: LaunchError) -> i32 {
    match e {
        LaunchError::SessionSetup(os) => os.code,
        LaunchError::ControllingTerminal(os) => os.code,
        LaunchError::Spawn(os) => os.code,
    }
}

impl LaunchError {
    /// The OS error code behind the failure.
    pub fn code(&self) -> (r: i32)
        ensures
            r == code_of(*self),
    {
        match self {
            LaunchError::SessionSetup(os) => os.code,
            LaunchError::ControllingTerminal(os) => os.code,
            LaunchError::Spawn(os) => os.code,
        }
    }
}

/// Whether a character is an ASCII decimal digit.
pub open spec fn is_digit(c: char) -> bool {
    '0' <= c && c <= '9'
}

/// The value of a string of decimal digits.
pub open spec fn digits_value(s: Seq<char>) -> int
    decreases s.len(),
{
    if s.len() == 0 {
        0
    } else {
        digits_value(s.drop_last()) * 10 + (s.last() as int - '0' as int)
    }
}

/// The unsigned part of a decimal integer: the string after an optional
/// leading sign.
pub open spec fn unsigned_part(s: Seq<char>) -> Seq<char> {
    if s.len() > 0 && (s[0] == '-' || s[0] == '+') {
        s.drop_first()
    } else {
        s
    }
}

/// The value of a decimal integer: an optional sign then at least one
/// digit, and nothing else; none when malformed or out of `i32` range.
pub open spec fn decimal_i32(s: Seq<char>) -> Option<i32> {
    let body = unsigned_part(s);
    let v = if s.len() > 0 && s[0] == '-' {
        -digits_value(body)
    } else {
        digits_value(body)
    };
    if body.len() > 0 && (forall|i: int| 0 <= i < body.len() ==> is_digit(#[trigger] body[i]))
        && i32::MIN <= v <= i32::MAX {
        Some(v as i32)
    } else {
        None
    }
}

/// Relies on `str::parse::<i32>`, whose documentation accepts an optional
/// `+` or `-` sign followed by digits only, within the range of `i32`.
#[verifier::external_body]
fn parse_i32(s: &str) -> (r: Option<i32>)
    ensures
        r == decimal_i32(s@),
{
    s.parse::<i32>().ok()
}

/// Relies on nix::unistd::close: closes a raw descriptor; failures are
/// ignored by design.
#[verifier::external_body]
fn close_quietly(fd: i32) {
    let _ = nix::unistd::close(fd);
}

/// The descriptors above the standard three among parsed names, in order;
/// names that are not numbers are skipped.
pub open spec fn stray(parsed: Seq<Option<i32>>) -> Seq<i32>
    decreases parsed.len(),
{
    if parsed.len() == 0 {
        Seq::empty()
    } else {
        let rest = stray(parsed.drop_last());
        match parsed.last() {
            Some(fd) => if fd > 2 {
                rest.push(fd)
            } else {
                rest
            },
            None => rest,
        }
    }
}

/// The parsed value of each name of an open-descriptor directory listing.
pub open spec fn parsed_names(names: Seq<String>) -> Seq<Option<i32>> {
    names.map_values(|n: String| decimal_i32(n@))
}

/// Picks the descriptors above the standard three from parsed names.
pub fn select_stray_fds(parsed: &Vec<Option<i32>>) -> (r: Vec<i32>)
    ensures
        r@ == stray(parsed@),
{
    let mut r: Vec<i32> = Vec::new();
    let mut i: usize = 0;
    while i < parsed.len()
        invariant
            i <= parsed.len(),
            r@ == stray(parsed@.subrange(0, i as int)),
        decreases parsed.len() - i,
    {
        assert(parsed@.subrange(0, i + 1).drop_last() =~= parsed@.subrange(0, i as int));
        match parsed[i] {
            Some(fd) => if fd > 2 {
                r.push(fd);
            },
            None => {},
        }
        i = i + 1;
    }
    assert(parsed@.subrange(0, parsed.len() as int) =~= parsed@);
    r
}

/// The descriptors numbered above the standard three, given the names
/// listed in the process's open-descriptor directory, in listing order.
/// Computed before the fork, so that the child closes them without
/// allocating.
pub fn stray_fds(names: &Vec<String>) -> (r: Vec<i32>)
    ensures
        r@ == stray(parsed_names(names@)),
{
    let mut parsed: Vec<Option<i32>> = Vec::new();
    let mut i: usize = 0;
    while i < names.len()
        invariant
            i <= names.len(),
            parsed@ == parsed_names(names@.subrange(0, i as int)),
        decreases names.len() - i,
    {
        parsed.push(parse_i32(names[i].as_str()));
        i = i + 1;
        assert(parsed@ =~= parsed_names(names@.subrange(0, i as int)));
    }
    assert(names@.subrange(0, names.len() as int) =~= names@);
    select_stray_fds(&parsed)
}

/// Closes each listed descriptor, ignoring failures; allocates nothing.
pub fn close_fds(fds: &Vec<i32>) {
    let mut j: usize = 0;
    while j < fds.len()
        invariant
            j <= fds.len(),
        decreases fds.len() - j,
    {
        close_quietly(fds[j]);
        j = j + 1;
    }
}

/// Closes every descriptor numbered above the standard three, given the
/// names listed in the process's open-descriptor directory, and returns the
/// numbers it asked the OS to close. Close failures are ignored by design.
pub fn close_random_fds(names: &Vec<String>) -> (r: Vec<i32>)
    ensures
        r@ == stray(parsed_names(names@)),
{
    let fds = stray_fds(names);
    close_fds(&fds);
    fds
}

} // verus!
