use vstd::prelude::*;

verus! {

/// One of the logical output channels of a launched child.
#[derive(Debug, Clone, Copy, PartialEq, Eq, Structural)]
pub enum Channel {
    Stdout,
    Stderr,
}

/// How a child ended, as reported by the operating system's wait call.
#[derive(Debug, Clone, Copy, PartialEq, Eq, Structural)]
pub enum ExitStatus {
    Exited(i32),
    Signaled(i32),
}

/// Where the control loop of one child stands.
#[derive(Debug, Clone, Copy, PartialEq, Eq, Structural)]
pub enum Phase {
    /// The child is presumed running; its streams may carry data.
    Active,
    /// Termination was observed; the final reads flush what is buffered.
    Draining,
    /// Every channel has been drained after termination.
    Done,
}

/// What the driver of the loop observed.
#[derive(Debug, Clone, Copy, PartialEq, Eq, Structural)]
pub enum Event {
    /// A read on the channel produced this many bytes (more than zero).
    Data(Channel, usize),
    /// A read on the channel reported end-of-stream.
    EndOfStream(Channel),
    /// A read on the channel found nothing available right now.
    NoData(Channel),
    /// A read on the channel failed, with the OS error code if any.
    ReadFailed(Channel, Option<i32>),
    /// The wait call reported the child's termination.
    ChildExited(ExitStatus),
    /// The caller asked for early termination of the child.
    CancelRequested,
    /// Sending the termination signal failed with this OS error code.
    SignalFailed(i32),
}

/// What the driver must do in answer to an event.
#[derive(Debug, Clone, Copy, PartialEq, Eq, Structural)]
pub enum Action {
    /// Hand the bytes just read on the channel to the caller.
    Deliver(Channel, usize),
    /// Send the channel's end-of-stream marker to the caller.
    Close(Channel),
    /// Surface a read failure of the channel; the other channel goes on.
    ReportReadError(Channel, Option<i32>),
    /// Send the termination signal to the child.
    Terminate,
    /// Surface a failure to signal the child; the wait still follows.
    ReportSignalError(i32),
    /// Nothing to do but observe again.
    Continue,
}

/// How a finished child's status reads: an exit code when it exited, the
/// signal when one ended it, nothing known otherwise.
pub open spec fn status_of(code: Option<i32>, signal: Option<i32>) -> Option<ExitStatus> {
    match code {
        Some(c) => Some(ExitStatus::Exited(c)),
        None => match signal {
            Some(sig) => Some(ExitStatus::Signaled(sig)),
            None => None,
        },
    }
}

/// Builds the status of a finished child from what the wait call reported.
pub fn exit_status_from(code: Option<i32>, signal: Option<i32>) -> (r: Option<ExitStatus>)
    ensures
        r == status_of(code, signal),
{
    match code {
        Some(c) => Some(ExitStatus::Exited(c)),
        None => match signal {
            Some(sig) => Some(ExitStatus::Signaled(sig)),
            None => None,
        },
    }
}

impl ExitStatus {
    /// The exit code, when the child exited rather than being signaled.
    pub fn code(&self) -> (r: Option<i32>)
        ensures
            r == (match *self {
                ExitStatus::Exited(c) => Some(c),
                ExitStatus::Signaled(_) => None,
            }),
    {
        match self {
            ExitStatus::Exited(c) => Some(*c),
            ExitStatus::Signaled(_) => None,
        }
    }

    /// Whether the child exited with code 0.
    pub fn success(&self) -> (r: bool)
        ensures
            r == (*self == ExitStatus::Exited(0)),
    {
        match self {
            ExitStatus::Exited(c) => *c == 0,
            ExitStatus::Signaled(_) => false,
        }
    }
}

/// The plain state of the control loop.
#[derive(Debug, Clone, Copy, PartialEq, Eq, Structural)]
pub struct LoopState {
    pub phase: Phase,
    pub status: Option<ExitStatus>,
    /// Whether stderr comes on a channel of its own.
    pub separate_err: bool,
    pub out_open: bool,
    pub err_open: bool,
    pub out_drained: bool,
    pub err_drained: bool,
    pub kill_sent: bool,
}

/// The state a loop starts in. Without a separate error channel the
/// pseudo-terminal carries stdout and stderr together on `Stdout`.
pub open spec fn initial(separate_err: bool) -> LoopState {
    LoopState {
        phase: Phase::Active,
        status: None,
        separate_err,
        out_open: true,
        err_open: separate_err,
        out_drained: false,
        err_drained: false,
        kill_sent: false,
    }
}

/// Whether the loop reads the channel at all.
pub open spec fn has_channel(s: LoopState, ch: Channel) -> bool {
    match ch {
        Channel::Stdout => true,
        Channel::Stderr => s.separate_err,
    }
}

pub open spec fn is_open(s: LoopState, ch: Channel) -> bool {
    match ch {
        Channel::Stdout => s.out_open,
        Channel::Stderr => s.err_open,
    }
}

/// A channel needs no further read once a read made after termination was
/// observed found nothing more on it (end of stream, no data, or failure).
/// A channel the loop does not read is settled from the start.
pub open spec fn settled(s: LoopState, ch: Channel) -> bool {
    match ch {
        Channel::Stdout => s.out_drained,
        Channel::Stderr => !s.separate_err || s.err_drained,
    }
}

pub open spec fn all_settled(s: LoopState) -> bool {
    settled(s, Channel::Stdout) && settled(s, Channel::Stderr)
}

pub open spec fn closed(s: LoopState, ch: Channel) -> LoopState {
    match ch {
        Channel::Stdout => LoopState { out_open: false, ..s },
        Channel::Stderr => LoopState { err_open: false, ..s },
    }
}

pub open spec fn drained(s: LoopState, ch: Channel) -> LoopState {
    match ch {
        Channel::Stdout => LoopState { out_drained: true, ..s },
        Channel::Stderr => LoopState { err_drained: true, ..s },
    }
}

/// Moves a draining loop to `Done` once every channel is settled.
pub open spec fn settle(s: LoopState) -> LoopState {
    if s.phase == Phase::Draining && all_settled(s) {
        LoopState { phase: Phase::Done, ..s }
    } else {
        s
    }
}

/// A read of the channel that found nothing more: while draining, the
/// channel is settled, and the loop is `Done` once every channel is.
pub open spec fn after_empty_read(s: LoopState, ch: Channel) -> LoopState {
    if s.phase == Phase::Draining {
        settle(drained(s, ch))
    } else {
        s
    }
}

/// The transition table of the control loop.
pub open spec fn next(s: LoopState, ev: Event) -> (LoopState, Action) {
    match ev {
        Event::Data(ch, n) => (s, Action::Deliver(ch, n)),
        Event::EndOfStream(ch) => {
            if is_open(s, ch) {
                (after_empty_read(closed(s, ch), ch), Action::Close(ch))
            } else {
                (after_empty_read(s, ch), Action::Continue)
            }
        },
        Event::NoData(ch) => (after_empty_read(s, ch), Action::Continue),
        Event::ReadFailed(ch, code) => {
            if is_open(s, ch) {
                (after_empty_read(closed(s, ch), ch), Action::ReportReadError(ch, code))
            } else {
                (after_empty_read(s, ch), Action::Continue)
            }
        },
        Event::ChildExited(st) => {
            if s.phase == Phase::Active {
                (
                    LoopState {
                        phase: Phase::Draining,
                        status: Some(st),
                        out_drained: false,
                        err_drained: false,
                        ..s
                    },
                    Action::Continue,
                )
            } else {
                (s, Action::Continue)
            }
        },
        Event::CancelRequested => {
            if s.phase == Phase::Active && !s.kill_sent {
                (LoopState { kill_sent: true, ..s }, Action::Terminate)
            } else {
                (s, Action::Continue)
            }
        },
        Event::SignalFailed(code) => (s, Action::ReportSignalError(code)),
    }
}

/// The states that the loop can be in.
pub open spec fn wf(s: LoopState) -> bool {
    &&& (s.phase == Phase::Active <==> s.status is None)
    &&& (s.phase == Phase::Done ==> all_settled(s))
    &&& (s.phase == Phase::Draining ==> !all_settled(s))
}

/// The state after a sequence of events.
pub open spec fn run(s: LoopState, evs: Seq<Event>) -> LoopState
    decreases evs.len(),
{
    if evs.len() == 0 {
        s
    } else {
        next(run(s, evs.drop_last()), evs.last()).0
    }
}

/// The actions answered to a sequence of events, one per event.
pub open spec fn trace(s: LoopState, evs: Seq<Event>) -> Seq<Action>
    decreases evs.len(),
{
    if evs.len() == 0 {
        Seq::empty()
    } else {
        trace(s, evs.drop_last()).push(next(run(s, evs.drop_last()), evs.last()).1)
    }
}

/// The status of the first termination report among the events.
pub open spec fn first_exit(evs: Seq<Event>) -> Option<ExitStatus>
    decreases evs.len(),
{
    if evs.len() == 0 {
        None
    } else {
        match first_exit(evs.drop_last()) {
            Some(st) => Some(st),
            None => match evs.last() {
                Event::ChildExited(st) => Some(st),
                _ => None,
            },
        }
    }
}

/// Whether a cancellation came while no termination had been reported.
pub open spec fn cancelled_while_running(evs: Seq<Event>) -> bool
    decreases evs.len(),
{
    if evs.len() == 0 {
        false
    } else {
        cancelled_while_running(evs.drop_last()) || (evs.last() == Event::CancelRequested
            && first_exit(evs.drop_last()) is None)
    }
}

/// The number of bytes that the events report read on a channel.
pub open spec fn bytes_read(evs: Seq<Event>, ch: Channel) -> nat
    decreases evs.len(),
{
    if evs.len() == 0 {
        0
    } else {
        bytes_read(evs.drop_last(), ch) + match evs.last() {
            Event::Data(c, n) => if c == ch {
                n as nat
            } else {
                0
            },
            _ => 0,
        }
    }
}

/// The number of bytes that the actions hand to the caller on a channel.
pub open spec fn bytes_delivered(acts: Seq<Action>, ch: Channel) -> nat
    decreases acts.len(),
{
    if acts.len() == 0 {
        0
    } else {
        bytes_delivered(acts.drop_last(), ch) + match acts.last() {
            Action::Deliver(c, n) => if c == ch {
                n as nat
            } else {
                0
            },
            _ => 0,
        }
    }
}

/// The number of termination signals that the actions send.
pub open spec fn signals_sent(acts: Seq<Action>) -> nat
    decreases acts.len(),
{
    if acts.len() == 0 {
        0
    } else {
        signals_sent(acts.drop_last()) + if acts.last() == Action::Terminate {
            1nat
        } else {
            0nat
        }
    }
}

/// Whether an action answers an event as a read must be answered: a read of
/// bytes by their delivery, anything else by no delivery.
pub open spec fn answers_read(ev: Event, a: Action) -> bool {
    match ev {
        Event::Data(ch, n) => a == Action::Deliver(ch, n),
        _ => !(a is Deliver),
    }
}

/// Each transition keeps the loop well formed.
pub proof fn lemma_next_wf(s: LoopState, ev: Event)
    requires
        wf(s),
    ensures
        wf(next(s, ev).0),
{
}

/// A fresh loop is well formed, and stays so whatever events follow.
pub proof fn lemma_run_wf(separate_err: bool, evs: Seq<Event>)
    ensures
        wf(run(initial(separate_err), evs)),
    decreases evs.len(),
{
    if evs.len() > 0 {
        lemma_run_wf(separate_err, evs.drop_last());
        lemma_next_wf(run(initial(separate_err), evs.drop_last()), evs.last());
    }
}

/// Every read is answered in place: the action for a read of bytes, in any
/// phase, delivers exactly those bytes, no other action delivers any, and so
/// each channel hands the caller all it read, in the order read.
pub proof fn lemma_reads_delivered(s: LoopState, evs: Seq<Event>, ch: Channel)
    ensures
        trace(s, evs).len() == evs.len(),
        forall|i: int| 0 <= i < evs.len() ==> answers_read(evs[i], #[trigger] trace(s, evs)[i]),
        bytes_delivered(trace(s, evs), ch) == bytes_read(evs, ch),
    decreases evs.len(),
{
    if evs.len() > 0 {
        let pre = evs.drop_last();
        lemma_reads_delivered(s, pre, ch);
        let t = trace(s, evs);
        assert(t.drop_last() =~= trace(s, pre));
        assert forall|i: int| 0 <= i < evs.len() implies answers_read(
            evs[i],
            #[trigger] trace(s, evs)[i],
        ) by {
            if i < evs.len() - 1 {
                assert(evs[i] == pre[i]);
                assert(t[i] == trace(s, pre)[i]);
            }
        }
    }
}

/// The loop records the status of the first termination report and no
/// other; it leaves `Active` exactly when such a report came, and it is
/// `Done` only once every channel is settled.
pub proof fn lemma_status_is_first_exit(separate_err: bool, evs: Seq<Event>)
    ensures
        run(initial(separate_err), evs).status == first_exit(evs),
        run(initial(separate_err), evs).phase == Phase::Active <==> first_exit(evs) is None,
        run(initial(separate_err), evs).phase == Phase::Done ==> all_settled(
            run(initial(separate_err), evs),
        ),
    decreases evs.len(),
{
    lemma_run_wf(separate_err, evs);
    if evs.len() > 0 {
        lemma_status_is_first_exit(separate_err, evs.drop_last());
        lemma_run_wf(separate_err, evs.drop_last());
    }
}

/// `Done` is final: whatever events follow, the loop stays `Done` and keeps
/// the status it had.
pub proof fn lemma_done_is_final(s: LoopState, evs: Seq<Event>)
    requires
        s.phase == Phase::Done,
    ensures
        run(s, evs).phase == Phase::Done,
        run(s, evs).status == s.status,
    decreases evs.len(),
{
    if evs.len() > 0 {
        lemma_done_is_final(s, evs.drop_last());
    }
}

/// `Done` is entered only from `Draining`, on a read made after the
/// termination report that found nothing more; never on the report itself,
/// on a read of bytes, or on a cancellation.
pub proof fn lemma_done_entered_by_drain(s: LoopState, ev: Event)
    requires
        wf(s),
        s.phase != Phase::Done,
        next(s, ev).0.phase == Phase::Done,
    ensures
        s.phase == Phase::Draining,
        ev is EndOfStream || ev is NoData || ev is ReadFailed,
{
}

/// With stderr merged into the terminal, a child that exits while its
/// output is at end of stream ends the loop `Done` with its status, in
/// either order: the end of stream after the exit report, or before it and
/// once more on the final read.
pub proof fn lemma_merged_exit_and_end(st: ExitStatus)
    ensures
        run(initial(false), seq![Event::ChildExited(st), Event::EndOfStream(Channel::Stdout)])
            == (LoopState {
            phase: Phase::Done,
            status: Some(st),
            separate_err: false,
            out_open: false,
            err_open: false,
            out_drained: true,
            err_drained: false,
            kill_sent: false,
        }),
        run(
            initial(false),
            seq![
                Event::EndOfStream(Channel::Stdout),
                Event::ChildExited(st),
                Event::EndOfStream(Channel::Stdout),
            ],
        ).phase == Phase::Done,
        run(
            initial(false),
            seq![
                Event::EndOfStream(Channel::Stdout),
                Event::ChildExited(st),
                Event::EndOfStream(Channel::Stdout),
            ],
        ).status == Some(st),
{
    reveal_with_fuel(run, 4);
    let a = seq![Event::ChildExited(st), Event::EndOfStream(Channel::Stdout)];
    assert(a.drop_last().drop_last() =~= Seq::<Event>::empty());
    let b = seq![
        Event::EndOfStream(Channel::Stdout),
        Event::ChildExited(st),
        Event::EndOfStream(Channel::Stdout),
    ];
    assert(b.drop_last().drop_last().drop_last() =~= Seq::<Event>::empty());
    assert(b.drop_last().drop_last() =~= seq![Event::EndOfStream(Channel::Stdout)]);
}

/// A cancellation that comes while the child runs sends exactly one
/// termination signal, however many cancellations follow; without one, no
/// signal is sent.
pub proof fn lemma_single_termination_signal(separate_err: bool, evs: Seq<Event>)
    ensures
        signals_sent(trace(initial(separate_err), evs)) == (if cancelled_while_running(evs) {
            1nat
        } else {
            0nat
        }),
        run(initial(separate_err), evs).kill_sent == cancelled_while_running(evs),
    decreases evs.len(),
{
    if evs.len() > 0 {
        let pre = evs.drop_last();
        lemma_single_termination_signal(separate_err, pre);
        lemma_status_is_first_exit(separate_err, pre);
        let t = trace(initial(separate_err), evs);
        assert(t.drop_last() =~= trace(initial(separate_err), pre));
    }
}

/// The control loop of one launched child.
pub struct ReapLoop {
    state: LoopState,
}

impl View for ReapLoop {
    type V = LoopState;

    closed spec fn view(&self) -> LoopState {
        self.state
    }
}

/// The final sweep after `Done`: each channel the loop reads is read again
/// while the last read of it produced bytes.
pub open spec fn sweep_continues(s: LoopState, ch: Channel, last: Event) -> bool {
    s.phase == Phase::Done && has_channel(s, ch) && last == Event::Data(ch, last->Data_1)
}

impl ReapLoop {
    /// A loop for a child just launched; `separate_err` says whether stderr
    /// comes on a channel of its own.
    pub fn new(separate_err: bool) -> (r: ReapLoop)
        ensures
            r@ == initial(separate_err),
            wf(r@),
    {
        ReapLoop {
            state: LoopState {
                phase: Phase::Active,
                status: None,
                separate_err,
                out_open: true,
                err_open: separate_err,
                out_drained: false,
                err_drained: false,
                kill_sent: false,
            },
        }
    }

    pub fn phase(&self) -> (r: Phase)
        ensures
            r == self@.phase,
    {
        self.state.phase
    }

    /// The exit status, once termination has been observed.
    pub fn status(&self) -> (r: Option<ExitStatus>)
        ensures
            r == self@.status,
    {
        self.state.status
    }

    /// Whether the loop reads the channel at all.
    pub fn has_channel(&self, ch: Channel) -> (r: bool)
        ensures
            r == has_channel(self@, ch),
    {
        match ch {
            Channel::Stdout => true,
            Channel::Stderr => self.state.separate_err,
        }
    }

    /// Whether the channel has not yet reached its end.
    pub fn is_open(&self, ch: Channel) -> (r: bool)
        ensures
            r == is_open(self@, ch),
    {
        match ch {
            Channel::Stdout => self.state.out_open,
            Channel::Stderr => self.state.err_open,
        }
    }

    /// Whether a final read of the channel is still owed while draining.
    pub fn needs_read(&self, ch: Channel) -> (r: bool)
        ensures
            r == (self@.phase == Phase::Draining && !settled(self@, ch)),
    {
        let s = self.state;
        match s.phase {
            Phase::Draining => match ch {
                Channel::Stdout => !s.out_drained,
                Channel::Stderr => s.separate_err && !s.err_drained,
            },
            _ => false,
        }
    }

    /// Whether the final sweep after `Done` reads the channel once more,
    /// given the event of its last read.
    pub fn sweep_again(&self, ch: Channel, last: Event) -> (r: bool)
        ensures
            r == sweep_continues(self@, ch, last),
    {
        match last {
            Event::Data(c, _) => self.state.phase == Phase::Done && self.has_channel(ch) && c == ch,
            _ => false,
        }
    }

    /// Takes one event and answers with the action the driver must perform.
    pub fn step(&mut self, ev: Event) -> (a: Action)
        requires
            wf(old(self)@),
        ensures
            (final(self)@, a) == next(old(self)@, ev),
            wf(final(self)@),
    {
        let s = self.state;
        let (t, a) = match ev {
            Event::Data(ch, n) => (s, Action::Deliver(ch, n)),
            Event::EndOfStream(ch) => {
                if self.is_open(ch) {
                    (after_empty_read_exec(closed_exec(s, ch), ch), Action::Close(ch))
                } else {
                    (after_empty_read_exec(s, ch), Action::Continue)
                }
            },
            Event::NoData(ch) => (after_empty_read_exec(s, ch), Action::Continue),
            Event::ReadFailed(ch, code) => {
                if self.is_open(ch) {
                    (
                        after_empty_read_exec(closed_exec(s, ch), ch),
                        Action::ReportReadError(ch, code),
                    )
                } else {
                    (after_empty_read_exec(s, ch), Action::Continue)
                }
            },
            Event::ChildExited(st) => {
                if s.phase == Phase::Active {
                    (
                        LoopState {
                            phase: Phase::Draining,
                            status: Some(st),
                            out_drained: false,
                            err_drained: false,
                            ..s
                        },
                        Action::Continue,
                    )
                } else {
                    (s, Action::Continue)
                }
            },
            Event::CancelRequested => {
                if s.phase == Phase::Active && !s.kill_sent {
                    (LoopState { kill_sent: true, ..s }, Action::Terminate)
                } else {
                    (s, Action::Continue)
                }
            },
            Event::SignalFailed(code) => (s, Action::ReportSignalError(code)),
        };
        self.state = t;
        a
    }
}

fn closed_exec(s: LoopState, ch: Channel) -> (r: LoopState)
    ensures
        r == closed(s, ch),
{
    match ch {
        Channel::Stdout => LoopState { out_open: false, ..s },
        Channel::Stderr => LoopState { err_open: false, ..s },
    }
}

fn after_empty_read_exec(s: LoopState, ch: Channel) -> (r: LoopState)
    ensures
        r == after_empty_read(s, ch),
{
    if s.phase == Phase::Draining {
        let d = match ch {
            Channel::Stdout => LoopState { out_drained: true, ..s },
            Channel::Stderr => LoopState { err_drained: true, ..s },
        };
        let err_settled = !d.separate_err || d.err_drained;
        if d.out_drained && err_settled {
            LoopState { phase: Phase::Done, ..d }
        } else {
            d
        }
    } else {
        s
    }
}

} // verus!
