//! The pull-model walk: the library asks the provider for one thing at a
//! time (capture a context, initialise a cursor, query the current frame,
//! step) and decides from each answer what comes next.
//!
//! A [`CursorWalk`] never talks to the provider itself: the embedding program
//! performs the pending [`Action`], hands the answer back as an [`Event`], and
//! repeats until the action is [`Action::Finish`].
use vstd::prelude::*;

use crate::abi::{spec_ip_register, spec_sp_register, ProviderAbi};
use crate::frame::Frame;

verus! {

/// The stage of a pull-model walk at which the provider failed.
#[derive(Clone, Copy, Debug, PartialEq, Eq, Structural)]
pub enum UnwindStage {
    /// Capturing the register context of the caller.
    Capture,
    /// Initialising a cursor from the captured context.
    CursorInit,
    /// Advancing the cursor to the next outer frame.
    Step,
    /// Reading the procedure info or a register of the current frame.
    Query,
}

/// A failure of the provider during a pull-model walk, with the status code
/// it reported.
#[derive(Clone, Copy, Debug, PartialEq, Eq, Structural)]
pub struct UnwindError {
    pub stage: UnwindStage,
    pub code: i32,
}

/// How a step of the cursor ended.
#[derive(Clone, Copy, Debug, PartialEq, Eq, Structural)]
pub enum StepResult {
    /// The provider failed with this (negative) status.
    Error(i32),
    /// There is no outer frame left.
    End,
    /// The cursor moved to the next outer frame.
    Success,
}

pub open spec fn spec_step_result(status: i32) -> StepResult {
    if status > 0 {
        StepResult::Success
    } else if status == 0 {
        StepResult::End
    } else {
        StepResult::Error(status)
    }
}

impl StepResult {
    /// Reads the status that the provider's step primitive returned: positive
    /// on success, zero at the end of the stack, negative on failure.
    pub fn from_status(status: i32) -> (r: StepResult)
        ensures
            r == spec_step_result(status),
    {
        if status > 0 {
            StepResult::Success
        } else if status == 0 {
            StepResult::End
        } else {
            StepResult::Error(status)
        }
    }
}

/// The flag handed to cursor initialisation when the context was captured
/// inside a signal handler.
pub const INIT_SIGNAL_FRAME: i32 = 1;

pub open spec fn spec_init_flag(signal_frame: bool) -> i32 {
    if signal_frame {
        INIT_SIGNAL_FRAME
    } else {
        0
    }
}

/// The flag word for cursor initialisation.
pub fn init_flag(signal_frame: bool) -> (r: i32)
    ensures
        r == spec_init_flag(signal_frame),
{
    if signal_frame {
        INIT_SIGNAL_FRAME
    } else {
        0
    }
}

/// Where a pull-model walk stands.
#[derive(Clone, Copy, Debug)]
pub enum Phase {
    /// The context is to be captured.
    Capture,
    /// The cursor is to be initialised from the context.
    CursorInit,
    /// The procedure info of the current frame is to be read.
    ProcInfo,
    /// The instruction pointer of the current frame is to be read.
    Ip,
    /// The stack pointer of the current frame is to be read.
    Sp,
    /// The current frame is with the callback, whose answer is awaited.
    Callback,
    /// The cursor is to be stepped to the next outer frame.
    Stepping,
    /// The walk is over, with this outcome.
    Done(Result<(), UnwindError>),
}

/// What the embedding program is to do next for a walk.
#[derive(Clone, Copy, Debug)]
pub enum Action {
    /// Capture the register context of the current call site.
    CaptureContext,
    /// Initialise a cursor from the context, with this flag word.
    InitCursor { flag: i32 },
    /// Read the procedure info of the cursor's frame.
    QueryProcInfo,
    /// Read this register of the cursor's frame.
    QueryRegister { register: i32 },
    /// Hand this frame to the callback.
    Deliver(Frame),
    /// Step the cursor.
    Step,
    /// The walk is over.
    Finish(Result<(), UnwindError>),
}

/// The answer to an [`Action`].
#[derive(Clone, Copy, Debug)]
pub enum Event {
    /// The status returned by context capture, cursor initialisation or a
    /// step.
    Status(i32),
    /// The status and value of a query: the start address of the enclosing
    /// procedure, or the register's value.
    Value { status: i32, value: usize },
    /// What the callback answered: `true` to go on.
    Decision(bool),
}

/// The state of one pull-model walk.
#[derive(Clone, Copy, Debug)]
pub struct CursorWalk {
    pub abi: ProviderAbi,
    pub signal_frame: bool,
    pub phase: Phase,
    /// The start address of the current frame's procedure, once read.
    pub start_ip: usize,
    /// The instruction pointer of the current frame, once read.
    pub ip: usize,
    /// The stack pointer of the current frame, once read.
    pub sp: usize,
}

/// Whether `e` answers what a walk in `phase` waits for. A finished walk
/// takes any event and ignores it.
pub open spec fn fits(phase: Phase, e: Event) -> bool {
    match phase {
        Phase::Capture | Phase::CursorInit | Phase::Stepping => e is Status,
        Phase::ProcInfo | Phase::Ip | Phase::Sp => e is Value,
        Phase::Callback => e is Decision,
        Phase::Done(_) => true,
    }
}

pub open spec fn spec_start(abi: ProviderAbi, signal_frame: bool) -> CursorWalk {
    CursorWalk { abi, signal_frame, phase: Phase::Capture, start_ip: 0, ip: 0, sp: 0 }
}

pub open spec fn failed(stage: UnwindStage, code: i32) -> Phase {
    Phase::Done(Err(UnwindError { stage, code }))
}

/// What the walk asks for in state `s`.
pub open spec fn pending(s: CursorWalk) -> Action {
    match s.phase {
        Phase::Capture => Action::CaptureContext,
        Phase::CursorInit => Action::InitCursor { flag: spec_init_flag(s.signal_frame) },
        Phase::ProcInfo => Action::QueryProcInfo,
        Phase::Ip => Action::QueryRegister { register: spec_ip_register(s.abi) },
        Phase::Sp => Action::QueryRegister { register: spec_sp_register(s.abi) },
        Phase::Callback => Action::Deliver(Frame { ip: s.ip, sp: s.sp, symbol_address: s.start_ip }),
        Phase::Stepping => Action::Step,
        Phase::Done(outcome) => Action::Finish(outcome),
    }
}

/// The state of the walk after the answer `e` to its pending action.
pub open spec fn apply(s: CursorWalk, e: Event) -> CursorWalk {
    match (s.phase, e) {
        (Phase::Capture, Event::Status(status)) => CursorWalk {
            phase: if status == 0 { Phase::CursorInit } else { failed(UnwindStage::Capture, status) },
            ..s
        },
        (Phase::CursorInit, Event::Status(status)) => CursorWalk {
            phase: if status == 0 { Phase::ProcInfo } else { failed(UnwindStage::CursorInit, status) },
            ..s
        },
        (Phase::ProcInfo, Event::Value { status, value }) => if status == 0 {
            CursorWalk { phase: Phase::Ip, start_ip: value, ..s }
        } else {
            CursorWalk { phase: failed(UnwindStage::Query, status), ..s }
        },
        (Phase::Ip, Event::Value { status, value }) => if status == 0 {
            CursorWalk { phase: Phase::Sp, ip: value, ..s }
        } else {
            CursorWalk { phase: failed(UnwindStage::Query, status), ..s }
        },
        (Phase::Sp, Event::Value { status, value }) => if status == 0 {
            CursorWalk { phase: Phase::Callback, sp: value, ..s }
        } else {
            CursorWalk { phase: failed(UnwindStage::Query, status), ..s }
        },
        (Phase::Callback, Event::Decision(keep_going)) => CursorWalk {
            phase: if keep_going { Phase::Stepping } else { Phase::Done(Ok(())) },
            ..s
        },
        (Phase::Stepping, Event::Status(status)) => CursorWalk {
            phase: match spec_step_result(status) {
                StepResult::Success => Phase::ProcInfo,
                StepResult::End => Phase::Done(Ok(())),
                StepResult::Error(code) => failed(UnwindStage::Step, code),
            },
            ..s
        },
        _ => s,
    }
}

impl CursorWalk {
    /// A walk that has not asked the provider anything yet.
    pub fn new(abi: ProviderAbi, signal_frame: bool) -> (r: CursorWalk)
        ensures
            r == spec_start(abi, signal_frame),
    {
        CursorWalk { abi, signal_frame, phase: Phase::Capture, start_ip: 0, ip: 0, sp: 0 }
    }

    /// What the embedding program is to do next.
    pub fn action(&self) -> (r: Action)
        ensures
            r == pending(*self),
    {
        match self.phase {
            Phase::Capture => Action::CaptureContext,
            Phase::CursorInit => Action::InitCursor { flag: init_flag(self.signal_frame) },
            Phase::ProcInfo => Action::QueryProcInfo,
            Phase::Ip => Action::QueryRegister { register: self.abi.ip_register() },
            Phase::Sp => Action::QueryRegister { register: self.abi.sp_register() },
            Phase::Callback => Action::Deliver(Frame::new(self.ip, self.sp, self.start_ip)),
            Phase::Stepping => Action::Step,
            Phase::Done(outcome) => Action::Finish(outcome),
        }
    }

    /// Whether `e` answers the pending action.
    pub fn accepts(&self, e: &Event) -> (r: bool)
        ensures
            r == fits(self.phase, *e),
    {
        match self.phase {
            Phase::Capture | Phase::CursorInit | Phase::Stepping => matches!(e, Event::Status(_)),
            Phase::ProcInfo | Phase::Ip | Phase::Sp => matches!(e, Event::Value { .. }),
            Phase::Callback => matches!(e, Event::Decision(_)),
            Phase::Done(_) => true,
        }
    }

    /// Whether the walk is over.
    pub fn is_done(&self) -> (r: bool)
        ensures
            r == (self.phase is Done),
    {
        matches!(self.phase, Phase::Done(_))
    }

    /// Takes the answer to the pending action.
    pub fn advance(&mut self, e: Event)
        requires
            fits(old(self).phase, e),
        ensures
            *final(self) == apply(*old(self), e),
    {
        match (self.phase, e) {
            (Phase::Capture, Event::Status(status)) => {
                self.phase = if status == 0 {
                    Phase::CursorInit
                } else {
                    Phase::Done(Err(UnwindError { stage: UnwindStage::Capture, code: status }))
                };
            },
            (Phase::CursorInit, Event::Status(status)) => {
                self.phase = if status == 0 {
                    Phase::ProcInfo
                } else {
                    Phase::Done(Err(UnwindError { stage: UnwindStage::CursorInit, code: status }))
                };
            },
            (Phase::ProcInfo, Event::Value { status, value }) => {
                if status == 0 {
                    self.start_ip = value;
                    self.phase = Phase::Ip;
                } else {
                    self.phase = Phase::Done(Err(UnwindError { stage: UnwindStage::Query, code: status }));
                }
            },
            (Phase::Ip, Event::Value { status, value }) => {
                if status == 0 {
                    self.ip = value;
                    self.phase = Phase::Sp;
                } else {
                    self.phase = Phase::Done(Err(UnwindError { stage: UnwindStage::Query, code: status }));
                }
            },
            (Phase::Sp, Event::Value { status, value }) => {
                if status == 0 {
                    self.sp = value;
                    self.phase = Phase::Callback;
                } else {
                    self.phase = Phase::Done(Err(UnwindError { stage: UnwindStage::Query, code: status }));
                }
            },
            (Phase::Callback, Event::Decision(keep_going)) => {
                self.phase = if keep_going {
                    Phase::Stepping
                } else {
                    Phase::Done(Ok(()))
                };
            },
            (Phase::Stepping, Event::Status(status)) => {
                self.phase = match StepResult::from_status(status) {
                    StepResult::Success => Phase::ProcInfo,
                    StepResult::End => Phase::Done(Ok(())),
                    StepResult::Error(code) => Phase::Done(
                        Err(UnwindError { stage: UnwindStage::Step, code }),
                    ),
                };
            },
            _ => {},
        }
    }
}

/// The number of frames handed to the callback while the walk in state `s`
/// takes `events` in turn, counting the frame pending in `s` and stopping at
/// the first event that does not answer the pending action.
pub open spec fn deliveries(s: CursorWalk, events: Seq<Event>) -> nat
    decreases events.len(),
{
    let here: nat = if pending(s) is Deliver { 1 } else { 0 };
    if events.len() == 0 || !fits(s.phase, events[0]) {
        here
    } else {
        here + deliveries(apply(s, events[0]), events.drop_first())
    }
}

proof fn lemma_done_delivers_nothing(s: CursorWalk, events: Seq<Event>)
    requires
        s.phase is Done,
    ensures
        deliveries(s, events) == 0,
    decreases events.len(),
{
    if events.len() > 0 && fits(s.phase, events[0]) {
        lemma_done_delivers_nothing(apply(s, events[0]), events.drop_first());
    }
}

/// A callback that answers `false` for a frame ends the walk: the walk is over
/// without error, and whatever the provider answers afterwards, no further
/// frame is delivered.
pub proof fn lemma_stop_is_final(s: CursorWalk, events: Seq<Event>)
    requires
        s.phase is Callback,
    ensures
        apply(s, Event::Decision(false)).phase == Phase::Done(Ok(())),
        deliveries(apply(s, Event::Decision(false)), events) == 0,
{
    lemma_done_delivers_nothing(apply(s, Event::Decision(false)), events);
}

/// The answer of a provider walking `stack` (innermost frame first), with the
/// cursor on frame `pos`, to the pending action of `s`; every query succeeds,
/// and the callback answers `keep(pos)` for frame `pos`.
pub open spec fn provider_answer(
    s: CursorWalk,
    stack: Seq<Frame>,
    pos: nat,
    keep: spec_fn(nat) -> bool,
) -> Event {
    match s.phase {
        Phase::ProcInfo => Event::Value { status: 0, value: stack[pos as int].symbol_address },
        Phase::Ip => Event::Value { status: 0, value: stack[pos as int].ip },
        Phase::Sp => Event::Value { status: 0, value: stack[pos as int].sp },
        Phase::Callback => Event::Decision(keep(pos)),
        Phase::Stepping => Event::Status(if pos + 1 < stack.len() { 1 } else { 0 }),
        _ => Event::Status(0),
    }
}

/// Where the walk in state `s` ends when driven for at most `fuel` actions by
/// [`provider_answer`]: the final state, the number of steps of the cursor,
/// and the frames delivered to the callback, in order.
pub open spec fn drive(
    s: CursorWalk,
    stack: Seq<Frame>,
    pos: nat,
    keep: spec_fn(nat) -> bool,
    fuel: nat,
) -> (CursorWalk, nat, Seq<Frame>)
    decreases fuel,
{
    if fuel == 0 || s.phase is Done {
        (s, 0, Seq::empty())
    } else {
        let stepping = s.phase is Stepping;
        let next = apply(s, provider_answer(s, stack, pos, keep));
        let rest = drive(next, stack, if stepping { pos + 1 } else { pos }, keep, (fuel - 1) as nat);
        (
            rest.0,
            rest.1 + if stepping { 1nat } else { 0nat },
            match pending(s) {
                Action::Deliver(f) => seq![f] + rest.2,
                _ => rest.2,
            },
        )
    }
}

proof fn lemma_drive_from_frame(
    s: CursorWalk,
    stack: Seq<Frame>,
    pos: nat,
    keep: spec_fn(nat) -> bool,
    fuel: nat,
)
    requires
        s.phase is ProcInfo,
        pos < stack.len(),
        fuel >= 5 * (stack.len() - pos),
    ensures
        ({
            let (end, steps, delivered) = drive(s, stack, pos, keep, fuel);
            &&& end.phase == Phase::Done(Ok(()))
            &&& steps <= stack.len() - pos
            &&& 1 <= delivered.len() <= stack.len() - pos
            &&& delivered == stack.subrange(pos as int, (pos + delivered.len()) as int)
            &&& forall|k: nat|
                pos <= k && !#[trigger] keep(k) ==> delivered.len() <= k - pos + 1
            &&& (forall|i: nat| #[trigger] keep(i)) ==> steps == stack.len() - pos && delivered
                == stack.subrange(pos as int, stack.len() as int)
        }),
    decreases stack.len() - pos,
{
    let s1 = apply(s, provider_answer(s, stack, pos, keep));
    let s2 = apply(s1, provider_answer(s1, stack, pos, keep));
    let s3 = apply(s2, provider_answer(s2, stack, pos, keep));
    let s4 = apply(s3, provider_answer(s3, stack, pos, keep));
    let f = stack[pos as int];
    assert(s3.phase is Callback);
    assert(pending(s3) == Action::Deliver(f));
    assert(drive(s, stack, pos, keep, fuel) == drive(s1, stack, pos, keep, (fuel - 1) as nat));
    assert(drive(s1, stack, pos, keep, (fuel - 1) as nat) == drive(s2, stack, pos, keep, (fuel - 2) as nat));
    assert(drive(s2, stack, pos, keep, (fuel - 2) as nat) == drive(s3, stack, pos, keep, (fuel - 3) as nat));
    let at4 = drive(s4, stack, pos, keep, (fuel - 4) as nat);
    assert(drive(s3, stack, pos, keep, (fuel - 3) as nat) == (at4.0, at4.1, seq![f] + at4.2));
    if keep(pos) {
        assert(s4.phase is Stepping);
        let s5 = apply(s4, provider_answer(s4, stack, pos, keep));
        let rest = drive(s5, stack, pos + 1, keep, (fuel - 5) as nat);
        assert(at4 == (rest.0, rest.1 + 1, rest.2));
        if pos + 1 < stack.len() {
            assert(s5.phase is ProcInfo);
            lemma_drive_from_frame(s5, stack, pos + 1, keep, (fuel - 5) as nat);
            assert(seq![f] + rest.2 =~= stack.subrange(pos as int, (pos + 1 + rest.2.len()) as int));
            if forall|i: nat| #[trigger] keep(i) {
                assert(seq![f] + rest.2 =~= stack.subrange(pos as int, stack.len() as int));
            }
        } else {
            assert(s5.phase == Phase::Done(Ok(())));
            assert(rest == (s5, 0nat, Seq::<Frame>::empty()));
            assert(seq![f] + rest.2 =~= stack.subrange(pos as int, (pos + 1) as int));
        }
    } else {
        assert(s4.phase == Phase::Done(Ok(())));
        assert(at4 == (s4, 0nat, Seq::<Frame>::empty()));
        assert(seq![f] + at4.2 =~= stack.subrange(pos as int, (pos + 1) as int));
    }
}

/// A walk over a stack of at least one frame, whose provider answers every
/// query, ends without error within a bounded number of actions, after at
/// most as many steps of the cursor as there are frames. It delivers the
/// stack's frames innermost first, none twice and none skipped, and none after
/// the first one for which the callback answered `false`. When the callback
/// never stops it, it delivers every frame and makes exactly one step per
/// frame, the last of which reports the end of the stack.
pub proof fn lemma_walk_terminates(
    abi: ProviderAbi,
    signal_frame: bool,
    stack: Seq<Frame>,
    keep: spec_fn(nat) -> bool,
)
    requires
        stack.len() >= 1,
    ensures
        ({
            let (end, steps, delivered) = drive(
                spec_start(abi, signal_frame),
                stack,
                0,
                keep,
                5 * stack.len() + 2,
            );
            &&& end.phase == Phase::Done(Ok(()))
            &&& steps <= stack.len()
            &&& 1 <= delivered.len() <= stack.len()
            &&& delivered == stack.subrange(0, delivered.len() as int)
            &&& forall|k: nat| !#[trigger] keep(k) ==> delivered.len() <= k + 1
            &&& (forall|i: nat| #[trigger] keep(i)) ==> steps == stack.len() && delivered
                == stack
        }),
{
    let s0 = spec_start(abi, signal_frame);
    let s1 = apply(s0, provider_answer(s0, stack, 0, keep));
    let s2 = apply(s1, provider_answer(s1, stack, 0, keep));
    assert(s2.phase is ProcInfo);
    assert(drive(s0, stack, 0, keep, 5 * stack.len() + 2) == drive(s1, stack, 0, keep, 5 * stack.len() + 1));
    assert(drive(s1, stack, 0, keep, 5 * stack.len() + 1) == drive(s2, stack, 0, keep, 5 * stack.len()));
    lemma_drive_from_frame(s2, stack, 0, keep, 5 * stack.len());
    assert(stack.subrange(0, stack.len() as int) =~= stack);
}

/// The walk with the signal-frame flag flipped.
pub open spec fn with_signal_frame(s: CursorWalk, signal_frame: bool) -> CursorWalk {
    CursorWalk { signal_frame, ..s }
}

/// The signal-frame flag reaches the provider only through cursor
/// initialisation: two walks that differ in the flag alone take every answer
/// alike, ask for the same actions but for the flag word of that one, and so
/// deliver the same frames for the same answers.
pub proof fn lemma_signal_frame_only_reaches_init(s: CursorWalk, events: Seq<Event>)
    ensures
        events.len() > 0 ==> apply(with_signal_frame(s, true), events[0]) == with_signal_frame(
            apply(with_signal_frame(s, false), events[0]),
            true,
        ),
        !(s.phase is CursorInit) ==> pending(with_signal_frame(s, true)) == pending(
            with_signal_frame(s, false),
        ),
        deliveries(with_signal_frame(s, true), events) == deliveries(
            with_signal_frame(s, false),
            events,
        ),
    decreases events.len(),
{
    if events.len() > 0 && fits(s.phase, events[0]) {
        let t = apply(with_signal_frame(s, false), events[0]);
        assert(with_signal_frame(t, false) == t);
        lemma_signal_frame_only_reaches_init(t, events.drop_first());
    }
}

} // verus!
