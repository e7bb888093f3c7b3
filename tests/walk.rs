use unwind_walk::abi::{ip_from_core_word, sp_from_core_word, symbol_address_of, ProviderAbi, SymbolSource};
use unwind_walk::cursor::{
    init_flag, Action, CursorWalk, Event, StepResult, UnwindError, UnwindStage, INIT_SIGNAL_FRAME,
};
use unwind_walk::frame::Frame;
use unwind_walk::trace::{CallbackGuard, ReasonCode};

/// A stack as a scripted provider reports it, innermost frame first, as
/// (start of procedure, instruction pointer, stack pointer).
struct Script {
    frames: Vec<(usize, usize, usize)>,
    capture_status: i32,
    init_status: i32,
    /// A failing query: (frame index, which query 0..3, status).
    failing_query: Option<(usize, usize, i32)>,
    /// A failing step: (frame index, status).
    failing_step: Option<(usize, i32)>,
    /// The callback stops after this many frames.
    stop_after: Option<usize>,
}

impl Script {
    fn of(frames: Vec<(usize, usize, usize)>) -> Script {
        Script {
            frames,
            capture_status: 0,
            init_status: 0,
            failing_query: None,
            failing_step: None,
            stop_after: None,
        }
    }
}

struct Run {
    delivered: Vec<Frame>,
    steps: usize,
    init_flags: Vec<i32>,
    registers: Vec<i32>,
    outcome: Result<(), UnwindError>,
}

fn run(abi: ProviderAbi, signal_frame: bool, script: &Script) -> Run {
    let mut walk = CursorWalk::new(abi, signal_frame);
    let mut pos: usize = 0;
    let mut query: usize = 0;
    let mut out = Run {
        delivered: Vec::new(),
        steps: 0,
        init_flags: Vec::new(),
        registers: Vec::new(),
        outcome: Ok(()),
    };
    for _ in 0..1000 {
        let event = match walk.action() {
            Action::CaptureContext => Event::Status(script.capture_status),
            Action::InitCursor { flag } => {
                out.init_flags.push(flag);
                Event::Status(script.init_status)
            }
            Action::QueryProcInfo | Action::QueryRegister { .. } => {
                if let Action::QueryRegister { register } = walk.action() {
                    out.registers.push(register);
                }
                let (start, ip, sp) = script.frames[pos];
                let value = [start, ip, sp][query];
                let status = match script.failing_query {
                    Some((p, q, status)) if p == pos && q == query => status,
                    _ => 0,
                };
                query = (query + 1) % 3;
                Event::Value { status, value }
            }
            Action::Deliver(frame) => {
                out.delivered.push(frame);
                let stop = script.stop_after == Some(out.delivered.len());
                Event::Decision(!stop)
            }
            Action::Step => {
                out.steps += 1;
                let status = match script.failing_step {
                    Some((p, status)) if p == pos => status,
                    _ if pos + 1 < script.frames.len() => 1,
                    _ => 0,
                };
                pos += 1;
                Event::Status(status)
            }
            Action::Finish(outcome) => {
                out.outcome = outcome;
                return out;
            }
        };
        assert!(walk.accepts(&event));
        walk.advance(event);
    }
    panic!("the walk did not finish");
}

fn three_frames() -> Vec<(usize, usize, usize)> {
    vec![(0x3000, 0x3010, 0x7f00), (0x2000, 0x2040, 0x7f40), (0x1000, 0x1080, 0x7f80)]
}

#[test]
fn register_numbers_per_provider() {
    assert_eq!(ProviderAbi::Llvm.ip_register(), -1);
    assert_eq!(ProviderAbi::Llvm.sp_register(), -2);
    assert_eq!(ProviderAbi::NongnuX86_64.ip_register(), 16);
    assert_eq!(ProviderAbi::NongnuX86_64.sp_register(), 7);
    assert_eq!(ProviderAbi::NongnuAarch64.ip_register(), 30);
    assert_eq!(ProviderAbi::NongnuAarch64.sp_register(), 31);
}

#[test]
fn core_word_low_bit_is_cleared() {
    assert_eq!(ip_from_core_word(0x8001), 0x8000);
    assert_eq!(ip_from_core_word(0x8000), 0x8000);
    assert_eq!(ip_from_core_word(u32::MAX), 0xffff_fffe);
    assert_eq!(sp_from_core_word(0x7ff1), 0x7ff1);
}

#[test]
fn symbol_address_by_platform() {
    let apple = SymbolSource::for_platform(true);
    let other = SymbolSource::for_platform(false);
    assert_eq!(apple, SymbolSource::InstructionPointer);
    assert!(!apple.needs_enclosing_query());
    assert!(other.needs_enclosing_query());
    assert_eq!(symbol_address_of(apple, 0x1234, 0x1200), 0x1234);
    assert_eq!(symbol_address_of(other, 0x1234, 0x1200), 0x1200);
}

#[test]
fn detached_frame_keeps_live_queries() {
    let f = Frame::detach_live(SymbolSource::EnclosingFunction, 0x1234, 0x7ff0, 0x1200);
    assert_eq!(f.ip(), 0x1234);
    assert_eq!(f.sp(), 0x7ff0);
    assert_eq!(f.symbol_address(), 0x1200);
    assert_eq!(f.module_base_address(), None);
    let copy = f.clone();
    assert_eq!(copy, Frame::new(0x1234, 0x7ff0, 0x1200));
    let g = Frame::detach_live(SymbolSource::InstructionPointer, 0x1234, 0x7ff0, 0x1200);
    assert_eq!(g.symbol_address(), 0x1234);
}

#[test]
fn step_status_is_classified() {
    assert_eq!(StepResult::from_status(1), StepResult::Success);
    assert_eq!(StepResult::from_status(7), StepResult::Success);
    assert_eq!(StepResult::from_status(0), StepResult::End);
    assert_eq!(StepResult::from_status(-3), StepResult::Error(-3));
}

#[test]
fn signal_frame_flag_word() {
    assert_eq!(init_flag(true), INIT_SIGNAL_FRAME);
    assert_eq!(init_flag(false), 0);
}

#[test]
fn three_level_chain_is_walked_innermost_first() {
    let r = run(ProviderAbi::NongnuX86_64, false, &Script::of(three_frames()));
    assert_eq!(r.outcome, Ok(()));
    assert_eq!(
        r.delivered,
        vec![
            Frame::new(0x3010, 0x7f00, 0x3000),
            Frame::new(0x2040, 0x7f40, 0x2000),
            Frame::new(0x1080, 0x7f80, 0x1000),
        ]
    );
    assert_eq!(r.registers, vec![16, 7, 16, 7, 16, 7]);
    for pair in r.delivered.windows(2) {
        assert!(pair[0].sp() < pair[1].sp());
    }
}

#[test]
fn walk_of_depth_d_takes_d_steps() {
    for depth in 1..6usize {
        let frames: Vec<(usize, usize, usize)> =
            (0..depth).map(|i| (0x1000 * (i + 1), 0x1000 * (i + 1) + 8, 0x7000 + 0x40 * i)).collect();
        let r = run(ProviderAbi::Llvm, false, &Script::of(frames));
        assert_eq!(r.outcome, Ok(()));
        assert_eq!(r.delivered.len(), depth);
        assert_eq!(r.steps, depth);
        assert!(r.steps <= depth + 1);
    }
}

#[test]
fn stop_after_first_frame_delivers_no_more() {
    let mut s = Script::of(three_frames());
    s.stop_after = Some(1);
    let r = run(ProviderAbi::Llvm, false, &s);
    assert_eq!(r.outcome, Ok(()));
    assert_eq!(r.delivered.len(), 1);
    assert_eq!(r.steps, 0);
}

#[test]
fn stop_after_second_frame_delivers_no_more() {
    let mut s = Script::of(three_frames());
    s.stop_after = Some(2);
    let r = run(ProviderAbi::Llvm, false, &s);
    assert_eq!(r.delivered.len(), 2);
    assert_eq!(r.steps, 1);
}

#[test]
fn finished_walk_ignores_further_answers() {
    let mut walk = CursorWalk::new(ProviderAbi::Llvm, false);
    walk.advance(Event::Status(-1));
    assert!(walk.is_done());
    walk.advance(Event::Decision(true));
    walk.advance(Event::Status(1));
    assert!(walk.is_done());
    assert!(matches!(
        walk.action(),
        Action::Finish(Err(UnwindError { stage: UnwindStage::Capture, code: -1 }))
    ));
}

#[test]
fn signal_frame_flag_reaches_only_cursor_init() {
    let with = run(ProviderAbi::NongnuAarch64, true, &Script::of(three_frames()));
    let without = run(ProviderAbi::NongnuAarch64, false, &Script::of(three_frames()));
    assert_eq!(with.init_flags, vec![INIT_SIGNAL_FRAME]);
    assert_eq!(without.init_flags, vec![0]);
    assert_eq!(with.delivered, without.delivered);
    assert!(with.delivered.len() >= without.delivered.len());
    assert_eq!(with.registers, vec![30, 31, 30, 31, 30, 31]);
}

#[test]
fn capture_failure_is_reported() {
    let mut s = Script::of(three_frames());
    s.capture_status = -1;
    let r = run(ProviderAbi::Llvm, false, &s);
    assert_eq!(r.outcome, Err(UnwindError { stage: UnwindStage::Capture, code: -1 }));
    assert!(r.delivered.is_empty());
    assert!(r.init_flags.is_empty());
}

#[test]
fn cursor_init_failure_is_reported() {
    let mut s = Script::of(three_frames());
    s.init_status = -6540;
    let r = run(ProviderAbi::Llvm, true, &s);
    assert_eq!(r.outcome, Err(UnwindError { stage: UnwindStage::CursorInit, code: -6540 }));
    assert!(r.delivered.is_empty());
}

#[test]
fn query_failures_are_reported() {
    for q in 0..3usize {
        let mut s = Script::of(three_frames());
        s.failing_query = Some((1, q, -10 - q as i32));
        let r = run(ProviderAbi::Llvm, false, &s);
        assert_eq!(r.outcome, Err(UnwindError { stage: UnwindStage::Query, code: -10 - q as i32 }));
        assert_eq!(r.delivered.len(), 1);
    }
}

#[test]
fn step_failure_is_reported() {
    let mut s = Script::of(three_frames());
    s.failing_step = Some((0, -2));
    let r = run(ProviderAbi::Llvm, false, &s);
    assert_eq!(r.outcome, Err(UnwindError { stage: UnwindStage::Step, code: -2 }));
    assert_eq!(r.delivered.len(), 1);
    assert_eq!(r.steps, 1);
}

#[test]
fn trampoline_reason_codes() {
    assert_eq!(ReasonCode::for_callback(true), ReasonCode::NoReason);
    assert_eq!(ReasonCode::for_callback(false), ReasonCode::Failure);
    assert!(ReasonCode::for_callback(true).continues_walk());
    assert!(!ReasonCode::for_callback(false).continues_walk());
    assert_eq!(ReasonCode::NoReason.value(), 0);
    assert_eq!(ReasonCode::EndOfStack.value(), 5);
    assert_eq!(ReasonCode::Failure.value(), 9);
    assert!(!ReasonCode::EndOfStack.continues_walk());
}

#[test]
fn guard_is_disarmed_after_callback_returns() {
    let mut g = CallbackGuard::arm();
    assert!(g.must_abort());
    g.disarm();
    assert!(!g.must_abort());
}
