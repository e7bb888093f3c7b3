//! The push-model walk: the provider iterates the stack itself and calls a
//! trampoline once per frame; the trampoline answers with a reason code.
use vstd::prelude::*;

verus! {

/// The provider's reason codes.
#[derive(Clone, Copy, Debug, PartialEq, Eq, Structural)]
pub enum ReasonCode {
    NoReason,
    ForeignExceptionCaught,
    FatalPhase2Error,
    FatalPhase1Error,
    NormalStop,
    EndOfStack,
    HandlerFound,
    InstallContext,
    ContinueUnwind,
    /// Used only by the ARM EABI.
    Failure,
}

pub open spec fn spec_reason_value(r: ReasonCode) -> i32 {
    match r {
        ReasonCode::NoReason => 0,
        ReasonCode::ForeignExceptionCaught => 1,
        ReasonCode::FatalPhase2Error => 2,
        ReasonCode::FatalPhase1Error => 3,
        ReasonCode::NormalStop => 4,
        ReasonCode::EndOfStack => 5,
        ReasonCode::HandlerFound => 6,
        ReasonCode::InstallContext => 7,
        ReasonCode::ContinueUnwind => 8,
        ReasonCode::Failure => 9,
    }
}

pub open spec fn spec_reason_for(keep_going: bool) -> ReasonCode {
    if keep_going {
        ReasonCode::NoReason
    } else {
        ReasonCode::Failure
    }
}

impl ReasonCode {
    /// The number the provider's interface gives the code.
    pub fn value(self) -> (r: i32)
        ensures
            r == spec_reason_value(self),
    {
        match self {
            ReasonCode::NoReason => 0,
            ReasonCode::ForeignExceptionCaught => 1,
            ReasonCode::FatalPhase2Error => 2,
            ReasonCode::FatalPhase1Error => 3,
            ReasonCode::NormalStop => 4,
            ReasonCode::EndOfStack => 5,
            ReasonCode::HandlerFound => 6,
            ReasonCode::InstallContext => 7,
            ReasonCode::ContinueUnwind => 8,
            ReasonCode::Failure => 9,
        }
    }

    /// Whether the provider goes on to the next frame when the trampoline
    /// answers with this code: it does for no other code than `NoReason`.
    pub fn continues_walk(self) -> (r: bool)
        ensures
            r <==> self == ReasonCode::NoReason,
    {
        match self {
            ReasonCode::NoReason => true,
            _ => false,
        }
    }

    /// The trampoline's answer to the provider after the callback answered
    /// `keep_going`. A stop request and an internal failure of the provider
    /// end the walk alike.
    pub fn for_callback(keep_going: bool) -> (r: ReasonCode)
        ensures
            r == spec_reason_for(keep_going),
    {
        if keep_going {
            ReasonCode::NoReason
        } else {
            ReasonCode::Failure
        }
    }
}

/// The trampoline's answer lets the provider go on exactly when the callback
/// asked to go on: after a callback answers `false` the provider is told to
/// stop, so no later frame reaches the callback.
pub proof fn lemma_stop_request_ends_push_walk(keep_going: bool)
    ensures
        (spec_reason_for(keep_going) == ReasonCode::NoReason) <==> keep_going,
        spec_reason_value(spec_reason_for(keep_going)) == 0 <==> keep_going,
{
}

/// A guard armed around a callback run in the middle of a walk. If the
/// callback leaves otherwise than by returning, the guard is still armed when
/// it goes out of scope, and the process has to abort: a second unwind
/// through the provider's own frames is undefined behaviour.
#[derive(Debug)]
pub struct CallbackGuard {
    armed: bool,
}

impl CallbackGuard {
    pub closed spec fn spec_armed(&self) -> bool {
        self.armed
    }

    /// A guard armed before the callback runs.
    pub fn arm() -> (r: CallbackGuard)
        ensures
            r.spec_armed(),
    {
        CallbackGuard { armed: true }
    }

    /// Disarms the guard once the callback has returned.
    pub fn disarm(&mut self)
        ensures
            !final(self).spec_armed(),
    {
        self.armed = false;
    }

    /// Whether leaving the guard's scope now has to abort the process.
    pub fn must_abort(&self) -> (r: bool)
        ensures
            r == self.spec_armed(),
    {
        self.armed
    }
}

} // verus!
