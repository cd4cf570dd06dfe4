use vstd::prelude::*;

use crate::sctk_event::StartCause;

verus! {

/// What the event loop does once the current iteration is over.
///
/// Deadlines are milliseconds on the same clock as `StartCause`.
#[derive(Debug, Clone, Copy, PartialEq, Eq)]
pub enum ControlFlow {
    /// Dispatch without blocking and start the next iteration at once.
    Poll,
    /// Block until the compositor or a timer has something.
    Wait,
    /// Block until new events arrive or the deadline is reached.
    WaitUntil(u64),
    /// Leave the loop with this exit code; this state cannot be left.
    ExitWithCode(i32),
}

/// How the transport is to be dispatched when the loop waits for messages.
#[derive(Debug, Clone, Copy, PartialEq, Eq)]
pub enum DispatchPlan {
    /// Leave the loop with this code, without dispatching.
    Exit(i32),
    /// Dispatch, blocking at most this many milliseconds (`None`: no limit).
    Block(Option<u64>),
}

/// Why a dispatch of the transport failed.
#[derive(Debug, Clone, Copy, PartialEq, Eq)]
pub enum DispatchFailure {
    /// A message could not be parsed.
    BadMessage,
    /// An I/O error, with the operating system's code when there is one.
    Io(Option<i32>),
    /// The compositor reported a protocol error.
    Protocol,
}

/// The phases of one iteration of the loop, in their order, and the end of
/// the loop.
#[derive(Debug, Clone, Copy, PartialEq, Eq, Structural)]
pub enum Phase {
    /// Send the queued requests.
    Flush,
    /// Dispatch what is already buffered, without blocking.
    DispatchPending,
    /// Wait for messages as the control flow allows.
    Wait,
    /// Report the new events, with their cause.
    NewEvents,
    /// Deliver the events of background tasks.
    UserEvents,
    /// Apply the compositor's pending updates and close requests.
    CompositorUpdates,
    /// Drain the sink, surface by surface.
    Sink,
    /// Report that all input was delivered; the application updates.
    MainEventsCleared,
    /// Request the redraws.
    Redraws,
    /// Report that the redraws were requested.
    RedrawEventsCleared,
    /// Report that the loop ends.
    LoopDestroyed,
    /// Nothing more happens.
    Finished,
}

/// The place of a phase in an iteration.
pub open spec fn phase_index(p: Phase) -> int {
    match p {
        Phase::Flush => 0,
        Phase::DispatchPending => 1,
        Phase::Wait => 2,
        Phase::NewEvents => 3,
        Phase::UserEvents => 4,
        Phase::CompositorUpdates => 5,
        Phase::Sink => 6,
        Phase::MainEventsCleared => 7,
        Phase::Redraws => 8,
        Phase::RedrawEventsCleared => 9,
        Phase::LoopDestroyed => 10,
        Phase::Finished => 11,
    }
}

/// The phase after `p`. `stop` says that dispatching failed or that the
/// control flow asks to exit; it counts only where the loop dispatches.
pub open spec fn next_phase(p: Phase, stop: bool) -> Phase {
    match p {
        Phase::Flush => Phase::DispatchPending,
        Phase::DispatchPending => if stop { Phase::LoopDestroyed } else { Phase::Wait },
        Phase::Wait => if stop { Phase::LoopDestroyed } else { Phase::NewEvents },
        Phase::NewEvents => Phase::UserEvents,
        Phase::UserEvents => Phase::CompositorUpdates,
        Phase::CompositorUpdates => Phase::Sink,
        Phase::Sink => Phase::MainEventsCleared,
        Phase::MainEventsCleared => Phase::Redraws,
        Phase::Redraws => Phase::RedrawEventsCleared,
        Phase::RedrawEventsCleared => Phase::Flush,
        Phase::LoopDestroyed => Phase::Finished,
        Phase::Finished => Phase::Finished,
    }
}

/// Where the loop stands, and whether it is still in its first iteration.
#[derive(Debug, Clone, Copy)]
pub struct LoopState {
    pub phase: Phase,
    pub first: bool,
}

impl LoopState {
    /// A loop that has not started.
    pub fn new() -> (r: LoopState)
        ensures
            r.phase == Phase::Flush,
            r.first,
    {
        LoopState { phase: Phase::Flush, first: true }
    }

    /// Moves to the next phase (see `next_phase`); the first iteration is
    /// over once its new events were reported.
    pub fn advance(&mut self, stop: bool)
        ensures
            final(self).phase == next_phase(old(self).phase, stop),
            final(self).first == (old(self).first && old(self).phase != Phase::NewEvents),
            final(self).first ==> old(self).first,
    {
        let next = match self.phase {
            Phase::Flush => Phase::DispatchPending,
            Phase::DispatchPending => if stop { Phase::LoopDestroyed } else { Phase::Wait },
            Phase::Wait => if stop { Phase::LoopDestroyed } else { Phase::NewEvents },
            Phase::NewEvents => Phase::UserEvents,
            Phase::UserEvents => Phase::CompositorUpdates,
            Phase::CompositorUpdates => Phase::Sink,
            Phase::Sink => Phase::MainEventsCleared,
            Phase::MainEventsCleared => Phase::Redraws,
            Phase::Redraws => Phase::RedrawEventsCleared,
            Phase::RedrawEventsCleared => Phase::Flush,
            Phase::LoopDestroyed => Phase::Finished,
            Phase::Finished => Phase::Finished,
        };
        if self.phase == Phase::NewEvents {
            self.first = false;
        }
        self.phase = next;
    }

    /// The cause to report in the new-events phase (see `start_cause`):
    /// `Init` in the first iteration only.
    pub fn start_cause(&self, flow: ControlFlow, start: u64, now: u64) -> (r: StartCause)
        requires
            !(flow is ExitWithCode),
        ensures
            r == if self.first {
                StartCause::Init
            } else {
                start_cause_of(flow, start, now)
            },
    {
        start_cause(flow, self.first, start, now)
    }
}

/// The cause reported with the new events of an iteration that is not the
/// first, from its control flow.
pub open spec fn start_cause_of(flow: ControlFlow, start: u64, now: u64) -> StartCause {
    match flow {
        ControlFlow::Wait => StartCause::WaitCancelled { start, requested_resume: None },
        ControlFlow::WaitUntil(deadline) => if now < deadline {
            StartCause::WaitCancelled { start, requested_resume: Some(deadline) }
        } else {
            StartCause::ResumeTimeReached { start, requested_resume: deadline }
        },
        _ => StartCause::Poll,
    }
}

/// The order of the loop's phases. Until the loop stops, each phase leads to
/// the next one of an iteration, and the last leads back to the first. It
/// stops only where it dispatches; then it reports `LoopDestroyed`, after
/// which nothing is reported, and no phase leads back to `LoopDestroyed`
/// once it is left. (That `Init` is reported in the first iteration only is
/// the contract of `LoopState::advance` and `LoopState::start_cause`: the
/// flag that selects it is never set again once cleared.)
pub proof fn lemma_phase_order(p: Phase, stop: bool)
    ensures
        phase_index(p) < 10 && !stop ==> phase_index(next_phase(p, stop)) == (phase_index(p) + 1) % 10,
        phase_index(p) < 10 && phase_index(next_phase(p, stop)) >= 10 ==> (p == Phase::DispatchPending || p == Phase::Wait)
            && next_phase(p, stop) == Phase::LoopDestroyed,
        phase_index(p) >= 10 ==> next_phase(p, stop) == Phase::Finished,
        next_phase(Phase::Finished, stop) == Phase::Finished,
{
}

/// The control flow after a callback that asked for `requested` while the
/// loop was in `current`: an exit, once entered, is kept.
pub fn sticky_exit(current: ControlFlow, requested: ControlFlow) -> (r: ControlFlow)
    ensures
        current is ExitWithCode ==> r == current,
        !(current is ExitWithCode) ==> r == requested,
{
    match current {
        ControlFlow::ExitWithCode(_) => current,
        _ => requested,
    }
}

/// The exit code for an error that may carry an operating system code: that
/// code, else 1.
pub fn raw_os_err(os_code: Option<i32>) -> (r: i32)
    ensures
        r == match os_code {
            Some(c) => c,
            None => 1i32,
        },
{
    match os_code {
        Some(c) => c,
        None => 1,
    }
}

/// The exit code of the loop after a failed dispatch: the operating system's
/// code of an I/O error when there is one, else 1.
pub fn dispatch_error_code(failure: DispatchFailure) -> (r: i32)
    ensures
        r == match failure {
            DispatchFailure::Io(Some(c)) => c,
            _ => 1i32,
        },
{
    match failure {
        DispatchFailure::Io(code) => raw_os_err(code),
        _ => 1,
    }
}

/// How long the wait for messages may block, from the control flow, whether
/// messages were
/// already waiting (`instant_wakeup`) and the current instant.
pub fn dispatch_plan(flow: ControlFlow, instant_wakeup: bool, now: u64) -> (r: DispatchPlan)
    ensures
        r == match flow {
            ControlFlow::ExitWithCode(c) => DispatchPlan::Exit(c),
            ControlFlow::Poll => DispatchPlan::Block(Some(0u64)),
            ControlFlow::Wait => if instant_wakeup {
                DispatchPlan::Block(Some(0u64))
            } else {
                DispatchPlan::Block(None)
            },
            ControlFlow::WaitUntil(deadline) => if deadline > now && !instant_wakeup {
                DispatchPlan::Block(Some((deadline - now) as u64))
            } else {
                DispatchPlan::Block(Some(0u64))
            },
        },
{
    match flow {
        ControlFlow::ExitWithCode(c) => DispatchPlan::Exit(c),
        ControlFlow::Poll => DispatchPlan::Block(Some(0)),
        ControlFlow::Wait => {
            if instant_wakeup {
                DispatchPlan::Block(Some(0))
            } else {
                DispatchPlan::Block(None)
            }
        },
        ControlFlow::WaitUntil(deadline) => {
            if deadline > now && !instant_wakeup {
                DispatchPlan::Block(Some(deadline - now))
            } else {
                DispatchPlan::Block(Some(0))
            }
        },
    }
}

/// The cause reported with the new events of an iteration: `Init` for the
/// first iteration of the loop; else from the control flow it ran under,
/// the instant it blocked from (`start`) and the instant it resumed (`now`).
pub fn start_cause(flow: ControlFlow, first: bool, start: u64, now: u64) -> (r: StartCause)
    requires
        !(flow is ExitWithCode),
    ensures
        r == if first {
            StartCause::Init
        } else {
            match flow {
                ControlFlow::Wait => StartCause::WaitCancelled { start, requested_resume: None },
                ControlFlow::WaitUntil(deadline) => if now < deadline {
                    StartCause::WaitCancelled { start, requested_resume: Some(deadline) }
                } else {
                    StartCause::ResumeTimeReached { start, requested_resume: deadline }
                },
                _ => StartCause::Poll,
            }
        },
{
    if first {
        return StartCause::Init;
    }
    match flow {
        ControlFlow::Wait => StartCause::WaitCancelled { start, requested_resume: None },
        ControlFlow::WaitUntil(deadline) => {
            if now < deadline {
                StartCause::WaitCancelled { start, requested_resume: Some(deadline) }
            } else {
                StartCause::ResumeTimeReached { start, requested_resume: deadline }
            }
        },
        _ => StartCause::Poll,
    }
}

} // verus!
