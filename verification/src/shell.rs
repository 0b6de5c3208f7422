//! Decisions of the application shell: what each event class makes the
//! event loop do, when the loop shuts down, and how the display-scaling
//! override is treated during startup.
//!
//! The shell itself owns the window, the GUI context and the loop; it asks
//! these functions what to do and performs the answer.

use vstd::prelude::*;

verus! {

/// Width of the image panel, in logical units.
pub const IMAGE_PANEL_WIDTH: u32 = 533;

/// Height of the image panel, in logical units.
pub const IMAGE_PANEL_HEIGHT: u32 = 548;

/// Where the shell stands: starting up, serving the event loop, or leaving it.
#[derive(Clone, Copy, Debug, PartialEq, Eq, Structural)]
pub enum Phase {
    /// Window, contexts and renderer are still being created.
    Initializing,
    /// The per-event loop is being served.
    Running,
    /// The loop has ended; the process exits.
    ShuttingDown,
}

/// The classes of events the loop distinguishes.
#[derive(Clone, Copy, Debug, PartialEq, Eq, Structural)]
pub enum LoopEvent {
    /// A new frame begins.
    Tick,
    /// All pending events are handled; the frame can be prepared.
    PreparePaint,
    /// A redraw was requested.
    Paint,
    /// The window was asked to close.
    CloseRequested,
    /// Any other platform event: input, resize, focus.
    Other,
}

/// What the shell does in answer to one event.
#[derive(Clone, Copy, Debug, PartialEq, Eq, Structural)]
pub enum LoopAction {
    /// Advance the delta-time clock the GUI reads.
    AdvanceClock,
    /// Prepare the GUI's input state, then ask for a redraw.
    PrepareAndRequestRedraw,
    /// Build the GUI frame, run the user callback, composite and present.
    PaintFrame,
    /// Leave the event loop.
    Exit,
    /// Hand the event to the platform integration unread.
    ForwardToPlatform,
    /// Do nothing: the loop is not running.
    Ignore,
}

/// The phase after an event: only a close request while running changes it,
/// to shutting down. The other phases never move by themselves.
pub open spec fn next_phase(p: Phase, e: LoopEvent) -> Phase {
    match p {
        Phase::Running => match e {
            LoopEvent::CloseRequested => Phase::ShuttingDown,
            _ => Phase::Running,
        },
        _ => p,
    }
}

/// The action one event earns while the loop runs.
pub open spec fn running_action(e: LoopEvent) -> LoopAction {
    match e {
        LoopEvent::Tick => LoopAction::AdvanceClock,
        LoopEvent::PreparePaint => LoopAction::PrepareAndRequestRedraw,
        LoopEvent::Paint => LoopAction::PaintFrame,
        LoopEvent::CloseRequested => LoopAction::Exit,
        LoopEvent::Other => LoopAction::ForwardToPlatform,
    }
}

/// One step of the event loop: the next phase and the action to perform.
/// While running, each event class maps to its fixed action and only a close
/// request leaves the loop; outside the running phase nothing is done.
pub fn step(p: Phase, e: LoopEvent) -> (r: (Phase, LoopAction))
    ensures
        r.0 == next_phase(p, e),
        r.1 == (if p == Phase::Running {
            running_action(e)
        } else {
            LoopAction::Ignore
        }),
        r.1 == LoopAction::Exit <==> p == Phase::Running && e == LoopEvent::CloseRequested,
{
    match p {
        Phase::Running => match e {
            LoopEvent::Tick => (Phase::Running, LoopAction::AdvanceClock),
            LoopEvent::PreparePaint => (Phase::Running, LoopAction::PrepareAndRequestRedraw),
            LoopEvent::Paint => (Phase::Running, LoopAction::PaintFrame),
            LoopEvent::CloseRequested => (Phase::ShuttingDown, LoopAction::Exit),
            LoopEvent::Other => (Phase::Running, LoopAction::ForwardToPlatform),
        },
        _ => (p, LoopAction::Ignore),
    }
}

/// How the display-scaling override is treated when the platform integration
/// is attached.
#[derive(Clone, Copy, Debug, PartialEq, Eq, Structural)]
pub enum ScaleDecision {
    /// No override is set: the platform's own factor is used.
    UseSystemFactor,
    /// The override parsed as a number: lock the factor to it.
    LockToOverride,
    /// The override is set but not numeric: fatal, the shell must abort
    /// before any window appears.
    RejectOverride,
}

/// Decides the display-scaling mode from the override's presence and whether
/// its text parsed as a number. Rejection happens exactly when an override
/// is present and did not parse.
pub fn scale_decision(override_present: bool, parse_ok: bool) -> (r: ScaleDecision)
    ensures
        r == (if !override_present {
            ScaleDecision::UseSystemFactor
        } else if parse_ok {
            ScaleDecision::LockToOverride
        } else {
            ScaleDecision::RejectOverride
        }),
        r == ScaleDecision::RejectOverride <==> override_present && !parse_ok,
{
    if !override_present {
        ScaleDecision::UseSystemFactor
    } else if parse_ok {
        ScaleDecision::LockToOverride
    } else {
        ScaleDecision::RejectOverride
    }
}

} // verus!
