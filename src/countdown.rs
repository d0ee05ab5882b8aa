//! The countdown controller: a state machine that turns pump and shutdown
//! flags, wake-ups and timer ticks into what the display should show.
//!
//! The caller owns the timer, the wake-up signal and the display. It hands
//! each event to [`step`] together with the current flags, performs the
//! returned display action, and stops once the state is `Terminated`.
use vstd::prelude::*;

verus! {

/// Frames in one countdown session: ticks 0 to 98.
pub const TICK_COUNT: u8 = 99;

/// Where the controller stands.
#[derive(Clone, Copy, Debug, PartialEq, Eq, Structural)]
pub enum ControllerState {
    /// Waiting for a start signal.
    Idle,
    /// In a session; `next_tick` is the frame that the next tick shows.
    Counting { next_tick: u8 },
    /// Stopped for good, with the display cleared.
    Terminated,
}

/// What woke the controller.
#[derive(Clone, Copy, Debug, PartialEq, Eq, Structural)]
pub enum ControllerEvent {
    /// The start/shutdown signal was delivered.
    Woken,
    /// A tick boundary of the session's one-second timer was reached.
    TickDue,
}

/// The shared flags as read when the event is handled.
#[derive(Clone, Copy, Debug, PartialEq, Eq, Structural)]
pub struct PumpFlags {
    /// Whether the pump was on at the last decoded reading.
    pub running: bool,
    /// Whether shutdown has been requested.
    pub shutting_down: bool,
}

/// What the display should do.
#[derive(Clone, Copy, Debug, PartialEq, Eq, Structural)]
pub enum DisplayAction {
    /// Leave the display as it is.
    Nothing,
    /// Clear the display, draw the digits and flush. The tens digit is absent
    /// when it is zero (leading zeros are left blank).
    Render { tens: Option<u8>, units: u8 },
    /// Clear the display and flush it.
    Clear,
}

/// The controller's next state and the display action that goes with it.
#[derive(Clone, Copy, Debug, PartialEq, Eq, Structural)]
pub struct Transition {
    pub state: ControllerState,
    pub action: DisplayAction,
}

/// A state that the controller can be in: a session never goes past its last frame.
pub open spec fn state_wf(s: ControllerState) -> bool {
    match s {
        ControllerState::Counting { next_tick } => next_tick <= TICK_COUNT,
        _ => true,
    }
}

/// The frame shown for tick `t`: its tens digit, blank when zero, and its units digit.
pub open spec fn frame_of(t: u8) -> DisplayAction {
    DisplayAction::Render {
        tens: if t / 10 == 0 { None } else { Some((t / 10) as u8) },
        units: (t % 10) as u8,
    }
}

/// How the controller reacts to `event` in `state` when the flags read `flags`.
pub open spec fn step_spec(
    state: ControllerState,
    event: ControllerEvent,
    flags: PumpFlags,
) -> Transition {
    match state {
        ControllerState::Idle => match event {
            ControllerEvent::Woken => if flags.shutting_down {
                Transition { state: ControllerState::Terminated, action: DisplayAction::Clear }
            } else {
                Transition {
                    state: ControllerState::Counting { next_tick: 0 },
                    action: DisplayAction::Nothing,
                }
            },
            ControllerEvent::TickDue => Transition { state, action: DisplayAction::Nothing },
        },
        ControllerState::Counting { next_tick } => match event {
            ControllerEvent::Woken => Transition { state, action: DisplayAction::Nothing },
            ControllerEvent::TickDue => if !flags.running || flags.shutting_down
                || next_tick >= TICK_COUNT {
                Transition { state: ControllerState::Idle, action: DisplayAction::Clear }
            } else {
                Transition {
                    state: ControllerState::Counting { next_tick: (next_tick + 1) as u8 },
                    action: frame_of(next_tick),
                }
            },
        },
        ControllerState::Terminated => Transition { state, action: DisplayAction::Nothing },
    }
}

/// The display action for frame `t`.
fn frame(t: u8) -> (r: DisplayAction)
    ensures
        r == frame_of(t),
{
    let tens = t / 10;
    DisplayAction::Render { tens: if tens == 0 { None } else { Some(tens) }, units: t % 10 }
}

/// Handles one event.
///
/// From `Idle`, a wake-up starts a session at frame 0, or, once shutdown has
/// been requested, clears the display and terminates. In a session each
/// tick first checks the flags: with the pump off, shutdown requested or
/// all frames shown it clears the display and goes back to `Idle`;
/// otherwise it renders the next frame. `Terminated` never changes.
pub fn step(state: ControllerState, event: ControllerEvent, flags: PumpFlags) -> (t: Transition)
    ensures
        t == step_spec(state, event, flags),
        state_wf(state) ==> state_wf(t.state),
{
    match state {
        ControllerState::Idle => match event {
            ControllerEvent::Woken => if flags.shutting_down {
                Transition { state: ControllerState::Terminated, action: DisplayAction::Clear }
            } else {
                Transition {
                    state: ControllerState::Counting { next_tick: 0 },
                    action: DisplayAction::Nothing,
                }
            },
            ControllerEvent::TickDue => Transition { state, action: DisplayAction::Nothing },
        },
        ControllerState::Counting { next_tick } => match event {
            ControllerEvent::Woken => Transition { state, action: DisplayAction::Nothing },
            ControllerEvent::TickDue => if !flags.running || flags.shutting_down
                || next_tick >= TICK_COUNT {
                Transition { state: ControllerState::Idle, action: DisplayAction::Clear }
            } else {
                Transition {
                    state: ControllerState::Counting { next_tick: next_tick + 1 },
                    action: frame(next_tick),
                }
            },
        },
        ControllerState::Terminated => Transition { state, action: DisplayAction::Nothing },
    }
}

impl ControllerState {
    /// Whether the controller has stopped for good.
    pub fn is_terminated(&self) -> (r: bool)
        ensures
            r == (*self is Terminated),
    {
        match self {
            ControllerState::Terminated => true,
            _ => false,
        }
    }
}

/// A start signal that reaches the idle controller starts a session at its
/// first frame, unless shutdown has been requested.
pub proof fn lemma_signal_starts_session(flags: PumpFlags)
    requires
        !flags.shutting_down,
    ensures
        step_spec(ControllerState::Idle, ControllerEvent::Woken, flags).state
            == (ControllerState::Counting { next_tick: 0 }),
{
}

/// A further start signal during a session starts nothing new: the session
/// goes on where it was.
pub proof fn lemma_signal_during_session_ignored(next_tick: u8, flags: PumpFlags)
    ensures
        step_spec(ControllerState::Counting { next_tick }, ControllerEvent::Woken, flags) == (
        Transition {
            state: ControllerState::Counting { next_tick },
            action: DisplayAction::Nothing,
        }),
{
}

/// With the pump off, the next tick of a session renders nothing: the session
/// ends, the display is cleared and the controller is idle again.
pub proof fn lemma_pump_off_aborts_session(next_tick: u8, flags: PumpFlags)
    requires
        !flags.running,
    ensures
        step_spec(ControllerState::Counting { next_tick }, ControllerEvent::TickDue, flags) == (
        Transition { state: ControllerState::Idle, action: DisplayAction::Clear }),
{
}

/// Shutdown requested while idle: the wake-up leads straight to
/// `Terminated` with the display cleared, never to a session.
pub proof fn lemma_shutdown_while_idle(flags: PumpFlags)
    requires
        flags.shutting_down,
    ensures
        step_spec(ControllerState::Idle, ControllerEvent::Woken, flags) == (Transition {
            state: ControllerState::Terminated,
            action: DisplayAction::Clear,
        }),
{
}

/// Shutdown requested during a session: the next tick ends the session with
/// the display cleared, and the wake-up that follows terminates, clearing
/// the display once more.
pub proof fn lemma_shutdown_while_counting(next_tick: u8, flags: PumpFlags)
    requires
        flags.shutting_down,
    ensures
        step_spec(ControllerState::Counting { next_tick }, ControllerEvent::TickDue, flags) == (
        Transition { state: ControllerState::Idle, action: DisplayAction::Clear }),
        step_spec(ControllerState::Idle, ControllerEvent::Woken, flags) == (Transition {
            state: ControllerState::Terminated,
            action: DisplayAction::Clear,
        }),
{
}

/// Once shutdown has been requested, no event in any state renders a frame.
pub proof fn lemma_no_frame_after_shutdown(
    state: ControllerState,
    event: ControllerEvent,
    flags: PumpFlags,
)
    requires
        flags.shutting_down,
    ensures
        !(step_spec(state, event, flags).action is Render),
{
}

/// `Terminated` is final: whatever happens, it stays and the display is left alone.
pub proof fn lemma_terminated_is_final(event: ControllerEvent, flags: PumpFlags)
    ensures
        step_spec(ControllerState::Terminated, event, flags) == (Transition {
            state: ControllerState::Terminated,
            action: DisplayAction::Nothing,
        }),
{
}

/// Every way out of a session goes through a cleared display.
pub proof fn lemma_session_exit_clears(
    next_tick: u8,
    event: ControllerEvent,
    flags: PumpFlags,
)
    ensures
        !(step_spec(ControllerState::Counting { next_tick }, event, flags).state is Counting)
            ==> step_spec(ControllerState::Counting { next_tick }, event, flags).action
            == DisplayAction::Clear,
{
}

} // verus!
