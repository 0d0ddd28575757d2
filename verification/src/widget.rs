//! The widget adapter: what the widget does on the events that its host
//! sends it.
//!
//! The adapter arms one repaint timer when the widget is connected to its
//! window and keeps the token of that timer. It acts on no other event: a
//! timer that fires is neither armed again nor answered with a repaint.

use vstd::prelude::*;

verus! {

/// Interval of the repaint timer, in milliseconds.
pub const TIMER_INTERVAL_MS: u64 = 10;

/// Identifies a timer of the host. The raw value 0 identifies none.
#[derive(Clone, Copy, Debug, PartialEq, Eq, Structural)]
pub struct TimerToken {
    /// The raw value of the token.
    pub raw: u64,
}

impl TimerToken {
    /// Whether the token identifies no timer.
    pub open spec fn is_invalid(self) -> bool {
        self.raw == 0
    }

    /// The token that identifies no timer.
    pub fn invalid() -> (token: TimerToken)
        ensures
            token.is_invalid(),
            token == (TimerToken { raw: 0 }),
    {
        TimerToken { raw: 0 }
    }
}

/// An event that the host sends to the widget.
#[derive(Clone, Copy, Debug, PartialEq, Eq, Structural)]
pub enum WidgetEvent {
    /// The widget was connected to its window.
    WindowConnected,
    /// The timer with this token fired.
    Timer(TimerToken),
    /// The widget entered another stage of its life cycle.
    LifeCycle,
    /// The data that the widget is bound to changed.
    Update,
    /// Any other event.
    Other,
}

/// What the widget asks of its host in answer to an event.
#[derive(Clone, Copy, Debug, PartialEq, Eq, Structural)]
pub enum WidgetAction {
    /// Arm a timer that fires after this many milliseconds.
    RequestTimer { interval_ms: u64 },
    /// Nothing.
    Nothing,
}

/// The answer of the widget to `event`: a timer on connection, and nothing
/// on anything else.
pub open spec fn reaction(event: WidgetEvent) -> WidgetAction {
    match event {
        WidgetEvent::WindowConnected => WidgetAction::RequestTimer {
            interval_ms: TIMER_INTERVAL_MS,
        },
        _ => WidgetAction::Nothing,
    }
}

/// The state of the widget: the token of its repaint timer.
#[derive(Clone, Copy, Debug, PartialEq, Eq, Structural)]
pub struct WidgetAdapter {
    timer_id: TimerToken,
}

impl WidgetAdapter {
    /// The token of the repaint timer.
    pub closed spec fn spec_timer_id(&self) -> TimerToken {
        self.timer_id
    }

    /// A widget that is not connected yet: it has no timer.
    pub fn new() -> (widget: Self)
        ensures
            widget.timer_id().is_invalid(),
    {
        WidgetAdapter { timer_id: TimerToken::invalid() }
    }

    /// The token of the repaint timer.
    #[verifier::when_used_as_spec(spec_timer_id)]
    pub fn timer_id(&self) -> (token: TimerToken)
        ensures
            token == self.spec_timer_id(),
    {
        self.timer_id
    }

    /// Answers an event of the host. The widget asks for its timer when it
    /// is connected, and for nothing on any other event.
    pub fn event(&self, event: WidgetEvent) -> (action: WidgetAction)
        ensures
            action == reaction(event),
            action is RequestTimer <==> event is WindowConnected,
    {
        match event {
            WidgetEvent::WindowConnected => WidgetAction::RequestTimer {
                interval_ms: TIMER_INTERVAL_MS,
            },
            _ => WidgetAction::Nothing,
        }
    }

    /// Keeps the token of the timer that the host armed on request.
    pub fn timer_armed(&mut self, token: TimerToken)
        ensures
            final(self).timer_id() == token,
    {
        self.timer_id = token;
    }
}

} // verus!
