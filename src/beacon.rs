//! The events that an instrumented application reports.

pub mod span;

use vstd::prelude::*;

use crate::beacon::span::Span;
use crate::time::{Duration, Time};

verus! {

/// Something that happened in the observed application, stamped with the
/// wall-clock time at which it was reported.
#[derive(Debug, Clone)]
pub enum Event {
    /// The application identified itself.
    Connected { at: Time, name: String, version: String, can_time_travel: bool },
    /// The connection to the application was lost.
    Disconnected { at: Time },
    /// The application switched to another palette.
    ThemeChanged { at: Time },
    /// A stage of work finished after running for `duration`.
    SpanFinished { at: Time, duration: Duration, span: Span },
    /// A sample of how many subscriptions are alive.
    SubscriptionsTracked { at: Time, amount_alive: usize },
    /// The application asked the viewer to quit.
    QuitRequested { at: Time },
    /// Another viewer is already running.
    AlreadyRunning { at: Time },
}

impl Event {
    pub open spec fn spec_at(&self) -> Time {
        match *self {
            Event::Connected { at, .. } => at,
            Event::Disconnected { at } => at,
            Event::ThemeChanged { at } => at,
            Event::SpanFinished { at, .. } => at,
            Event::SubscriptionsTracked { at, .. } => at,
            Event::QuitRequested { at } => at,
            Event::AlreadyRunning { at } => at,
        }
    }

    /// When the event was reported.
    #[verifier::when_used_as_spec(spec_at)]
    pub fn at(&self) -> (r: Time)
        ensures
            r == self.spec_at(),
    {
        match self {
            Event::Connected { at, .. } => *at,
            Event::Disconnected { at } => *at,
            Event::ThemeChanged { at } => *at,
            Event::SpanFinished { at, .. } => *at,
            Event::SubscriptionsTracked { at, .. } => *at,
            Event::QuitRequested { at } => *at,
            Event::AlreadyRunning { at } => *at,
        }
    }

    /// Whether the event is the end of an update span.
    pub open spec fn is_update(&self) -> bool {
        &&& self is SpanFinished
        &&& self->SpanFinished_span is Update
    }
}

} // verus!
