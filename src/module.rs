//! The panes of a dashboard board and which events make them stale.

use vstd::prelude::*;

use crate::beacon::span;
use crate::beacon::Event;
use crate::chart::Cache;

verus! {

/// The stage of work that a pane plots; the steps of presenting a frame count
/// as presenting it.
#[derive(Debug, Clone)]
pub enum Stage {
    Boot,
    Update,
    View,
    Layout,
    Interact,
    Draw,
    Present,
    Custom(String),
}

/// The pane stage that a span stage is plotted under.
pub open spec fn module_stage(stage: span::Stage) -> Stage {
    match stage {
        span::Stage::Boot => Stage::Boot,
        span::Stage::Update => Stage::Update,
        span::Stage::View(_) => Stage::View,
        span::Stage::Layout(_) => Stage::Layout,
        span::Stage::Interact(_) => Stage::Interact,
        span::Stage::Draw(_) => Stage::Draw,
        span::Stage::Present(_) => Stage::Present,
        span::Stage::Prepare(_) => Stage::Present,
        span::Stage::Render(_) => Stage::Present,
        span::Stage::Custom(name) => Stage::Custom(name),
    }
}

impl Stage {
    /// Whether two stages plot the same thing.
    pub open spec fn same(self, other: Stage) -> bool {
        match (self, other) {
            (Stage::Boot, Stage::Boot) => true,
            (Stage::Update, Stage::Update) => true,
            (Stage::View, Stage::View) => true,
            (Stage::Layout, Stage::Layout) => true,
            (Stage::Interact, Stage::Interact) => true,
            (Stage::Draw, Stage::Draw) => true,
            (Stage::Present, Stage::Present) => true,
            (Stage::Custom(a), Stage::Custom(b)) => a@ == b@,
            _ => false,
        }
    }

    /// The name under which the stage is shown.
    pub open spec fn label(self) -> Seq<char> {
        match self {
            Stage::Boot => "Boot"@,
            Stage::Update => "Update"@,
            Stage::View => "View"@,
            Stage::Layout => "Layout"@,
            Stage::Interact => "Interact"@,
            Stage::Draw => "Draw"@,
            Stage::Present => "Present"@,
            Stage::Custom(name) => name@,
        }
    }

    /// The name under which the stage is shown.
    pub fn to_string(&self) -> (r: String)
        ensures
            r@ == self.label(),
    {
        match self {
            Stage::Boot => "Boot".to_owned(),
            Stage::Update => "Update".to_owned(),
            Stage::View => "View".to_owned(),
            Stage::Layout => "Layout".to_owned(),
            Stage::Interact => "Interact".to_owned(),
            Stage::Draw => "Draw".to_owned(),
            Stage::Present => "Present".to_owned(),
            Stage::Custom(name) => name.clone(),
        }
    }
}

impl PartialEq for Stage {
    fn eq(&self, other: &Stage) -> (r: bool)
        ensures
            r == self.same(*other),
    {
        match (self, other) {
            (Stage::Boot, Stage::Boot) => true,
            (Stage::Update, Stage::Update) => true,
            (Stage::View, Stage::View) => true,
            (Stage::Layout, Stage::Layout) => true,
            (Stage::Interact, Stage::Interact) => true,
            (Stage::Draw, Stage::Draw) => true,
            (Stage::Present, Stage::Present) => true,
            (Stage::Custom(a), Stage::Custom(b)) => *a == *b,
            _ => false,
        }
    }
}

impl vstd::std_specs::cmp::PartialEqSpecImpl for Stage {
    open spec fn obeys_eq_spec() -> bool {
        true
    }

    open spec fn eq_spec(&self, other: &Stage) -> bool {
        self.same(*other)
    }
}

impl From<span::Stage> for Stage {
    fn from(stage: span::Stage) -> (r: Stage)
        ensures
            r == module_stage(stage),
    {
        match stage {
            span::Stage::Boot => Stage::Boot,
            span::Stage::Update => Stage::Update,
            span::Stage::View(_) => Stage::View,
            span::Stage::Layout(_) => Stage::Layout,
            span::Stage::Interact(_) => Stage::Interact,
            span::Stage::Draw(_) => Stage::Draw,
            span::Stage::Present(_) => Stage::Present,
            span::Stage::Prepare(_) => Stage::Present,
            span::Stage::Render(_) => Stage::Present,
            span::Stage::Custom(name) => Stage::Custom(name),
        }
    }
}

impl vstd::std_specs::convert::FromSpecImpl<span::Stage> for Stage {
    open spec fn obeys_from_spec() -> bool {
        true
    }

    open spec fn from_spec(stage: span::Stage) -> Stage {
        module_stage(stage)
    }
}

/// A pane of a board.
#[derive(Debug)]
pub enum Module {
    PerformanceChart { stage: Stage, cache: Cache },
    CommandsSpawned { cache: Cache },
    SubscriptionsAlive { cache: Cache },
    MessageRate { cache: Cache },
    MessageLog,
}

impl Module {
    /// Whether `event` makes the pane stale.
    pub open spec fn concerns(self, event: Event) -> bool {
        match (self, event) {
            (Module::PerformanceChart { stage, .. }, Event::SpanFinished { span, .. }) => module_stage(
                span.spec_stage(),
            ).same(stage),
            (Module::PerformanceChart { .. }, Event::ThemeChanged { .. }) => true,
            (Module::CommandsSpawned { .. }, Event::SpanFinished { span, .. }) => span is Update,
            (Module::MessageRate { .. }, Event::SpanFinished { span, .. }) => span is Update,
            (Module::SubscriptionsAlive { .. }, Event::SubscriptionsTracked { .. }) => true,
            _ => false,
        }
    }

    /// The pane with its chart still to be drawn.
    pub open spec fn spec_invalidated(self) -> Module {
        match self {
            Module::PerformanceChart { stage, .. } => Module::PerformanceChart {
                stage,
                cache: Cache { drawn: false },
            },
            Module::CommandsSpawned { .. } => Module::CommandsSpawned { cache: Cache { drawn: false } },
            Module::SubscriptionsAlive { .. } => Module::SubscriptionsAlive {
                cache: Cache { drawn: false },
            },
            Module::MessageRate { .. } => Module::MessageRate { cache: Cache { drawn: false } },
            Module::MessageLog => Module::MessageLog,
        }
    }

    pub open spec fn spec_title(self) -> Seq<char> {
        match self {
            Module::PerformanceChart { stage, .. } => stage.label(),
            Module::CommandsSpawned { .. } => "Commands Spawned"@,
            Module::SubscriptionsAlive { .. } => "Subscriptions Alive"@,
            Module::MessageRate { .. } => "Message Rate"@,
            Module::MessageLog => "Message Log"@,
        }
    }

    pub fn performance_chart(stage: Stage) -> (m: Module)
        ensures
            m == (Module::PerformanceChart { stage, cache: Cache { drawn: false } }),
    {
        Module::PerformanceChart { stage, cache: Cache::new() }
    }

    pub fn commands_spawned() -> (m: Module)
        ensures
            m == (Module::CommandsSpawned { cache: Cache { drawn: false } }),
    {
        Module::CommandsSpawned { cache: Cache::new() }
    }

    pub fn subscriptions_alive() -> (m: Module)
        ensures
            m == (Module::SubscriptionsAlive { cache: Cache { drawn: false } }),
    {
        Module::SubscriptionsAlive { cache: Cache::new() }
    }

    pub fn message_rate() -> (m: Module)
        ensures
            m == (Module::MessageRate { cache: Cache { drawn: false } }),
    {
        Module::MessageRate { cache: Cache::new() }
    }

    pub fn message_log() -> (m: Module)
        ensures
            m == Module::MessageLog,
    {
        Module::MessageLog
    }

    /// The title shown above the pane.
    pub fn title(&self) -> (r: String)
        ensures
            r@ == self.spec_title(),
    {
        match self {
            Module::PerformanceChart { stage, .. } => stage.to_string(),
            Module::CommandsSpawned { .. } => "Commands Spawned".to_owned(),
            Module::SubscriptionsAlive { .. } => "Subscriptions Alive".to_owned(),
            Module::MessageRate { .. } => "Message Rate".to_owned(),
            Module::MessageLog => "Message Log".to_owned(),
        }
    }

    /// Clears the pane's chart.
    pub fn invalidate(&mut self)
        ensures
            *final(self) == old(self).spec_invalidated(),
    {
        match self {
            Module::PerformanceChart { cache, .. } => {
                cache.clear();
            },
            Module::CommandsSpawned { cache } => {
                cache.clear();
            },
            Module::SubscriptionsAlive { cache } => {
                cache.clear();
            },
            Module::MessageRate { cache } => {
                cache.clear();
            },
            Module::MessageLog => {},
        }
    }

    /// Clears the pane's chart if `event` concerns it.
    pub fn invalidate_by(&mut self, event: &Event)
        ensures
            *final(self) == if old(self).concerns(*event) {
                old(self).spec_invalidated()
            } else {
                *old(self)
            },
    {
        let should_invalidate = match (&*self, event) {
            (Module::PerformanceChart { stage, .. }, Event::SpanFinished { span, .. }) => Stage::from(
                span.stage(),
            ) == *stage,
            (Module::PerformanceChart { .. }, Event::ThemeChanged { .. }) => true,
            (Module::CommandsSpawned { .. }, Event::SpanFinished { span, .. }) => {
                matches!(span, span::Span::Update { .. })
            },
            (Module::MessageRate { .. }, Event::SpanFinished { span, .. }) => {
                matches!(span, span::Span::Update { .. })
            },
            (Module::SubscriptionsAlive { .. }, Event::SubscriptionsTracked { .. }) => true,
            _ => false,
        };
        if should_invalidate {
            self.invalidate();
        }
    }
}

} // verus!
