//! Stages of work in the observed application and what each one measured.

use vstd::prelude::*;

use crate::time::Duration;

verus! {

/// A kind of primitive that the renderer prepares and draws.
#[derive(Debug, Clone, Copy, PartialEq, Eq, Structural, PartialOrd, Ord, Hash)]
pub enum Primitive {
    Quad,
    Triangle,
    Shader,
    Text,
    Image,
}

/// The time spent on each kind of primitive in one step of presenting a frame.
#[derive(Debug, Clone, Copy, PartialEq, Eq, Structural)]
pub struct PresentStage {
    pub quads: Duration,
    pub triangles: Duration,
    pub shaders: Duration,
    pub text: Duration,
    pub images: Duration,
}

/// A finished stage of work, with the metrics of that stage.
#[derive(Debug, Clone)]
pub enum Span {
    Boot,
    Update { number: usize, message: String, tasks: usize, subscriptions: usize },
    View { window: u64 },
    Layout { window: u64 },
    Interact { window: u64 },
    Draw { window: u64 },
    Prepare { primitive: Primitive },
    Render { primitive: Primitive },
    Present {
        window: u64,
        prepare: PresentStage,
        render: PresentStage,
        layers: usize,
    },
    Custom { name: String },
}

/// The stage that a span belongs to, window by window.
#[derive(Debug, Clone)]
pub enum Stage {
    Boot,
    Update,
    View(u64),
    Layout(u64),
    Interact(u64),
    Draw(u64),
    Present(u64),
    Prepare(Primitive),
    Render(Primitive),
    Custom(String),
}

impl Span {
    pub open spec fn spec_stage(&self) -> Stage {
        match *self {
            Span::Boot => Stage::Boot,
            Span::Update { .. } => Stage::Update,
            Span::View { window } => Stage::View(window),
            Span::Layout { window } => Stage::Layout(window),
            Span::Interact { window } => Stage::Interact(window),
            Span::Draw { window } => Stage::Draw(window),
            Span::Prepare { primitive } => Stage::Prepare(primitive),
            Span::Render { primitive } => Stage::Render(primitive),
            Span::Present { window, .. } => Stage::Present(window),
            Span::Custom { name } => Stage::Custom(name),
        }
    }

    /// The stage that this span measured.
    #[verifier::when_used_as_spec(spec_stage)]
    pub fn stage(&self) -> (r: Stage)
        ensures
            r == self.spec_stage(),
    {
        match self {
            Span::Boot => Stage::Boot,
            Span::Update { .. } => Stage::Update,
            Span::View { window } => Stage::View(*window),
            Span::Layout { window } => Stage::Layout(*window),
            Span::Interact { window } => Stage::Interact(*window),
            Span::Draw { window } => Stage::Draw(*window),
            Span::Prepare { primitive } => Stage::Prepare(*primitive),
            Span::Render { primitive } => Stage::Render(*primitive),
            Span::Present { window, .. } => Stage::Present(*window),
            Span::Custom { name } => Stage::Custom(name.clone()),
        }
    }
}

} // verus!
