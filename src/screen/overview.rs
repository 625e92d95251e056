use vstd::prelude::*;

use crate::beacon::Event;
use crate::chart::{redraws, Cache, Stage};

verus! {

/// One chart for each stage of a frame.
#[derive(Debug, Clone, Copy, PartialEq, Eq, Structural)]
pub struct Overview {
    pub update: Cache,
    pub view: Cache,
    pub layout: Cache,
    pub interact: Cache,
    pub draw: Cache,
    pub present: Cache,
}

/// A cache after `event`: cleared where the event concerns its chart.
pub open spec fn after(cache: Cache, event: Event, stage: Stage) -> Cache {
    Cache { drawn: cache.drawn && !redraws(event, stage) }
}

impl Overview {
    pub open spec fn spec_invalidated_by(self, event: Event) -> Overview {
        Overview {
            update: after(self.update, event, Stage::Update),
            view: after(self.view, event, Stage::View),
            layout: after(self.layout, event, Stage::Layout),
            interact: after(self.interact, event, Stage::Interact),
            draw: after(self.draw, event, Stage::Draw),
            present: after(self.present, event, Stage::Present),
        }
    }

    pub fn new() -> (o: Overview)
        ensures
            o == Overview::blank(),
    {
        Overview {
            update: Cache::new(),
            view: Cache::new(),
            layout: Cache::new(),
            interact: Cache::new(),
            draw: Cache::new(),
            present: Cache::new(),
        }
    }

    /// Clears every chart.
    pub fn invalidate(&mut self)
        ensures
            *final(self) == Overview::blank(),
    {
        self.update.clear();
        self.view.clear();
        self.layout.clear();
        self.interact.clear();
        self.draw.clear();
        self.present.clear();
    }

    /// The overview with every chart still to be drawn.
    pub open spec fn blank() -> Overview {
        Overview {
            update: Cache { drawn: false },
            view: Cache { drawn: false },
            layout: Cache { drawn: false },
            interact: Cache { drawn: false },
            draw: Cache { drawn: false },
            present: Cache { drawn: false },
        }
    }

    /// Clears the charts that `event` concerns.
    pub fn invalidate_by(&mut self, event: &Event)
        ensures
            *final(self) == old(self).spec_invalidated_by(*event),
    {
        match event {
            Event::SpanFinished { span, .. } => match span {
                crate::beacon::span::Span::Update { .. } => {
                    self.update.clear();
                },
                crate::beacon::span::Span::View { .. } => {
                    self.view.clear();
                },
                crate::beacon::span::Span::Layout { .. } => {
                    self.layout.clear();
                },
                crate::beacon::span::Span::Interact { .. } => {
                    self.interact.clear();
                },
                crate::beacon::span::Span::Draw { .. } => {
                    self.draw.clear();
                },
                crate::beacon::span::Span::Present { .. } => {
                    self.present.clear();
                },
                _ => {},
            },
            Event::ThemeChanged { .. } => {
                self.invalidate();
            },
            _ => {},
        }
    }
}

} // verus!
