use vstd::prelude::*;

use crate::beacon::span::Span;
use crate::beacon::Event;
use crate::chart;

verus! {

/// The two charts of one kind of primitive: preparing it and rendering it.
#[derive(Debug, Clone, Copy, PartialEq, Eq, Structural)]
pub struct Cache {
    pub prepare: chart::Cache,
    pub render: chart::Cache,
}

impl Cache {
    pub open spec fn blank() -> Cache {
        Cache { prepare: chart::Cache { drawn: false }, render: chart::Cache { drawn: false } }
    }

    pub fn new() -> (c: Cache)
        ensures
            c == Cache::blank(),
    {
        Cache { prepare: chart::Cache::new(), render: chart::Cache::new() }
    }

    pub fn clear(&mut self)
        ensures
            *final(self) == Cache::blank(),
    {
        self.prepare.clear();
        self.render.clear();
    }
}

/// An optional pair of charts after it was cleared.
pub open spec fn cleared(cache: Option<Cache>) -> Option<Cache> {
    match cache {
        Some(_) => Some(Cache::blank()),
        None => None,
    }
}

/// The charts of presenting a frame. The charts of triangles, shaders and
/// images appear once a frame has spent time on them.
#[derive(Debug, Clone, Copy, PartialEq, Eq, Structural)]
pub struct Present {
    pub present: chart::Cache,
    pub layers: chart::Cache,
    pub quad: Cache,
    pub triangle: Option<Cache>,
    pub shader: Option<Cache>,
    pub image: Option<Cache>,
    pub text: Cache,
}

fn clear_optional(cache: &mut Option<Cache>)
    ensures
        *final(cache) == cleared(*old(cache)),
{
    if let Some(c) = cache {
        c.clear();
    }
}

impl Present {
    /// The screen with the charts that every frame has, still to be drawn.
    pub open spec fn blank() -> Present {
        Present {
            present: chart::Cache { drawn: false },
            layers: chart::Cache { drawn: false },
            quad: Cache::blank(),
            triangle: None,
            shader: None,
            image: None,
            text: Cache::blank(),
        }
    }

    /// The screen as it stands after every chart was cleared.
    pub open spec fn spec_invalidated(self) -> Present {
        Present {
            present: chart::Cache { drawn: false },
            layers: chart::Cache { drawn: false },
            quad: Cache::blank(),
            triangle: cleared(self.triangle),
            shader: cleared(self.shader),
            image: cleared(self.image),
            text: Cache::blank(),
        }
    }

    pub open spec fn spec_invalidated_by(self, event: Event) -> Present {
        match event {
            Event::SpanFinished { span: Span::Present { prepare, .. }, .. } => Present {
                triangle: if self.triangle is Some || !prepare.triangles.spec_is_zero() {
                    Some(Cache::blank())
                } else {
                    None
                },
                shader: if self.shader is Some || !prepare.shaders.spec_is_zero() {
                    Some(Cache::blank())
                } else {
                    None
                },
                image: if self.image is Some || !prepare.images.spec_is_zero() {
                    Some(Cache::blank())
                } else {
                    None
                },
                ..self.spec_invalidated()
            },
            Event::ThemeChanged { .. } => self.spec_invalidated(),
            _ => self,
        }
    }

    pub fn new() -> (p: Present)
        ensures
            p == Present::blank(),
    {
        Present {
            present: chart::Cache::new(),
            layers: chart::Cache::new(),
            quad: Cache::new(),
            triangle: None,
            shader: None,
            image: None,
            text: Cache::new(),
        }
    }

    /// Clears every chart.
    pub fn invalidate(&mut self)
        ensures
            *final(self) == old(self).spec_invalidated(),
    {
        self.present.clear();
        self.layers.clear();
        self.quad.clear();
        self.text.clear();
        clear_optional(&mut self.triangle);
        clear_optional(&mut self.shader);
        clear_optional(&mut self.image);
    }

    /// Clears the charts that `event` concerns, adding the charts of the
    /// primitives that a presented frame spent time on.
    pub fn invalidate_by(&mut self, event: &Event)
        ensures
            *final(self) == old(self).spec_invalidated_by(*event),
    {
        match event {
            Event::SpanFinished { span: Span::Present { prepare, .. }, .. } => {
                self.present.clear();
                self.layers.clear();
                if self.triangle.is_none() && !prepare.triangles.is_zero() {
                    self.triangle = Some(Cache::new());
                }
                if self.shader.is_none() && !prepare.shaders.is_zero() {
                    self.shader = Some(Cache::new());
                }
                if self.image.is_none() && !prepare.images.is_zero() {
                    self.image = Some(Cache::new());
                }
                self.quad.clear();
                clear_optional(&mut self.triangle);
                clear_optional(&mut self.shader);
                clear_optional(&mut self.image);
                self.text.clear();
            },
            Event::ThemeChanged { .. } => {
                self.invalidate();
            },
            _ => {},
        }
    }
}

} // verus!
