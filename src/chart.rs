//! What the charts of the viewer plot, and how they are scaled.

use vstd::prelude::*;

use crate::beacon::span::{self, Primitive, Span};
use crate::beacon::Event;
use crate::time::Duration;
use crate::timeline::{collect, keep, lemma_collect_unfold, Index, Playhead, Timeline};

verus! {

/// A message from a chart to the viewer.
#[derive(Debug, Clone, Copy, PartialEq, Eq, Structural)]
pub enum Interaction {
    Hovered(Index),
    Unhovered,
    ZoomChanged(Zoom),
}

/// The stage of work that a performance chart plots. Windows are not told apart.
#[derive(Debug, Clone)]
pub enum Stage {
    Boot,
    Update,
    View,
    Layout,
    Interact,
    Draw,
    Present,
    Prepare(Primitive),
    Render(Primitive),
    Custom(String),
}

/// The chart stage that a span stage is plotted under.
pub open spec fn chart_stage(stage: span::Stage) -> Stage {
    match stage {
        span::Stage::Boot => Stage::Boot,
        span::Stage::Update => Stage::Update,
        span::Stage::View(_) => Stage::View,
        span::Stage::Layout(_) => Stage::Layout,
        span::Stage::Interact(_) => Stage::Interact,
        span::Stage::Draw(_) => Stage::Draw,
        span::Stage::Present(_) => Stage::Present,
        span::Stage::Prepare(primitive) => Stage::Prepare(primitive),
        span::Stage::Render(primitive) => Stage::Render(primitive),
        span::Stage::Custom(name) => Stage::Custom(name),
    }
}

impl Stage {
    /// Whether two stages plot the same thing: the same variant, the same
    /// primitive, or custom stages of the same name.
    pub open spec fn same(self, other: Stage) -> bool {
        match (self, other) {
            (Stage::Boot, Stage::Boot) => true,
            (Stage::Update, Stage::Update) => true,
            (Stage::View, Stage::View) => true,
            (Stage::Layout, Stage::Layout) => true,
            (Stage::Interact, Stage::Interact) => true,
            (Stage::Draw, Stage::Draw) => true,
            (Stage::Present, Stage::Present) => true,
            (Stage::Prepare(a), Stage::Prepare(b)) => a == b,
            (Stage::Render(a), Stage::Render(b)) => a == b,
            (Stage::Custom(a), Stage::Custom(b)) => a@ == b@,
            _ => false,
        }
    }
}

impl PartialEq for Stage {
    fn eq(&self, other: &Stage) -> (r: bool)
        ensures
            r == self.same(*other),
    {
        match (self, other) {
            (Stage::Boot, Stage::Boot) => true,
            (Stage::Update, Stage::Update) => true,
            (Stage::View, Stage::View) => true,
            (Stage::Layout, Stage::Layout) => true,
            (Stage::Interact, Stage::Interact) => true,
            (Stage::Draw, Stage::Draw) => true,
            (Stage::Present, Stage::Present) => true,
            (Stage::Prepare(a), Stage::Prepare(b)) => *a == *b,
            (Stage::Render(a), Stage::Render(b)) => *a == *b,
            (Stage::Custom(a), Stage::Custom(b)) => *a == *b,
            _ => false,
        }
    }
}

impl vstd::std_specs::cmp::PartialEqSpecImpl for Stage {
    open spec fn obeys_eq_spec() -> bool {
        true
    }

    open spec fn eq_spec(&self, other: &Stage) -> bool {
        self.same(*other)
    }
}

impl From<span::Stage> for Stage {
    fn from(stage: span::Stage) -> (r: Stage)
        ensures
            r == chart_stage(stage),
    {
        match stage {
            span::Stage::Boot => Stage::Boot,
            span::Stage::Update => Stage::Update,
            span::Stage::View(_) => Stage::View,
            span::Stage::Layout(_) => Stage::Layout,
            span::Stage::Interact(_) => Stage::Interact,
            span::Stage::Draw(_) => Stage::Draw,
            span::Stage::Present(_) => Stage::Present,
            span::Stage::Prepare(primitive) => Stage::Prepare(primitive),
            span::Stage::Render(primitive) => Stage::Render(primitive),
            span::Stage::Custom(name) => Stage::Custom(name),
        }
    }
}

impl vstd::std_specs::convert::FromSpecImpl<span::Stage> for Stage {
    open spec fn obeys_from_spec() -> bool {
        true
    }

    open spec fn from_spec(stage: span::Stage) -> Stage {
        chart_stage(stage)
    }
}

impl Stage {
    /// The name under which the stage is shown.
    pub open spec fn label(self) -> Seq<char> {
        match self {
            Stage::Boot => "Boot"@,
            Stage::Update => "Update"@,
            Stage::View => "View"@,
            Stage::Layout => "Layout"@,
            Stage::Interact => "Interact"@,
            Stage::Draw => "Draw"@,
            Stage::Present => "Present"@,
            Stage::Prepare(primitive) => match primitive {
                Primitive::Quad => "Quad (prepare)"@,
                Primitive::Triangle => "Triangle (prepare)"@,
                Primitive::Shader => "Shader (prepare)"@,
                Primitive::Image => "Image (prepare)"@,
                Primitive::Text => "Text (prepare)"@,
            },
            Stage::Render(primitive) => match primitive {
                Primitive::Quad => "Quad (render)"@,
                Primitive::Triangle => "Triangle (render)"@,
                Primitive::Shader => "Shader (render)"@,
                Primitive::Image => "Image (render)"@,
                Primitive::Text => "Text (render)"@,
            },
            Stage::Custom(name) => name@,
        }
    }

    /// A copy of the stage.
    fn duplicate(&self) -> (r: Stage)
        ensures
            r == *self,
    {
        match self {
            Stage::Boot => Stage::Boot,
            Stage::Update => Stage::Update,
            Stage::View => Stage::View,
            Stage::Layout => Stage::Layout,
            Stage::Interact => Stage::Interact,
            Stage::Draw => Stage::Draw,
            Stage::Present => Stage::Present,
            Stage::Prepare(primitive) => Stage::Prepare(*primitive),
            Stage::Render(primitive) => Stage::Render(*primitive),
            Stage::Custom(name) => Stage::Custom(name.clone()),
        }
    }

    /// The name under which the stage is shown.
    pub fn to_string(&self) -> (r: String)
        ensures
            r@ == self.label(),
    {
        match self {
            Stage::Boot => "Boot".to_owned(),
            Stage::Update => "Update".to_owned(),
            Stage::View => "View".to_owned(),
            Stage::Layout => "Layout".to_owned(),
            Stage::Interact => "Interact".to_owned(),
            Stage::Draw => "Draw".to_owned(),
            Stage::Present => "Present".to_owned(),
            Stage::Prepare(primitive) => match primitive {
                Primitive::Quad => "Quad (prepare)".to_owned(),
                Primitive::Triangle => "Triangle (prepare)".to_owned(),
                Primitive::Shader => "Shader (prepare)".to_owned(),
                Primitive::Image => "Image (prepare)".to_owned(),
                Primitive::Text => "Text (prepare)".to_owned(),
            },
            Stage::Render(primitive) => match primitive {
                Primitive::Quad => "Quad (render)".to_owned(),
                Primitive::Triangle => "Triangle (render)".to_owned(),
                Primitive::Shader => "Shader (render)".to_owned(),
                Primitive::Image => "Image (render)".to_owned(),
                Primitive::Text => "Text (render)".to_owned(),
            },
            Stage::Custom(name) => name.clone(),
        }
    }
}

/// Whether `event` makes a chart of `stage` out of date: a span of that stage
/// finished, or the palette changed.
pub open spec fn redraws(event: Event, stage: Stage) -> bool {
    match event {
        Event::SpanFinished { span, .. } => chart_stage(span.spec_stage()).same(stage),
        Event::ThemeChanged { .. } => true,
        _ => false,
    }
}

/// The drawing cache of a chart, reduced to whether it still holds what was
/// last drawn.
#[derive(Debug, Clone, Copy, PartialEq, Eq, Structural)]
pub struct Cache {
    pub drawn: bool,
}

impl Cache {
    /// A cache that holds nothing yet.
    pub fn new() -> (c: Cache)
        ensures
            !c.drawn,
    {
        Cache { drawn: false }
    }

    /// Forgets what was drawn, so that the chart is drawn again.
    pub fn clear(&mut self)
        ensures
            !final(self).drawn,
    {
        self.drawn = false;
    }

    /// Records that the chart was drawn.
    pub fn fill(&mut self)
        ensures
            final(self).drawn,
    {
        self.drawn = true;
    }
}

impl Default for Cache {
    fn default() -> (c: Cache)
        ensures
            !c.drawn,
    {
        Cache::new()
    }
}

/// The width of a bar in a chart, from 1 to 10.
#[derive(Debug, Clone, Copy, PartialEq, Eq, Structural)]
pub struct Zoom(pub u16);

impl Zoom {
    pub open spec fn wider(self) -> Zoom {
        Zoom(if self.0 < 10 { (self.0 + 1) as u16 } else { 10 })
    }

    pub open spec fn narrower(self) -> Zoom {
        Zoom(if self.0 > 1 { (self.0 - 1) as u16 } else { 1 })
    }

    /// One step wider, up to 10.
    pub fn increment(self) -> (r: Zoom)
        ensures
            r == self.wider(),
    {
        let wider = self.0.saturating_add(1);
        Zoom(if wider < 10 { wider } else { 10 })
    }

    /// One step narrower, down to 1.
    pub fn decrement(self) -> (r: Zoom)
        ensures
            r == self.narrower(),
    {
        let narrower = self.0.saturating_sub(1);
        Zoom(if narrower > 1 { narrower } else { 1 })
    }
}

impl Default for Zoom {
    fn default() -> (z: Zoom)
        ensures
            z.0 == 2,
    {
        Zoom(2)
    }
}

/// The layers of a presented frame at position `index`.
pub open spec fn layers_of(e: Event, index: int) -> Option<(Index, usize)> {
    match e {
        Event::SpanFinished { span: Span::Present { layers, .. }, .. } => Some(
            (Index(index as usize), layers),
        ),
        _ => None,
    }
}

/// The durations that the chart of `stage` plots, newest first: the update
/// summaries for the update stage, the timeframes of the stage otherwise.
pub fn performance(timeline: &Timeline, playhead: Playhead, stage: &Stage) -> (r: Vec<
    (Index, Duration),
>)
    requires
        timeline.wf(),
    ensures
        if *stage is Update {
            &&& r@.len() == timeline@.updates_view(playhead).len()
            &&& forall|k: int|
                #![trigger r@[k]]
                0 <= k < r@.len() ==> r@[k] == (
                    timeline@.updates_view(playhead)[k].index,
                    timeline@.updates_view(playhead)[k].duration,
                )
        } else {
            &&& r@.len() == timeline@.timeframes_view(playhead, *stage).len()
            &&& forall|k: int|
                #![trigger r@[k]]
                0 <= k < r@.len() ==> r@[k] == (
                    timeline@.timeframes_view(playhead, *stage)[k].index,
                    timeline@.timeframes_view(playhead, *stage)[k].duration,
                )
        },
{
    match stage {
        Stage::Update => updates(timeline, playhead),
        _ => {
            let frames = timeline.timeframes(playhead, stage.duplicate());
            let mut r: Vec<(Index, Duration)> = Vec::new();
            let mut k: usize = 0;
            while k < frames.len()
                invariant
                    k <= frames@.len(),
                    frames@ == timeline@.timeframes_view(playhead, *stage),
                    r@.len() == k,
                    forall|j: int|
                        #![trigger r@[j]]
                        0 <= j < k ==> r@[j] == (frames@[j].index, frames@[j].duration),
                decreases frames@.len() - k,
            {
                r.push((frames[k].index, frames[k].duration));
                k = k + 1;
            }
            r
        },
    }
}

/// How long each update took, newest first.
pub fn updates(timeline: &Timeline, playhead: Playhead) -> (r: Vec<(Index, Duration)>)
    requires
        timeline.wf(),
    ensures
        r@.len() == timeline@.updates_view(playhead).len(),
        forall|k: int|
            #![trigger r@[k]]
            0 <= k < r@.len() ==> r@[k] == (
                timeline@.updates_view(playhead)[k].index,
                timeline@.updates_view(playhead)[k].duration,
            ),
{
    let all = timeline.updates(playhead);
    let mut r: Vec<(Index, Duration)> = Vec::new();
    let mut k: usize = 0;
    while k < all.len()
        invariant
            k <= all@.len(),
            all@.len() == timeline@.updates_view(playhead).len(),
            forall|j: int| 0 <= j < all@.len() ==> *all@[j] == timeline@.updates_view(playhead)[j],
            r@.len() == k,
            forall|j: int|
                #![trigger r@[j]]
                0 <= j < k ==> r@[j] == (
                    timeline@.updates_view(playhead)[j].index,
                    timeline@.updates_view(playhead)[j].duration,
                ),
        decreases all@.len() - k,
    {
        r.push((all[k].index, all[k].duration));
        k = k + 1;
    }
    r
}

/// How many tasks each update spawned, newest first.
pub fn tasks_spawned(timeline: &Timeline, playhead: Playhead) -> (r: Vec<(Index, usize)>)
    requires
        timeline.wf(),
    ensures
        r@.len() == timeline@.updates_view(playhead).len(),
        forall|k: int|
            #![trigger r@[k]]
            0 <= k < r@.len() ==> r@[k] == (
                timeline@.updates_view(playhead)[k].index,
                timeline@.updates_view(playhead)[k].tasks,
            ),
{
    let all = timeline.updates(playhead);
    let mut r: Vec<(Index, usize)> = Vec::new();
    let mut k: usize = 0;
    while k < all.len()
        invariant
            k <= all@.len(),
            all@.len() == timeline@.updates_view(playhead).len(),
            forall|j: int| 0 <= j < all@.len() ==> *all@[j] == timeline@.updates_view(playhead)[j],
            r@.len() == k,
            forall|j: int|
                #![trigger r@[j]]
                0 <= j < k ==> r@[j] == (
                    timeline@.updates_view(playhead)[j].index,
                    timeline@.updates_view(playhead)[j].tasks,
                ),
        decreases all@.len() - k,
    {
        r.push((all[k].index, all[k].tasks));
        k = k + 1;
    }
    r
}

/// How many subscriptions were alive after each update, newest first.
pub fn subscriptions_alive(timeline: &Timeline, playhead: Playhead) -> (r: Vec<(Index, usize)>)
    requires
        timeline.wf(),
    ensures
        r@.len() == timeline@.updates_view(playhead).len(),
        forall|k: int|
            #![trigger r@[k]]
            0 <= k < r@.len() ==> r@[k] == (
                timeline@.updates_view(playhead)[k].index,
                timeline@.updates_view(playhead)[k].subscriptions,
            ),
{
    let all = timeline.updates(playhead);
    let mut r: Vec<(Index, usize)> = Vec::new();
    let mut k: usize = 0;
    while k < all.len()
        invariant
            k <= all@.len(),
            all@.len() == timeline@.updates_view(playhead).len(),
            forall|j: int| 0 <= j < all@.len() ==> *all@[j] == timeline@.updates_view(playhead)[j],
            r@.len() == k,
            forall|j: int|
                #![trigger r@[j]]
                0 <= j < k ==> r@[j] == (
                    timeline@.updates_view(playhead)[j].index,
                    timeline@.updates_view(playhead)[j].subscriptions,
                ),
        decreases all@.len() - k,
    {
        r.push((all[k].index, all[k].subscriptions));
        k = k + 1;
    }
    r
}

/// How many updates ran in each second, newest first, at the position where
/// each second began.
pub fn message_rate(timeline: &Timeline, playhead: Playhead) -> (r: Vec<(Index, usize)>)
    requires
        timeline.wf(),
    ensures
        r@.len() == timeline@.update_rate_view(playhead).len(),
        forall|k: int|
            #![trigger r@[k]]
            0 <= k < r@.len() ==> r@[k] == (
                timeline@.update_rate_view(playhead)[k].index,
                timeline@.update_rate_view(playhead)[k].total,
            ),
{
    let buckets = timeline.update_rate(playhead);
    let mut r: Vec<(Index, usize)> = Vec::new();
    let mut k: usize = 0;
    while k < buckets.len()
        invariant
            k <= buckets@.len(),
            buckets@ == timeline@.update_rate_view(playhead),
            r@.len() == k,
            forall|j: int|
                #![trigger r@[j]]
                0 <= j < k ==> r@[j] == (buckets@[j].index, buckets@[j].total),
        decreases buckets@.len() - k,
    {
        r.push((buckets[k].index, buckets[k].total));
        k = k + 1;
    }
    r
}

/// How many layers each presented frame had, newest first.
pub fn layers_rendered(timeline: &Timeline, playhead: Playhead) -> (r: Vec<(Index, usize)>)
    requires
        timeline.wf(),
    ensures
        r@ == collect(
            timeline@.events.take(timeline@.visible(playhead) as int),
            timeline@.removed as int,
            |e: Event, i: int| layers_of(e, i),
        ).reverse(),
{
    let ghost f = |e: Event, i: int| layers_of(e, i);
    let ghost events = timeline@.events;
    let ghost base = timeline@.removed as int;
    let seen = timeline.seek_with_index(playhead);
    let ghost n = timeline@.visible(playhead) as int;
    let mut r: Vec<(Index, usize)> = Vec::new();
    let mut k: usize = 0;
    assert(events.subrange(n, n) =~= Seq::<Event>::empty());
    assert(n <= events.len());
    assert(timeline@.seek_view(playhead).len() == n);
    assert forall|j: int| 0 <= j < seen@.len() implies {
        &&& seen@[j].0 == Index((base + n - 1 - j) as usize)
        &&& *seen@[j].1 == events[n - 1 - j]
    } by {
        assert(timeline@.seek_view(playhead)[j] == events.take(n)[n - 1 - j]);
    }
    while k < seen.len()
        invariant
            k <= seen@.len(),
            seen@.len() == n,
            n <= events.len(),
            events == timeline@.events,
            base == timeline@.removed,
            timeline@.end() <= usize::MAX,
            n == timeline@.visible(playhead),
            f == (|e: Event, i: int| layers_of(e, i)),
            forall|j: int|
                0 <= j < seen@.len() ==> {
                    &&& seen@[j].0 == Index((base + n - 1 - j) as usize)
                    &&& *seen@[j].1 == events[n - 1 - j]
                },
            r@ == collect(events.subrange(n - k, n), base + n - k, f).reverse(),
        decreases seen@.len() - k,
    {
        let (index, event) = seen[k];
        let ghost i = n - 1 - k;
        let ghost prev = r@;
        proof {
            lemma_collect_unfold(events, base, f, i, n);
        }
        if let Event::SpanFinished { span: Span::Present { layers, .. }, .. } = event {
            r.push((index, *layers));
        }
        let ghost later = collect(events.subrange(i + 1, n), base + i + 1, f);
        let ghost head = keep(f(events[i], base + i));
        assert((head + later).reverse() =~= later.reverse() + head);
        assert(r@ =~= prev + head);
        k = k + 1;
    }
    assert(events.subrange(0, n) =~= events.take(n));
    r
}

/// The position of the bar that the cursor is over, counted from the newest
/// point; past the oldest point, the oldest one.
pub fn hovered<T>(points: &Vec<(Index, T)>, bar: usize) -> (r: Option<Index>)
    ensures
        r == if bar < points@.len() {
            Some(points@[bar as int].0)
        } else if points@.len() > 0 {
            Some(points@.last().0)
        } else {
            None
        },
{
    if bar < points.len() {
        Some(points[bar].0)
    } else if points.len() > 0 {
        Some(points[points.len() - 1].0)
    } else {
        None
    }
}

/// What a scroll over a chart asks for: a wider bar when scrolling up, a
/// narrower one otherwise, and nothing when the width would not change.
pub fn scrolled(zoom: Zoom, up: bool) -> (r: Option<Interaction>)
    ensures
        ({
            let next = if up {
                zoom.wider()
            } else {
                zoom.narrower()
            };
            r == if next == zoom {
                None
            } else {
                Some(Interaction::ZoomChanged(next))
            }
        }),
{
    let next = if up {
        zoom.increment()
    } else {
        zoom.decrement()
    };
    if next.0 == zoom.0 {
        None
    } else {
        Some(Interaction::ZoomChanged(next))
    }
}

} // verus!
