use vstd::prelude::*;

use crate::beacon::span::Span;
use crate::beacon;
use crate::chart::{Cache, Interaction};
use crate::timeline::{Playhead, Timeline, TimelineView};

verus! {

/// The chart of the custom spans of one name.
#[derive(Debug, Clone)]
pub struct Timing {
    pub name: String,
    pub cache: Cache,
}

/// One chart for each name of custom span that was seen.
#[derive(Debug, Clone)]
pub struct Custom {
    pub timings: Vec<Timing>,
}

/// A message from the custom screen.
#[derive(Debug, Clone)]
pub enum Message {
    Browse(Link),
    Chart(Interaction),
}

/// What the custom screen asks of the viewer.
#[derive(Debug, Clone)]
pub enum Event {
    ChartInteracted(Interaction),
}

/// A page of documentation on custom timings.
#[derive(Debug, Clone, Copy, PartialEq, Eq, Structural)]
pub enum Link {
    Time,
    TimeWith,
    Debug,
}

impl Link {
    pub open spec fn spec_path(self) -> Seq<char> {
        match self {
            Link::Time => "debug/fn.time.html"@,
            Link::TimeWith => "debug/fn.time_with.html"@,
            Link::Debug => "debug/index.html"@,
        }
    }

    /// The page's path under the documentation's root.
    pub fn path(self) -> (r: String)
        ensures
            r@ == self.spec_path(),
    {
        match self {
            Link::Time => "debug/fn.time.html".to_owned(),
            Link::TimeWith => "debug/fn.time_with.html".to_owned(),
            Link::Debug => "debug/index.html".to_owned(),
        }
    }
}

/// The name of a custom span.
pub open spec fn custom_name(e: beacon::Event) -> Option<Seq<char>> {
    match e {
        beacon::Event::SpanFinished { span: Span::Custom { name }, .. } => Some(name@),
        _ => None,
    }
}

impl Custom {
    /// The names of the charts, in the order in which they were added.
    pub open spec fn names(self) -> Seq<Seq<char>> {
        self.timings@.map_values(|t: Timing| t.name@)
    }

    /// No name has two charts.
    pub open spec fn wf(self) -> bool {
        forall|i: int, j: int|
            #![trigger self.timings@[i], self.timings@[j]]
            0 <= i < j < self.timings@.len() ==> self.timings@[i].name@ != self.timings@[j].name@
    }

    pub open spec fn has(self, name: Seq<char>) -> bool {
        exists|i: int| 0 <= i < self.timings@.len() && #[trigger] self.timings@[i].name@ == name
    }

    /// How the charts stand after an event, given how they stood before.
    pub open spec fn refreshed_by(self, before: Custom, event: beacon::Event) -> bool {
        match custom_name(event) {
            Some(name) => {
                &&& forall|n: Seq<char>| self.has(n) <==> (before.has(n) || n == name)
                &&& forall|i: int|
                    #![trigger self.timings@[i]]
                    0 <= i < self.timings@.len() ==> {
                        &&& self.timings@[i].name@ == name ==> !self.timings@[i].cache.drawn
                        &&& i < before.timings@.len() ==> self.timings@[i].name@
                            == before.timings@[i].name@
                        &&& (i < before.timings@.len() && self.timings@[i].name@ != name)
                            ==> self.timings@[i].cache == before.timings@[i].cache
                    }
            },
            None => if event is ThemeChanged {
                &&& self.names() == before.names()
                &&& forall|i: int|
                    #![trigger self.timings@[i]]
                    0 <= i < self.timings@.len() ==> !self.timings@[i].cache.drawn
            } else {
                self.timings@ == before.timings@
            },
        }
    }

    /// Whether the screen holds one chart, not drawn yet, for each name of
    /// custom span before `playhead`.
    pub open spec fn lists(self, timeline: TimelineView, playhead: Playhead) -> bool {
        &&& self.wf()
        &&& forall|i: int|
            #![trigger self.timings@[i]]
            0 <= i < self.timings@.len() ==> !self.timings@[i].cache.drawn
        &&& forall|name: Seq<char>|
            self.has(name) <==> exists|k: int|
                0 <= k < timeline.seek_view(playhead).len() && custom_name(
                    #[trigger] timeline.seek_view(playhead)[k],
                ) == Some(name)
    }

    /// A chart for each name of custom span before `playhead`, none drawn yet.
    pub fn new(timeline: &Timeline, playhead: Playhead) -> (c: Custom)
        requires
            timeline.wf(),
        ensures
            c.lists(timeline@, playhead),
    {
        let events = timeline.seek(playhead);
        let ghost seen = timeline@.seek_view(playhead);
        let mut c = Custom { timings: Vec::new() };
        let mut k: usize = 0;
        while k < events.len()
            invariant
                k <= events@.len(),
                events@.len() == seen.len(),
                forall|j: int| 0 <= j < events@.len() ==> *events@[j] == seen[j],
                c.wf(),
                forall|i: int| #![trigger c.timings@[i]] 0 <= i < c.timings@.len() ==> !c.timings@[i].cache.drawn,
                forall|name: Seq<char>|
                    c.has(name) <==> exists|j: int|
                        0 <= j < k && custom_name(#[trigger] seen[j]) == Some(name),
            decreases events@.len() - k,
        {
            let event = events[k];
            if let beacon::Event::SpanFinished { span: Span::Custom { name }, .. } = event {
                c.insert_cleared(name);
            }
            proof {
                assert forall|name: Seq<char>|
                    c.has(name) <==> exists|j: int|
                        0 <= j < k + 1 && custom_name(#[trigger] seen[j]) == Some(name) by {
                    if c.has(name) && custom_name(seen[k as int]) != Some(name) {
                        let j = choose|j: int| 0 <= j < k && custom_name(#[trigger] seen[j]) == Some(name);
                    }
                    if exists|j: int| 0 <= j < k + 1 && custom_name(#[trigger] seen[j]) == Some(name) {
                        let j = choose|j: int| 0 <= j < k + 1 && custom_name(#[trigger] seen[j]) == Some(name);
                        if j < k {
                            assert(exists|j: int| 0 <= j < k && custom_name(#[trigger] seen[j]) == Some(name));
                        }
                    }
                }
            }
            k = k + 1;
        }
        c
    }

    /// Where the chart of `name` stands, if there is one.
    fn position(&self, name: &String) -> (r: Option<usize>)
        ensures
            match r {
                Some(i) => i < self.timings@.len() && self.timings@[i as int].name@ == name@,
                None => !self.has(name@),
            },
    {
        let mut i: usize = 0;
        while i < self.timings.len()
            invariant
                i <= self.timings@.len(),
                forall|j: int| 0 <= j < i ==> #[trigger] self.timings@[j].name@ != name@,
            decreases self.timings@.len() - i,
        {
            if self.timings[i].name == *name {
                return Some(i);
            }
            i = i + 1;
        }
        None
    }

    /// Clears the chart of `name`, adding it if there is none.
    fn insert_cleared(&mut self, name: &String)
        requires
            old(self).wf(),
        ensures
            final(self).wf(),
            forall|n: Seq<char>| final(self).has(n) <==> (old(self).has(n) || n == name@),
            final(self).timings@.len() == old(self).timings@.len() + (if old(self).has(name@) {
                0int
            } else {
                1
            }),
            forall|i: int|
                #![trigger final(self).timings@[i]]
                0 <= i < final(self).timings@.len() ==> {
                    &&& final(self).timings@[i].name@ == name@ ==> !final(self).timings@[i].cache.drawn
                    &&& i < old(self).timings@.len() ==> final(self).timings@[i].name@ == old(self).timings@[i].name@
                    &&& (i < old(self).timings@.len() && final(self).timings@[i].name@ != name@)
                        ==> final(self).timings@[i].cache == old(self).timings@[i].cache
                },
    {
        match self.position(name) {
            Some(i) => {
                let mut t = self.timings.remove(i);
                t.cache.clear();
                self.timings.insert(i, t);
            },
            None => {
                self.timings.push(Timing { name: name.clone(), cache: Cache::new() });
            },
        }
        proof {
            assert forall|n: Seq<char>| final(self).has(n) <==> (old(self).has(n) || n == name@) by {
                if old(self).has(n) {
                    let i = choose|i: int| 0 <= i < old(self).timings@.len() && #[trigger] old(self).timings@[i].name@ == n;
                    assert(self.timings@[i].name@ == n);
                }
                if final(self).has(n) {
                    let i = choose|i: int| 0 <= i < self.timings@.len() && #[trigger] self.timings@[i].name@ == n;
                    if i < old(self).timings@.len() {
                        assert(old(self).timings@[i].name@ == n);
                    }
                }
                if n == name@ && !old(self).has(n) {
                    assert(self.timings@[self.timings@.len() - 1].name@ == n);
                }
            }
        }
    }

    /// Clears every chart.
    pub fn invalidate(&mut self)
        ensures
            final(self).names() == old(self).names(),
            final(self).timings@.len() == old(self).timings@.len(),
            forall|i: int|
                #![trigger final(self).timings@[i]]
                0 <= i < final(self).timings@.len() ==> {
                    &&& !final(self).timings@[i].cache.drawn
                    &&& final(self).timings@[i].name@ == old(self).timings@[i].name@
                },
    {
        let mut i: usize = 0;
        while i < self.timings.len()
            invariant
                i <= self.timings@.len(),
                self.timings@.len() == old(self).timings@.len(),
                forall|j: int|
                    #![trigger self.timings@[j]]
                    0 <= j < self.timings@.len() ==> self.timings@[j].name@ == old(self).timings@[j].name@,
                forall|j: int| #![trigger self.timings@[j]] 0 <= j < i ==> !self.timings@[j].cache.drawn,
            decreases self.timings@.len() - i,
        {
            let mut t = self.timings.remove(i);
            t.cache.clear();
            self.timings.insert(i, t);
            i = i + 1;
        }
        assert(self.names() =~= old(self).names());
    }

    /// Clears the charts that `event` concerns: the chart of a custom span's
    /// name, added if it is new, or every chart when the palette changed.
    pub fn invalidate_by(&mut self, event: &beacon::Event)
        requires
            old(self).wf(),
        ensures
            final(self).wf(),
            final(self).refreshed_by(*old(self), *event),
    {
        match event {
            beacon::Event::SpanFinished { span: Span::Custom { name }, .. } => {
                self.insert_cleared(name);
            },
            beacon::Event::ThemeChanged { .. } => {
                self.invalidate();
                assert forall|i: int, j: int|
                    #![trigger self.timings@[i], self.timings@[j]]
                    0 <= i < j < self.timings@.len() implies self.timings@[i].name@
                        != self.timings@[j].name@ by {
                    assert(old(self).timings@[i].name@ != old(self).timings@[j].name@);
                }
            },
            _ => {},
        }
    }

    /// Hands chart interactions on to the viewer; a link is for the viewer to
    /// open and asks nothing more.
    pub fn update(&mut self, message: Message) -> (r: Option<Event>)
        ensures
            *final(self) == *old(self),
            match message {
                Message::Browse(_) => r is None,
                Message::Chart(interaction) => r == Some(Event::ChartInteracted(interaction)),
            },
    {
        match message {
            Message::Browse(_) => None,
            Message::Chart(interaction) => Some(Event::ChartInteracted(interaction)),
        }
    }
}

} // verus!
