//! A bounded log of events whose positions survive eviction, with derived
//! indices of the update spans and of the update rate.

use std::collections::VecDeque;
use std::ops::RangeInclusive;

use vstd::prelude::*;

use crate::beacon::span::Span;
use crate::beacon::Event;
use crate::chart::{self, chart_stage};
use crate::time::{Duration, Time};

verus! {

/// The number of events that a timeline keeps unless told otherwise.
pub const MAX_SIZE: usize = 1_000_000;

/// A position in the stream of events: the number of events pushed before it.
/// It never changes when older events are evicted.
#[derive(Debug, Clone, Copy, PartialEq, Eq, Structural, PartialOrd, Ord, Hash)]
pub struct Index(pub usize);

impl Index {
    /// The position `n` events later.
    pub fn add(self, n: usize) -> (r: Index)
        requires
            self.0 + n <= usize::MAX,
        ensures
            r.0 == self.0 + n,
    {
        Index(self.0 + n)
    }

    /// The position `n` events earlier, stopping at the origin.
    pub fn sub(self, n: usize) -> (r: Index)
        ensures
            r.0 == (if self.0 >= n { self.0 - n } else { 0 }),
    {
        if self.0 >= n {
            Index(self.0 - n)
        } else {
            Index(0)
        }
    }
}

impl From<u8> for Index {
    fn from(n: u8) -> (r: Index)
        ensures
            r.0 == n,
    {
        Index(n as usize)
    }
}

impl vstd::std_specs::convert::FromSpecImpl<u8> for Index {
    open spec fn obeys_from_spec() -> bool {
        true
    }

    open spec fn from_spec(n: u8) -> Index {
        Index(n as usize)
    }
}

/// Where the viewer looks: at the newest event, or at a fixed position.
#[derive(Debug, Clone, Copy, PartialEq, Eq, Structural, PartialOrd, Ord, Hash)]
pub enum Playhead {
    Live,
    Paused(Index),
}

impl Playhead {
    pub fn is_live(self) -> (r: bool)
        ensures
            r == (self is Live),
    {
        match self {
            Playhead::Live => true,
            Playhead::Paused(_) => false,
        }
    }
}

impl From<Index> for Playhead {
    fn from(index: Index) -> (r: Playhead)
        ensures
            r == Playhead::Paused(index),
    {
        Playhead::Paused(index)
    }
}

impl vstd::std_specs::convert::FromSpecImpl<Index> for Playhead {
    open spec fn obeys_from_spec() -> bool {
        true
    }

    open spec fn from_spec(index: Index) -> Playhead {
        Playhead::Paused(index)
    }
}

/// A finished span of a given stage, at its position in the stream.
#[derive(Debug, Clone, Copy, PartialEq, Eq, Structural)]
pub struct Timeframe {
    pub index: Index,
    pub at: Time,
    pub duration: Duration,
}

/// What an update span measured, at its position in the stream.
#[derive(Debug, Clone)]
pub struct Update {
    pub index: Index,
    pub duration: Duration,
    pub number: usize,
    pub tasks: usize,
    pub subscriptions: usize,
    pub message: String,
}

/// The update spans that finished within one whole second since the UNIX epoch.
/// `index` is the position of the first of them, `at` the time of the last.
#[derive(Debug, Clone, Copy, PartialEq, Eq, Structural)]
pub struct Bucket {
    pub index: Index,
    pub at: Time,
    pub second: u64,
    pub total: usize,
}

/// The events that were pushed, up to a capacity; the oldest ones leave first.
#[derive(Debug, Clone)]
pub struct Timeline {
    events: VecDeque<Event>,
    updates: VecDeque<Update>,
    update_rate: VecDeque<Bucket>,
    removed: usize,
    capacity: usize,
}

/// The abstract state of a timeline.
pub struct TimelineView {
    /// The retained events, oldest first.
    pub events: Seq<Event>,
    /// One summary for each retained update span, oldest first.
    pub updates: Seq<Update>,
    /// The rate buckets, oldest first.
    pub update_rate: Seq<Bucket>,
    /// How many events were evicted: the position of the oldest retained one.
    pub removed: nat,
    /// How many events are retained at most.
    pub capacity: nat,
}

/// A sequence of one element, or the empty one.
pub open spec fn keep<A>(o: Option<A>) -> Seq<A> {
    match o {
        Some(a) => seq![a],
        None => Seq::empty(),
    }
}

/// What `f` picks out of `s`, in order, where the first event of `s` stands at
/// position `base`.
pub open spec fn collect<A>(s: Seq<Event>, base: int, f: spec_fn(Event, int) -> Option<A>) -> Seq<
    A,
>
    decreases s.len(),
{
    if s.len() == 0 {
        Seq::empty()
    } else {
        keep(f(s[0], base)) + collect(s.subrange(1, s.len() as int), base + 1, f)
    }
}

/// The summary of an update span at position `index`.
pub open spec fn summary_of(e: Event, index: int) -> Option<Update> {
    match e {
        Event::SpanFinished {
            duration,
            span: Span::Update { number, message, tasks, subscriptions },
            ..
        } => Some(
            Update { index: Index(index as usize), duration, number, tasks, subscriptions, message },
        ),
        _ => None,
    }
}

/// The timeframe of a span of `stage` at position `index`.
pub open spec fn frame_of(e: Event, index: int, stage: chart::Stage) -> Option<Timeframe> {
    match e {
        Event::SpanFinished { at, duration, span } => {
            if chart_stage(span.spec_stage()).same(stage) {
                Some(Timeframe { index: Index(index as usize), at, duration })
            } else {
                None
            }
        },
        _ => None,
    }
}

/// The summaries of the update spans of `s`, whose first event stands at `base`.
pub open spec fn summaries(s: Seq<Event>, base: int) -> Seq<Update> {
    collect(s, base, |e: Event, i: int| summary_of(e, i))
}

/// The timeframes of the spans of `stage` in `s`, whose first event stands at `base`.
pub open spec fn frames(s: Seq<Event>, base: int, stage: chart::Stage) -> Seq<Timeframe> {
    collect(s, base, |e: Event, i: int| frame_of(e, i, stage))
}

/// The rate buckets after an update span at `at` and position `index`: the
/// last bucket counts it if it is of the same second, else a new one starts.
pub open spec fn fold_rate(rate: Seq<Bucket>, at: Time, index: nat) -> Seq<Bucket> {
    let second = at.spec_unix_second();
    if rate.len() > 0 && rate.last().second == second {
        rate.update(
            rate.len() - 1,
            Bucket {
                index: rate.last().index,
                at,
                second,
                total: (rate.last().total + 1) as usize,
            },
        )
    } else {
        rate.push(Bucket { index: Index(index as usize), at, second, total: 1 })
    }
}

/// The longest prefix of `s` whose buckets stand before `target`.
pub open spec fn buckets_before(s: Seq<Bucket>, target: nat) -> Seq<Bucket>
    decreases s.len(),
{
    if s.len() == 0 || s[0].index.0 >= target {
        Seq::empty()
    } else {
        seq![s[0]] + buckets_before(s.subrange(1, s.len() as int), target)
    }
}

impl TimelineView {
    pub open spec fn empty(capacity: nat) -> TimelineView {
        TimelineView {
            events: Seq::empty(),
            updates: Seq::empty(),
            update_rate: Seq::empty(),
            removed: 0,
            capacity,
        }
    }

    /// The position that the next event will take.
    pub open spec fn end(self) -> nat {
        self.removed + self.events.len()
    }

    /// Each bucket counts at least one update and no more than the positions
    /// since it began; buckets begin in order, and neighbours differ in second.
    pub open spec fn rate_wf(self) -> bool {
        &&& forall|j: int|
            #![trigger self.update_rate[j]]
            0 <= j < self.update_rate.len() ==> {
                &&& self.update_rate[j].total >= 1
                &&& self.update_rate[j].index.0 + self.update_rate[j].total <= self.end()
                &&& self.update_rate[j].second == self.update_rate[j].at.spec_unix_second()
            }
        &&& forall|j: int, k: int|
            #![trigger self.update_rate[j], self.update_rate[k]]
            0 <= j < k < self.update_rate.len() ==> self.update_rate[j].index.0
                < self.update_rate[k].index.0
        &&& forall|j: int|
            #![trigger self.update_rate[j]]
            0 < j < self.update_rate.len() ==> self.update_rate[j - 1].second
                != self.update_rate[j].second
    }

    /// Within capacity, positions fit in `usize`, one summary per retained
    /// update span, and well-formed buckets.
    pub open spec fn wf(self) -> bool {
        &&& self.events.len() <= self.capacity
        &&& self.capacity <= usize::MAX
        &&& self.end() <= usize::MAX
        &&& self.updates == summaries(self.events, self.removed as int)
        &&& self.rate_wf()
    }

    /// The state after pushing `e`.
    pub open spec fn pushed(self, e: Event) -> TimelineView {
        let appended = self.events.push(e);
        let rate = if e.is_update() {
            fold_rate(self.update_rate, e.spec_at(), self.end())
        } else {
            self.update_rate
        };
        if appended.len() > self.capacity {
            let gone = appended[0];
            let kept = appended.subrange(1, appended.len() as int);
            TimelineView {
                events: kept,
                updates: summaries(kept, self.removed + 1 as int),
                update_rate: if gone.is_update() && rate.len() > 0 && rate[0].at.spec_before(
                    gone.spec_at(),
                ) {
                    rate.subrange(1, rate.len() as int)
                } else {
                    rate
                },
                removed: self.removed + 1,
                capacity: self.capacity,
            }
        } else {
            TimelineView {
                events: appended,
                updates: summaries(appended, self.removed as int),
                update_rate: rate,
                removed: self.removed,
                capacity: self.capacity,
            }
        }
    }

    /// The position that a playhead stands for.
    pub open spec fn resolve(self, playhead: Playhead) -> nat {
        match playhead {
            Playhead::Live => self.end(),
            Playhead::Paused(index) => index.0 as nat,
        }
    }

    /// How many retained events stand before a playhead; one past the end counts
    /// as the end.
    pub open spec fn visible(self, playhead: Playhead) -> nat {
        let at = if self.resolve(playhead) <= self.end() {
            self.resolve(playhead)
        } else {
            self.end()
        };
        if at >= self.removed {
            (at - self.removed) as nat
        } else {
            0
        }
    }

    /// The retained events before a playhead, newest first.
    pub open spec fn seek_view(self, playhead: Playhead) -> Seq<Event> {
        self.events.take(self.visible(playhead) as int).reverse()
    }

    /// The spans of `stage` before a playhead, newest first.
    pub open spec fn timeframes_view(self, playhead: Playhead, stage: chart::Stage) -> Seq<
        Timeframe,
    > {
        frames(self.events.take(self.visible(playhead) as int), self.removed as int, stage).reverse()
    }

    /// The summaries of the update spans before a playhead, newest first.
    pub open spec fn updates_view(self, playhead: Playhead) -> Seq<Update> {
        summaries(self.events.take(self.visible(playhead) as int), self.removed as int).reverse()
    }

    /// The rate buckets that begin before a playhead, newest first.
    pub open spec fn update_rate_view(self, playhead: Playhead) -> Seq<Bucket> {
        buckets_before(self.update_rate, self.resolve(playhead)).reverse()
    }

    /// When the newest event before a playhead was reported.
    pub open spec fn time_at_view(self, playhead: Playhead) -> Option<Time> {
        if self.visible(playhead) > 0 {
            Some(self.events[self.visible(playhead) - 1].spec_at())
        } else {
            None
        }
    }
}

/// Collecting from a sequence with one more event at its end adds what is
/// picked from that event.
pub proof fn lemma_collect_push<A>(
    s: Seq<Event>,
    base: int,
    f: spec_fn(Event, int) -> Option<A>,
    e: Event,
)
    ensures
        collect(s.push(e), base, f) == collect(s, base, f) + keep(f(e, base + s.len())),
    decreases s.len(),
{
    let p = s.push(e);
    if s.len() == 0 {
        let rest = p.subrange(1, p.len() as int);
        assert(rest =~= Seq::<Event>::empty());
        assert(collect(rest, base + 1, f) == Seq::<A>::empty());
        assert(p[0] == e);
        assert(collect(p, base, f) == keep(f(e, base)) + collect(rest, base + 1, f));
        assert(collect(p, base, f) =~= collect(s, base, f) + keep(f(e, base + s.len())));
    } else {
        let t = s.subrange(1, s.len() as int);
        lemma_collect_push(t, base + 1, f, e);
        assert(p.subrange(1, p.len() as int) =~= t.push(e));
        assert(p[0] == s[0]);
        let head = keep(f(s[0], base));
        let tail = collect(t, base + 1, f);
        let last = keep(f(e, base + s.len()));
        assert(collect(p, base, f) == head + collect(t.push(e), base + 1, f));
        assert(collect(s, base, f) == head + tail);
        assert(head + (tail + last) =~= (head + tail) + last);
    }
}

/// Unfolds `collect` once at position `i` of `s`.
pub proof fn lemma_collect_unfold<A>(
    s: Seq<Event>,
    base: int,
    f: spec_fn(Event, int) -> Option<A>,
    i: int,
    n: int,
)
    requires
        0 <= i < n <= s.len(),
    ensures
        collect(s.subrange(i, n), base + i, f) == keep(f(s[i], base + i)) + collect(
            s.subrange(i + 1, n),
            base + i + 1,
            f,
        ),
{
    let r = s.subrange(i, n);
    assert(r.subrange(1, r.len() as int) =~= s.subrange(i + 1, n));
    assert(r[0] == s[i]);
}

/// The summaries of `s` stand at increasing positions within `s`, each one the
/// summary of the update span at its position.
pub proof fn lemma_summaries_indexed(s: Seq<Event>, base: int)
    requires
        0 <= base,
        base + s.len() <= usize::MAX,
    ensures
        forall|j: int|
            #![trigger summaries(s, base)[j]]
            0 <= j < summaries(s, base).len() ==> {
                let u = summaries(s, base)[j];
                &&& base <= u.index.0 < base + s.len()
                &&& summary_of(s[u.index.0 - base], u.index.0 as int) == Some(u)
            },
        forall|j: int, k: int|
            #![trigger summaries(s, base)[j], summaries(s, base)[k]]
            0 <= j < k < summaries(s, base).len() ==> summaries(s, base)[j].index.0 < summaries(
                s,
                base,
            )[k].index.0,
    decreases s.len(),
{
    if s.len() > 0 {
        let t = s.subrange(1, s.len() as int);
        lemma_summaries_indexed(t, base + 1);
        let head = keep(summary_of(s[0], base));
        let rest = summaries(t, base + 1);
        assert(summaries(s, base) == head + rest);
        assert forall|j: int|
            #![trigger summaries(s, base)[j]]
            0 <= j < summaries(s, base).len() implies {
                let u = summaries(s, base)[j];
                &&& base <= u.index.0 < base + s.len()
                &&& summary_of(s[u.index.0 - base], u.index.0 as int) == Some(u)
            } by {
            if j >= head.len() {
                let u = rest[j - head.len()];
                assert(summaries(s, base)[j] == u);
                assert(s[u.index.0 - base] == t[u.index.0 - (base + 1)]);
            }
        }
        assert forall|j: int, k: int|
            #![trigger summaries(s, base)[j], summaries(s, base)[k]]
            0 <= j < k < summaries(s, base).len() implies summaries(s, base)[j].index.0
                < summaries(s, base)[k].index.0 by {
            assert(summaries(s, base)[k] == rest[k - head.len()]);
            if j >= head.len() {
                assert(summaries(s, base)[j] == rest[j - head.len()]);
            }
        }
    }
}

/// What `collect` picks out of `s` is what it picks out of the first `n`
/// events followed by what it picks out of the others.
pub proof fn lemma_collect_split<A>(
    s: Seq<Event>,
    base: int,
    f: spec_fn(Event, int) -> Option<A>,
    n: int,
)
    requires
        0 <= n <= s.len(),
    ensures
        collect(s, base, f) == collect(s.take(n), base, f) + collect(s.skip(n), base + n, f),
    decreases s.len(),
{
    if n == 0 {
        assert(s.take(0) =~= Seq::<Event>::empty());
        assert(s.skip(0) =~= s);
        assert(collect(s, base, f) =~= collect(s.take(n), base, f) + collect(s.skip(n), base + n, f));
    } else {
        let t = s.subrange(1, s.len() as int);
        lemma_collect_split(t, base + 1, f, n - 1);
        let p = s.take(n);
        assert(p.subrange(1, p.len() as int) =~= t.take(n - 1));
        assert(p[0] == s[0]);
        assert(t.skip(n - 1) =~= s.skip(n));
        let head = keep(f(s[0], base));
        assert(collect(p, base, f) == head + collect(t.take(n - 1), base + 1, f));
        assert(collect(s, base, f) =~= collect(s.take(n), base, f) + collect(s.skip(n), base + n, f));
    }
}

/// `buckets_before` is the prefix that ends where the buckets reach `target`.
pub proof fn lemma_buckets_before(s: Seq<Bucket>, target: nat, n: int)
    requires
        0 <= n <= s.len(),
        forall|j: int| #![trigger s[j]] 0 <= j < n ==> s[j].index.0 < target,
        n == s.len() || s[n].index.0 >= target,
    ensures
        buckets_before(s, target) == s.take(n),
    decreases s.len(),
{
    if n == 0 {
        assert(s.take(0) =~= Seq::<Bucket>::empty());
    } else {
        let t = s.subrange(1, s.len() as int);
        assert(s[0].index.0 < target);
        assert forall|j: int| #![trigger t[j]] 0 <= j < n - 1 implies t[j].index.0 < target by {
            assert(t[j] == s[j + 1]);
        }
        if n < s.len() {
            assert(t[n - 1] == s[n]);
        }
        lemma_buckets_before(t, target, n - 1);
        assert(buckets_before(s, target) =~= s.take(n));
    }
}

/// Pushing keeps a timeline well formed and moves its end by one.
pub proof fn lemma_pushed_wf(v: TimelineView, e: Event)
    requires
        v.wf(),
        v.end() < usize::MAX,
    ensures
        v.pushed(e).wf(),
        v.pushed(e).end() == v.end() + 1,
        v.pushed(e).capacity == v.capacity,
        v.pushed(e).removed == v.removed + (if v.events.len() + 1 > v.capacity {
            1int
        } else {
            0
        }),
{
    let rate = if e.is_update() {
        fold_rate(v.update_rate, e.spec_at(), v.end())
    } else {
        v.update_rate
    };
    assert forall|j: int|
        #![trigger rate[j]]
        0 <= j < rate.len() implies {
            &&& rate[j].total >= 1
            &&& rate[j].index.0 + rate[j].total <= v.end() + 1
            &&& rate[j].second == rate[j].at.spec_unix_second()
        } by {
        if j < v.update_rate.len() {
            assert(v.update_rate[j] == v.update_rate[j]);
        }
        if v.update_rate.len() > 0 {
            assert(v.update_rate[v.update_rate.len() - 1] == v.update_rate.last());
        }
    }
    assert forall|j: int, k: int|
        #![trigger rate[j], rate[k]]
        0 <= j < k < rate.len() implies rate[j].index.0 < rate[k].index.0 by {
        assert(v.update_rate[j] == v.update_rate[j]);
        if k < v.update_rate.len() {
            assert(v.update_rate[k] == v.update_rate[k]);
        }
    }
    assert forall|j: int| #![trigger rate[j]] 0 < j < rate.len() implies rate[j - 1].second
        != rate[j].second by {
        assert(v.update_rate[j - 1] == v.update_rate[j - 1]);
        if j < v.update_rate.len() {
            assert(v.update_rate[j] == v.update_rate[j]);
        }
    }
    let w = v.pushed(e);
    let appended = v.events.push(e);
    if appended.len() > v.capacity {
        let gone = appended[0];
        if gone.is_update() && rate.len() > 0 && rate[0].at.spec_before(gone.spec_at()) {
            let rest = rate.subrange(1, rate.len() as int);
            assert(w.update_rate == rest);
            assert forall|j: int| #![trigger rest[j]] 0 <= j < rest.len() implies {
                &&& rest[j].total >= 1
                &&& rest[j].index.0 + rest[j].total <= w.end()
                &&& rest[j].second == rest[j].at.spec_unix_second()
            } by {
                assert(rest[j] == rate[j + 1]);
            }
            assert forall|j: int, k: int|
                #![trigger rest[j], rest[k]]
                0 <= j < k < rest.len() implies rest[j].index.0 < rest[k].index.0 by {
                assert(rest[j] == rate[j + 1]);
                assert(rest[k] == rate[k + 1]);
            }
            assert forall|j: int| #![trigger rest[j]] 0 < j < rest.len() implies rest[j - 1].second
                != rest[j].second by {
                assert(rest[j] == rate[j + 1]);
                assert(rest[j - 1] == rate[j]);
            }
        }
    }
}

impl View for Timeline {
    type V = TimelineView;

    closed spec fn view(&self) -> TimelineView {
        TimelineView {
            events: self.events@,
            updates: self.updates@,
            update_rate: self.update_rate@,
            removed: self.removed as nat,
            capacity: self.capacity as nat,
        }
    }
}

impl Default for Timeline {
    fn default() -> (t: Timeline)
        ensures
            t.wf(),
            t@ == TimelineView::empty(MAX_SIZE as nat),
    {
        Timeline::new()
    }
}

impl Timeline {
    /// The timeline's invariant.
    pub open spec fn wf(&self) -> bool {
        self@.wf()
    }

    /// An empty timeline that keeps `MAX_SIZE` events.
    pub fn new() -> (t: Timeline)
        ensures
            t.wf(),
            t@ == TimelineView::empty(MAX_SIZE as nat),
    {
        Timeline::with_capacity(MAX_SIZE)
    }

    /// An empty timeline that keeps `capacity` events.
    pub fn with_capacity(capacity: usize) -> (t: Timeline)
        ensures
            t.wf(),
            t@ == TimelineView::empty(capacity as nat),
    {
        let t = Timeline {
            events: VecDeque::new(),
            updates: VecDeque::new(),
            update_rate: VecDeque::new(),
            removed: 0,
            capacity,
        };
        assert(t@.updates =~= summaries(t@.events, 0));
        t
    }

    /// How many events the timeline keeps at most.
    pub fn capacity(&self) -> (r: usize)
        ensures
            r == self@.capacity,
    {
        self.capacity
    }

    /// How many events the timeline holds.
    pub fn len(&self) -> (r: usize)
        ensures
            r == self@.events.len(),
    {
        self.events.len()
    }

    /// The positions that a playhead can take: from the oldest retained event to
    /// the end.
    pub fn range(&self) -> (r: RangeInclusive<Index>)
        requires
            self.wf(),
        ensures
            r@.start == Index(self@.removed as usize),
            r@.end == Index(self@.end() as usize),
            !r@.exhausted,
    {
        RangeInclusive::new(Index(self.removed), self.end())
    }

    /// The position that the next event will take.
    pub fn end(&self) -> (r: Index)
        requires
            self.wf(),
        ensures
            r.0 == self@.end(),
    {
        Index(self.events.len() + self.removed)
    }

    /// The position that a playhead stands for: the end when live.
    pub fn index(&self, playhead: Playhead) -> (r: Index)
        requires
            self.wf(),
        ensures
            r.0 == self@.resolve(playhead),
    {
        match playhead {
            Playhead::Live => self.end(),
            Playhead::Paused(index) => index,
        }
    }

    /// Appends `event`, records it in the derived indices, and evicts the oldest
    /// event when the timeline is over its capacity.
    pub fn push(&mut self, event: Event)
        requires
            old(self).wf(),
            old(self)@.end() < usize::MAX,
        ensures
            final(self).wf(),
            final(self)@ == old(self)@.pushed(event),
    {
        let ghost v = self@;
        let end = self.events.len() + self.removed;
        if let Event::SpanFinished {
            span: Span::Update { number, tasks, subscriptions, message },
            at,
            duration,
        } = &event {
            self.updates.push_back(
                Update {
                    index: Index(end),
                    message: message.clone(),
                    duration: *duration,
                    number: *number,
                    tasks: *tasks,
                    subscriptions: *subscriptions,
                },
            );
            let second = at.unix_second();
            let n = self.update_rate.len();
            if n > 0 && self.update_rate[n - 1].second == second {
                let last = self.update_rate[n - 1];
                assert(v.update_rate[n - 1] == last);
                assert(last.index.0 + last.total <= v.end());
                self.update_rate.pop_back();
                self.update_rate.push_back(
                    Bucket { index: last.index, at: *at, second, total: last.total + 1 },
                );
                assert(self.update_rate@ =~= fold_rate(v.update_rate, *at, v.end()));
            } else {
                self.update_rate.push_back(Bucket { index: Index(end), at: *at, second, total: 1 });
            }
        }
        let ghost rate = if event.is_update() {
            fold_rate(v.update_rate, event.spec_at(), v.end())
        } else {
            v.update_rate
        };
        proof {
            lemma_collect_push(
                v.events,
                v.removed as int,
                |e: Event, i: int| summary_of(e, i),
                event,
            );
            assert(self.updates@ =~= summaries(v.events.push(event), v.removed as int));
            assert(self.update_rate@ == rate);
            lemma_pushed_wf(v, event);
        }
        self.events.push_back(event);
        if self.events.len() > self.capacity {
            let ghost appended = self.events@;
            proof {
                lemma_collect_unfold(
                    appended,
                    v.removed as int,
                    |e: Event, i: int| summary_of(e, i),
                    0,
                    appended.len() as int,
                );
                assert(appended.subrange(0, appended.len() as int) =~= appended);
            }
            let ghost before = self.updates@;
            let ghost kept = appended.subrange(1, appended.len() as int);
            let ghost head = keep(summary_of(appended[0], v.removed as int));
            assert(before == head + summaries(kept, v.removed + 1 as int));
            let gone = self.events.pop_front();
            if let Some(Event::SpanFinished { span: Span::Update { .. }, at, .. }) = gone {
                self.updates.pop_front();
                assert(self.updates@ =~= summaries(kept, v.removed + 1 as int));
                if self.update_rate.len() > 0 && self.update_rate[0].at.before(at) {
                    self.update_rate.pop_front();
                }
            } else {
                assert(head =~= Seq::<Update>::empty());
                assert(self.updates@ =~= summaries(kept, v.removed + 1 as int));
            }
            self.removed = self.removed + 1;
        }
    }

    /// Forgets every event and derived record; positions carry on from where
    /// the oldest retained event stood.
    pub fn clear(&mut self)
        requires
            old(self).wf(),
        ensures
            final(self).wf(),
            final(self)@ == (TimelineView {
                events: Seq::empty(),
                updates: Seq::empty(),
                update_rate: Seq::empty(),
                removed: old(self)@.removed,
                capacity: old(self)@.capacity,
            }),
    {
        self.events.clear();
        self.updates.clear();
        self.update_rate.clear();
        assert(self@.updates =~= summaries(self@.events, self@.removed as int));
    }
    /// How many retained events stand before `playhead`.
    fn visible(&self, playhead: Playhead) -> (r: usize)
        requires
            self.wf(),
        ensures
            r == self@.visible(playhead),
            r <= self@.events.len(),
    {
        let end = self.events.len() + self.removed;
        let at = match playhead {
            Playhead::Live => end,
            Playhead::Paused(index) => if index.0 <= end {
                index.0
            } else {
                end
            },
        };
        if at >= self.removed {
            at - self.removed
        } else {
            0
        }
    }

    /// The retained events before `playhead`, newest first.
    pub fn seek(&self, playhead: Playhead) -> (r: Vec<&Event>)
        requires
            self.wf(),
        ensures
            r@.len() == self@.seek_view(playhead).len(),
            forall|k: int| 0 <= k < r@.len() ==> *r@[k] == self@.seek_view(playhead)[k],
    {
        let n = self.visible(playhead);
        let mut r: Vec<&Event> = Vec::new();
        let mut i: usize = n;
        while i > 0
            invariant
                i <= n,
                n == self@.visible(playhead),
                n <= self@.events.len(),
                r@.len() == n - i,
                forall|k: int| 0 <= k < r@.len() ==> *r@[k] == self@.events[n - 1 - k],
            decreases i,
        {
            i = i - 1;
            r.push(&self.events[i]);
        }
        r
    }

    /// The retained events before `playhead`, newest first, each with its
    /// position in the stream.
    pub fn seek_with_index(&self, playhead: Playhead) -> (r: Vec<(Index, &Event)>)
        requires
            self.wf(),
        ensures
            r@.len() == self@.seek_view(playhead).len(),
            forall|k: int|
                0 <= k < r@.len() ==> {
                    &&& r@[k].0 == Index((self@.removed + r@.len() - 1 - k) as usize)
                    &&& *r@[k].1 == self@.seek_view(playhead)[k]
                },
    {
        let n = self.visible(playhead);
        let mut r: Vec<(Index, &Event)> = Vec::new();
        let mut i: usize = n;
        while i > 0
            invariant
                i <= n,
                n == self@.visible(playhead),
                n <= self@.events.len(),
                self@.end() <= usize::MAX,
                r@.len() == n - i,
                forall|k: int|
                    0 <= k < r@.len() ==> {
                        &&& r@[k].0 == Index((self@.removed + n - 1 - k) as usize)
                        &&& *r@[k].1 == self@.events[n - 1 - k]
                    },
            decreases i,
        {
            i = i - 1;
            r.push((Index(self.removed + i), &self.events[i]));
        }
        r
    }

    /// The spans of `stage` before `playhead`, newest first.
    pub fn timeframes(&self, playhead: Playhead, stage: chart::Stage) -> (r: Vec<Timeframe>)
        requires
            self.wf(),
        ensures
            r@ == self@.timeframes_view(playhead, stage),
    {
        let ghost f = |e: Event, i: int| frame_of(e, i, stage);
        let ghost base = self@.removed as int;
        let n = self.visible(playhead);
        let mut r: Vec<Timeframe> = Vec::new();
        let mut i: usize = n;
        assert(self@.events.subrange(n as int, n as int) =~= Seq::<Event>::empty());
        while i > 0
            invariant
                i <= n,
                n == self@.visible(playhead),
                n <= self@.events.len(),
                self@.end() <= usize::MAX,
                base == self@.removed,
                f == (|e: Event, i: int| frame_of(e, i, stage)),
                r@ == collect(self@.events.subrange(i as int, n as int), base + i, f).reverse(),
            decreases i,
        {
            i = i - 1;
            let ghost prev = r@;
            proof {
                lemma_collect_unfold(self@.events, base, f, i as int, n as int);
            }
            if let Event::SpanFinished { at, duration, span } = &self.events[i] {
                if chart::Stage::from(span.stage()) == stage {
                    r.push(Timeframe { index: Index(self.removed + i), at: *at, duration: *duration });
                }
            }
            let ghost later = collect(self@.events.subrange(i + 1, n as int), base + i + 1, f);
            let ghost head = keep(f(self@.events[i as int], base + i));
            assert((head + later).reverse() =~= later.reverse() + head);
            assert(r@ =~= prev + head);
        }
        assert(self@.events.subrange(0, n as int) =~= self@.events.take(n as int));
        r
    }

    /// Where the summaries before position `target` end.
    fn updates_before(&self, target: usize) -> (n: usize)
        requires
            self.wf(),
        ensures
            n <= self@.updates.len(),
            forall|j: int| #![trigger self@.updates[j]] 0 <= j < n ==> self@.updates[j].index.0 < target,
            forall|j: int|
                #![trigger self@.updates[j]]
                n <= j < self@.updates.len() ==> self@.updates[j].index.0 >= target,
    {
        proof {
            lemma_summaries_indexed(self@.events, self@.removed as int);
        }
        let mut lo: usize = 0;
        let mut hi: usize = self.updates.len();
        while lo < hi
            invariant
                lo <= hi <= self@.updates.len(),
                self@.updates == summaries(self@.events, self@.removed as int),
                forall|j: int, k: int|
                    #![trigger self@.updates[j], self@.updates[k]]
                    0 <= j < k < self@.updates.len() ==> self@.updates[j].index.0
                        < self@.updates[k].index.0,
                forall|j: int| #![trigger self@.updates[j]] 0 <= j < lo ==> self@.updates[j].index.0 < target,
                forall|j: int|
                    #![trigger self@.updates[j]]
                    hi <= j < self@.updates.len() ==> self@.updates[j].index.0 >= target,
            decreases hi - lo,
        {
            let mid = lo + (hi - lo) / 2;
            if self.updates[mid].index.0 < target {
                lo = mid + 1;
            } else {
                hi = mid;
            }
        }
        lo
    }

    /// Where the rate buckets before position `target` end.
    fn buckets_before(&self, target: usize) -> (n: usize)
        requires
            self.wf(),
        ensures
            n <= self@.update_rate.len(),
            forall|j: int|
                #![trigger self@.update_rate[j]]
                0 <= j < n ==> self@.update_rate[j].index.0 < target,
            n == self@.update_rate.len() || self@.update_rate[n as int].index.0 >= target,
    {
        let mut lo: usize = 0;
        let mut hi: usize = self.update_rate.len();
        while lo < hi
            invariant
                lo <= hi <= self@.update_rate.len(),
                self@.rate_wf(),
                forall|j: int|
                    #![trigger self@.update_rate[j]]
                    0 <= j < lo ==> self@.update_rate[j].index.0 < target,
                hi == self@.update_rate.len() || self@.update_rate[hi as int].index.0 >= target,
            decreases hi - lo,
        {
            let mid = lo + (hi - lo) / 2;
            if self.update_rate[mid].index.0 < target {
                assert forall|j: int|
                    #![trigger self@.update_rate[j]]
                    0 <= j <= mid implies self@.update_rate[j].index.0 < target by {
                    if j < mid {
                        assert(self@.update_rate[j].index.0 < self@.update_rate[mid as int].index.0);
                    }
                }
                lo = mid + 1;
            } else {
                hi = mid;
            }
        }
        lo
    }

    /// The summaries of the update spans before `playhead`, newest first.
    pub fn updates(&self, playhead: Playhead) -> (r: Vec<&Update>)
        requires
            self.wf(),
        ensures
            r@.len() == self@.updates_view(playhead).len(),
            forall|k: int| 0 <= k < r@.len() ==> *r@[k] == self@.updates_view(playhead)[k],
    {
        let target = self.index(playhead).0;
        let n = self.updates_before(target);
        let ghost vis = self@.visible(playhead) as int;
        let ghost base = self@.removed as int;
        let ghost all = self@.updates;
        let ghost front = summaries(self@.events.take(vis), base);
        let ghost back = summaries(self@.events.skip(vis), base + vis);
        proof {
            lemma_collect_split(self@.events, base, |e: Event, i: int| summary_of(e, i), vis);
            lemma_summaries_indexed(self@.events.take(vis), base);
            lemma_summaries_indexed(self@.events.skip(vis), base + vis);
            assert(all == front + back);
            if n < front.len() {
                assert(all[n as int] == front[n as int]);
            }
            if n > front.len() {
                assert(all[front.len() as int] == back[0]);
            }
            assert(n == front.len());
            assert(all.take(n as int) =~= front);
        }
        let mut r: Vec<&Update> = Vec::new();
        let mut i: usize = n;
        while i > 0
            invariant
                i <= n,
                n <= self@.updates.len(),
                r@.len() == n - i,
                forall|k: int| 0 <= k < r@.len() ==> *r@[k] == self@.updates[n - 1 - k],
            decreases i,
        {
            i = i - 1;
            r.push(&self.updates[i]);
        }
        r
    }

    /// The rate buckets that begin before `playhead`, newest first.
    pub fn update_rate(&self, playhead: Playhead) -> (r: Vec<Bucket>)
        requires
            self.wf(),
        ensures
            r@ == self@.update_rate_view(playhead),
    {
        let target = self.index(playhead).0;
        let n = self.buckets_before(target);
        proof {
            lemma_buckets_before(self@.update_rate, target as nat, n as int);
        }
        let mut r: Vec<Bucket> = Vec::new();
        let mut i: usize = n;
        while i > 0
            invariant
                i <= n,
                n <= self@.update_rate.len(),
                r@.len() == n - i,
                forall|k: int| 0 <= k < r@.len() ==> r@[k] == self@.update_rate[n - 1 - k],
            decreases i,
        {
            i = i - 1;
            r.push(self.update_rate[i]);
        }
        assert(r@ =~= self@.update_rate.take(n as int).reverse());
        r
    }

    /// When the newest event before `playhead` was reported, if there is one.
    pub fn time_at(&self, playhead: Playhead) -> (r: Option<Time>)
        requires
            self.wf(),
        ensures
            r == self@.time_at_view(playhead),
    {
        let n = self.visible(playhead);
        if n > 0 {
            Some(self.events[n - 1].at())
        } else {
            None
        }
    }
}

} // verus!
