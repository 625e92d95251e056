//! What a timeline holds after a sequence of pushes.

use vstd::prelude::*;

use crate::beacon::Event;
use crate::chart;
use crate::time::Time;
use crate::timeline::{
    lemma_pushed_wf, lemma_summaries_indexed, summary_of, Index, Playhead, TimelineView,
};

verus! {

/// The state after pushing each event of `events` in turn.
pub open spec fn push_all(v: TimelineView, events: Seq<Event>) -> TimelineView
    decreases events.len(),
{
    if events.len() == 0 {
        v
    } else {
        push_all(v, events.drop_last()).pushed(events.last())
    }
}

/// Pushes keep a timeline well formed; each one moves the end by exactly one,
/// and the oldest retained position only moves forward, by at most one.
pub proof fn end_advances_by_one_per_push(v: TimelineView, events: Seq<Event>)
    requires
        v.wf(),
        v.end() + events.len() <= usize::MAX,
    ensures
        push_all(v, events).wf(),
        push_all(v, events).capacity == v.capacity,
        push_all(v, events).end() == v.end() + events.len(),
        v.removed <= push_all(v, events).removed <= v.removed + events.len(),
        events.len() > 0 ==> {
            let before = push_all(v, events.drop_last());
            &&& push_all(v, events).end() == before.end() + 1
            &&& before.removed <= push_all(v, events).removed <= before.removed + 1
        },
    decreases events.len(),
{
    if events.len() > 0 {
        end_advances_by_one_per_push(v, events.drop_last());
        lemma_pushed_wf(push_all(v, events.drop_last()), events.last());
    }
}

/// Pushing `n` events into an empty timeline of capacity `c` leaves the last
/// `min(n, c)` of them, and the oldest retained position is `n - min(n, c)`.
pub proof fn pushes_keep_the_newest(capacity: nat, events: Seq<Event>)
    requires
        capacity <= usize::MAX,
        events.len() <= usize::MAX,
    ensures
        push_all(TimelineView::empty(capacity), events).events == events.skip(
            events.len() - push_all(TimelineView::empty(capacity), events).events.len(),
        ),
        push_all(TimelineView::empty(capacity), events).events.len() == if events.len()
            <= capacity {
            events.len()
        } else {
            capacity
        },
        push_all(TimelineView::empty(capacity), events).removed == events.len() - push_all(
            TimelineView::empty(capacity),
            events,
        ).events.len(),
    decreases events.len(),
{
    let empty = TimelineView::empty(capacity);
    assert(empty.updates =~= crate::timeline::summaries(empty.events, 0));
    if events.len() == 0 {
        assert(events.skip(0) =~= events);
    } else {
        let init = events.drop_last();
        pushes_keep_the_newest(capacity, init);
        end_advances_by_one_per_push(empty, init);
        let before = push_all(empty, init);
        let appended = before.events.push(events.last());
        if appended.len() > capacity {
            assert(appended.subrange(1, appended.len() as int) =~= events.skip(
                events.len() - push_all(empty, events).events.len(),
            ));
        } else {
            assert(appended =~= events.skip(events.len() - push_all(empty, events).events.len()));
        }
    }
}

/// Pushing more events than the capacity into an empty timeline leaves it full,
/// with its range starting at the number of surplus events.
pub proof fn eviction_keeps_capacity(capacity: nat, events: Seq<Event>)
    requires
        capacity <= usize::MAX,
        events.len() <= usize::MAX,
        events.len() > capacity,
    ensures
        push_all(TimelineView::empty(capacity), events).events.len() == capacity,
        push_all(TimelineView::empty(capacity), events).removed == events.len() - capacity,
{
    pushes_keep_the_newest(capacity, events);
}

/// Right after pushing events that fit into an empty timeline, seeking from the
/// live end yields them all, newest first.
pub proof fn seek_live_yields_pushes_in_reverse(capacity: nat, events: Seq<Event>)
    requires
        capacity <= usize::MAX,
        events.len() <= capacity,
    ensures
        push_all(TimelineView::empty(capacity), events).seek_view(Playhead::Live)
            == events.reverse(),
{
    pushes_keep_the_newest(capacity, events);
    let v = push_all(TimelineView::empty(capacity), events);
    assert(events.skip(0) =~= events);
    assert(v.events.take(v.events.len() as int) =~= v.events);
}

/// Seeking from a paused position within the range yields one event for each
/// position between the oldest retained one and the playhead.
pub proof fn seek_paused_yields_distance(v: TimelineView, index: Index)
    requires
        v.wf(),
        v.removed <= index.0 <= v.end(),
    ensures
        v.seek_view(Playhead::Paused(index)).len() == index.0 - v.removed,
{
}

/// Each update summary stands at the position of a retained update span and
/// holds what that span measured.
pub proof fn summaries_match_their_events(v: TimelineView)
    requires
        v.wf(),
    ensures
        forall|j: int|
            #![trigger v.updates[j]]
            0 <= j < v.updates.len() ==> {
                let u = v.updates[j];
                &&& v.removed <= u.index.0 < v.end()
                &&& v.events[u.index.0 - v.removed].is_update()
                &&& summary_of(v.events[u.index.0 - v.removed], u.index.0 as int) == Some(u)
            },
{
    lemma_summaries_indexed(v.events, v.removed as int);
}

/// A push that evicts the oldest event also drops its summary: no summary is
/// left at the evicted position.
pub proof fn eviction_drops_the_summary(v: TimelineView, e: Event)
    requires
        v.wf(),
        v.end() < usize::MAX,
        v.events.len() + 1 > v.capacity,
    ensures
        v.pushed(e).removed == v.removed + 1,
        forall|j: int|
            #![trigger v.pushed(e).updates[j]]
            0 <= j < v.pushed(e).updates.len() ==> v.pushed(e).updates[j].index.0 > v.removed,
{
    lemma_pushed_wf(v, e);
    summaries_match_their_events(v.pushed(e));
}

/// Three update spans in one whole second and a fourth in the next second make
/// two rate buckets, of three and of one.
pub proof fn rate_buckets_fold_by_second(capacity: nat, events: Seq<Event>)
    requires
        capacity <= usize::MAX,
        capacity >= 4,
        events.len() == 4,
        forall|i: int| #![trigger events[i]] 0 <= i < 4 ==> events[i].is_update(),
        events[0].spec_at().spec_unix_second() == events[1].spec_at().spec_unix_second(),
        events[1].spec_at().spec_unix_second() == events[2].spec_at().spec_unix_second(),
        events[3].spec_at().spec_unix_second() == events[2].spec_at().spec_unix_second() + 1,
    ensures
        push_all(TimelineView::empty(capacity), events).update_rate.len() == 2,
        push_all(TimelineView::empty(capacity), events).update_rate[0].total == 3,
        push_all(TimelineView::empty(capacity), events).update_rate[1].total == 1,
{
    let v0 = TimelineView::empty(capacity);
    assert(events.take(1).drop_last() =~= Seq::<Event>::empty());
    assert(events.take(2).drop_last() =~= events.take(1));
    assert(events.take(3).drop_last() =~= events.take(2));
    assert(events.drop_last() =~= events.take(3));
    let v1 = push_all(v0, events.take(1));
    let v2 = push_all(v0, events.take(2));
    let v3 = push_all(v0, events.take(3));
    assert(events[0] == events.take(1).last());
    assert(push_all(v0, events.take(1).drop_last()) == v0);
    assert(events[1] == events.take(2).last());
    assert(events[2] == events.take(3).last());
    assert(v1 == v0.pushed(events[0]));
    assert(v1.update_rate.len() == 1 && v1.update_rate[0].total == 1);
    assert(v1.events.len() == 1);
    assert(v2 == v1.pushed(events[1]));
    assert(v2.update_rate.len() == 1 && v2.update_rate[0].total == 2);
    assert(v2.events.len() == 2);
    assert(v3 == v2.pushed(events[2]));
    assert(v3.update_rate.len() == 1 && v3.update_rate[0].total == 3);
    assert(v3.events.len() == 3);
    assert(push_all(v0, events) == v3.pushed(events[3]));
}

/// A fresh timeline spans only position zero and every query on it is empty.
pub proof fn fresh_timeline_is_empty(capacity: nat, playhead: Playhead, stage: chart::Stage)
    requires
        capacity <= usize::MAX,
    ensures
        TimelineView::empty(capacity).wf(),
        TimelineView::empty(capacity).removed == 0,
        TimelineView::empty(capacity).end() == 0,
        TimelineView::empty(capacity).seek_view(playhead) == Seq::<Event>::empty(),
        TimelineView::empty(capacity).timeframes_view(playhead, stage).len() == 0,
        TimelineView::empty(capacity).updates_view(playhead).len() == 0,
        TimelineView::empty(capacity).update_rate_view(playhead).len() == 0,
        TimelineView::empty(capacity).time_at_view(playhead) == Option::<Time>::None,
{
    let v = TimelineView::empty(capacity);
    assert(v.updates =~= crate::timeline::summaries(v.events, 0));
    assert(v.seek_view(playhead) =~= Seq::<Event>::empty());
    assert(v.events.take(0) =~= Seq::<Event>::empty());
}

} // verus!
