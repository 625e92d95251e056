use comet::beacon::span::{PresentStage, Primitive, Span};
use comet::beacon::Event;
use comet::chart::Stage;
use comet::time::{Duration, Time};
use comet::timeline::{Index, Playhead, Timeline, MAX_SIZE};

fn at(secs: i64, nanos: u32) -> Time {
    Time::new(secs, nanos)
}

fn update(secs: i64, nanos: u32, millis: u64, number: usize) -> Event {
    Event::SpanFinished {
        at: at(secs, nanos),
        duration: Duration::from_millis(millis),
        span: Span::Update {
            number,
            message: format!("message {number}"),
            tasks: number * 2,
            subscriptions: number + 1,
        },
    }
}

fn connected(name: &str) -> Event {
    Event::Connected {
        at: at(100, 0),
        name: name.to_string(),
        version: "0.14.0".to_string(),
        can_time_travel: true,
    }
}

fn sampled(alive: usize) -> Event {
    Event::SubscriptionsTracked { at: at(101, 0), amount_alive: alive }
}

fn view_span(secs: i64, millis: u64) -> Event {
    Event::SpanFinished {
        at: at(secs, 0),
        duration: Duration::from_millis(millis),
        span: Span::View { window: 1 },
    }
}

fn update_number(e: &Event) -> Option<usize> {
    match e {
        Event::SpanFinished { span: Span::Update { number, .. }, .. } => Some(*number),
        _ => None,
    }
}

#[test]
fn four_events_scenario() {
    let mut t = Timeline::new();
    t.push(connected("app"));
    t.push(update(100, 0, 10, 1));
    t.push(update(100, 500, 12, 2));
    t.push(sampled(3));
    assert_eq!(t.end(), Index(4));
    let updates = t.updates(Playhead::Live);
    let numbers: Vec<usize> = updates.iter().map(|u| u.number).collect();
    assert_eq!(numbers, vec![2, 1]);
    assert_eq!(updates[0].message, "message 2");
    assert_eq!(updates[0].index, Index(2));
    assert_eq!(updates[1].index, Index(1));
    let frames = t.timeframes(Playhead::Live, Stage::Update);
    assert_eq!(frames.len(), 2);
    assert_eq!(frames[0].duration, Duration::from_millis(12));
    assert_eq!(frames[1].duration, Duration::from_millis(10));
    assert_eq!(frames[0].index, Index(2));
    assert_eq!(frames[1].index, Index(1));
}

#[test]
fn capacity_two_keeps_last_two_updates() {
    let mut t = Timeline::with_capacity(2);
    t.push(update(100, 0, 1, 1));
    t.push(update(100, 1, 2, 2));
    t.push(update(100, 2, 3, 3));
    assert_eq!(*t.range().start(), Index(1));
    assert_eq!(*t.range().end(), Index(3));
    let numbers: Vec<usize> = t.updates(Playhead::Live).iter().map(|u| u.number).collect();
    assert_eq!(numbers, vec![3, 2]);
    assert_eq!(t.len(), 2);
}

#[test]
fn end_grows_by_one_per_push() {
    let mut t = Timeline::with_capacity(3);
    for n in 0..7usize {
        assert_eq!(t.end(), Index(n));
        t.push(sampled(n));
        assert_eq!(t.end(), Index(n + 1));
        assert_eq!(*t.range().start(), Index((n + 1).saturating_sub(3)));
    }
}

#[test]
fn eviction_keeps_capacity_and_shifts_range() {
    let mut t = Timeline::with_capacity(5);
    for n in 0..8usize {
        t.push(sampled(n));
    }
    assert_eq!(t.len(), 5);
    assert_eq!(t.capacity(), 5);
    assert_eq!(*t.range().start(), Index(3));
}

#[test]
fn seek_live_returns_pushes_newest_first() {
    let mut t = Timeline::new();
    for n in 0..5usize {
        t.push(sampled(n));
    }
    let seen: Vec<usize> = t
        .seek(Playhead::Live)
        .iter()
        .map(|e| match e {
            Event::SubscriptionsTracked { amount_alive, .. } => *amount_alive,
            _ => usize::MAX,
        })
        .collect();
    assert_eq!(seen, vec![4, 3, 2, 1, 0]);
}

#[test]
fn seek_paused_counts_from_the_oldest_retained() {
    let mut t = Timeline::with_capacity(4);
    for n in 0..6usize {
        t.push(sampled(n));
    }
    // positions 2..6 are retained
    assert_eq!(t.seek(Playhead::Paused(Index(5))).len(), 3);
    assert_eq!(t.seek(Playhead::Paused(Index(2))).len(), 0);
    assert_eq!(t.seek(Playhead::Paused(Index(1))).len(), 0);
    assert_eq!(t.seek(Playhead::Paused(Index(6))).len(), 4);
    // a playhead past the end counts as the end
    assert_eq!(t.seek(Playhead::Paused(Index(100))).len(), 4);
}

#[test]
fn seek_with_index_pairs_logical_positions() {
    let mut t = Timeline::with_capacity(3);
    for n in 0..5usize {
        t.push(sampled(n));
    }
    let items = t.seek_with_index(Playhead::Live);
    let indices: Vec<Index> = items.iter().map(|(i, _)| *i).collect();
    assert_eq!(indices, vec![Index(4), Index(3), Index(2)]);
    match items[0].1 {
        Event::SubscriptionsTracked { amount_alive, .. } => assert_eq!(*amount_alive, 4),
        _ => panic!("wrong event"),
    }
}

#[test]
fn summaries_follow_their_events() {
    let mut t = Timeline::with_capacity(3);
    t.push(update(100, 0, 5, 1));
    t.push(sampled(0));
    t.push(update(100, 1, 5, 2));
    t.push(update(100, 2, 5, 3));
    // the first update was evicted with its summary
    let updates = t.updates(Playhead::Live);
    assert_eq!(updates.len(), 2);
    for u in &updates {
        let position = u.index.0 - t.range().start().0;
        let event = t.seek(Playhead::Live)[t.len() - 1 - position];
        assert_eq!(update_number(event), Some(u.number));
    }
}

#[test]
fn rate_buckets_fold_within_a_second() {
    let mut t = Timeline::new();
    t.push(update(200, 0, 1, 1));
    t.push(update(200, 300, 1, 2));
    t.push(update(200, 999_999_999, 1, 3));
    t.push(update(201, 0, 1, 4));
    let buckets = t.update_rate(Playhead::Live);
    let totals: Vec<usize> = buckets.iter().map(|b| b.total).collect();
    assert_eq!(totals, vec![1, 3]);
    assert_eq!(buckets[0].second, 201);
    assert_eq!(buckets[1].second, 200);
    assert_eq!(buckets[1].index, Index(0));
    assert_eq!(buckets[1].at, at(200, 999_999_999));
    assert_eq!(buckets[0].index, Index(3));
}

#[test]
fn rate_bucket_before_epoch_counts_as_second_zero() {
    let mut t = Timeline::new();
    t.push(update(-5, 0, 1, 1));
    t.push(update(0, 10, 1, 2));
    let buckets = t.update_rate(Playhead::Live);
    assert_eq!(buckets.len(), 1);
    assert_eq!(buckets[0].second, 0);
    assert_eq!(buckets[0].total, 2);
}

#[test]
fn rate_query_stops_at_the_playhead() {
    let mut t = Timeline::new();
    t.push(update(10, 0, 1, 1));
    t.push(update(11, 0, 1, 2));
    t.push(update(12, 0, 1, 3));
    let buckets = t.update_rate(Playhead::Paused(Index(2)));
    let seconds: Vec<u64> = buckets.iter().map(|b| b.second).collect();
    assert_eq!(seconds, vec![11, 10]);
}

#[test]
fn rate_bucket_eviction_lags() {
    let mut t = Timeline::with_capacity(2);
    t.push(update(10, 0, 1, 1));
    t.push(update(10, 5, 1, 2));
    t.push(update(11, 0, 1, 3));
    // the evicted update was the first of its bucket, whose latest time is
    // later than it: the bucket stays
    assert_eq!(t.update_rate(Playhead::Live).len(), 2);
    t.push(update(12, 0, 1, 4));
    // now the evicted update is the bucket's latest: the bucket is still not
    // older than it, so it stays too
    assert_eq!(t.update_rate(Playhead::Live).len(), 3);
    t.push(update(13, 0, 1, 5));
    // the bucket of second 10 predates the evicted update of second 11
    let seconds: Vec<u64> = t.update_rate(Playhead::Live).iter().map(|b| b.second).collect();
    assert_eq!(seconds, vec![13, 12, 11]);
}

#[test]
fn fresh_timeline_is_empty() {
    let t = Timeline::new();
    assert_eq!(t.range(), Index(0)..=Index(0));
    assert_eq!(t.capacity(), MAX_SIZE);
    assert_eq!(t.len(), 0);
    assert!(t.seek(Playhead::Live).is_empty());
    assert!(t.seek_with_index(Playhead::Paused(Index(3))).is_empty());
    assert!(t.timeframes(Playhead::Live, Stage::Update).is_empty());
    assert!(t.updates(Playhead::Live).is_empty());
    assert!(t.update_rate(Playhead::Live).is_empty());
    assert_eq!(t.time_at(Playhead::Live), None);
}

#[test]
fn time_at_is_the_newest_event_before_the_playhead() {
    let mut t = Timeline::new();
    t.push(view_span(7, 1));
    t.push(view_span(9, 1));
    assert_eq!(t.time_at(Playhead::Live), Some(at(9, 0)));
    assert_eq!(t.time_at(Playhead::Paused(Index(1))), Some(at(7, 0)));
    assert_eq!(t.time_at(Playhead::Paused(Index(0))), None);
}

#[test]
fn index_resolves_playheads() {
    let mut t = Timeline::new();
    t.push(sampled(1));
    assert_eq!(t.index(Playhead::Live), Index(1));
    assert_eq!(t.index(Playhead::Paused(Index(9))), Index(9));
    assert!(Playhead::Live.is_live());
    assert!(!Playhead::from(Index(0)).is_live());
    assert_eq!(Index::from(7u8), Index(7));
    assert_eq!(Index(3).sub(5), Index(0));
    assert_eq!(Index(3).sub(1), Index(2));
    assert_eq!(Index(3).add(4), Index(7));
}

#[test]
fn clear_forgets_events_and_derived_records() {
    let mut t = Timeline::with_capacity(2);
    t.push(update(10, 0, 1, 1));
    t.push(update(10, 1, 1, 2));
    t.push(update(10, 2, 1, 3));
    t.clear();
    assert_eq!(t.len(), 0);
    assert_eq!(t.range(), Index(1)..=Index(1));
    assert!(t.updates(Playhead::Live).is_empty());
    assert!(t.update_rate(Playhead::Live).is_empty());
    // a playhead left past the end behaves as the end
    assert!(t.seek(Playhead::Paused(Index(3))).is_empty());
    t.push(update(10, 3, 1, 4));
    assert_eq!(t.updates(Playhead::Live).len(), 1);
    assert_eq!(t.updates(Playhead::Live)[0].index, Index(1));
}

#[test]
fn timeframes_select_one_stage() {
    let mut t = Timeline::new();
    t.push(view_span(1, 4));
    t.push(update(1, 0, 6, 1));
    t.push(Event::SpanFinished {
        at: at(2, 0),
        duration: Duration::from_millis(8),
        span: Span::Prepare { primitive: Primitive::Quad },
    });
    t.push(Event::SpanFinished {
        at: at(2, 0),
        duration: Duration::from_millis(9),
        span: Span::Present {
            window: 1,
            prepare: PresentStage {
                quads: Duration::from_millis(0),
                triangles: Duration::from_millis(0),
                shaders: Duration::from_millis(0),
                text: Duration::from_millis(0),
                images: Duration::from_millis(0),
            },
            render: PresentStage {
                quads: Duration::from_millis(0),
                triangles: Duration::from_millis(0),
                shaders: Duration::from_millis(0),
                text: Duration::from_millis(0),
                images: Duration::from_millis(0),
            },
            layers: 2,
        },
    });
    t.push(Event::SpanFinished {
        at: at(3, 0),
        duration: Duration::from_millis(11),
        span: Span::Custom { name: "load".to_string() },
    });
    let view = t.timeframes(Playhead::Live, Stage::View);
    assert_eq!(view.len(), 1);
    assert_eq!(view[0].index, Index(0));
    assert_eq!(t.timeframes(Playhead::Live, Stage::Present).len(), 1);
    assert_eq!(t.timeframes(Playhead::Live, Stage::Prepare(Primitive::Quad)).len(), 1);
    assert_eq!(t.timeframes(Playhead::Live, Stage::Prepare(Primitive::Text)).len(), 0);
    let custom = t.timeframes(Playhead::Live, Stage::Custom("load".to_string()));
    assert_eq!(custom.len(), 1);
    assert_eq!(custom[0].duration, Duration::from_millis(11));
    assert_eq!(t.timeframes(Playhead::Live, Stage::Custom("other".to_string())).len(), 0);
    assert_eq!(t.timeframes(Playhead::Paused(Index(1)), Stage::Update).len(), 0);
}

#[test]
fn duration_from_millis_splits_seconds() {
    assert_eq!(Duration::from_millis(1_234), Duration::new(1, 234_000_000));
    assert!(Duration::from_millis(0).is_zero());
    assert!(!Duration::from_millis(1).is_zero());
    assert!(at(1, 5).before(at(2, 0)));
    assert!(!at(2, 0).before(at(2, 0)));
    assert_eq!(at(-3, 0).unix_second(), 0);
    assert_eq!(at(42, 7).unix_second(), 42);
}

#[test]
fn chart_points_follow_the_queries() {
    let mut t = Timeline::new();
    t.push(update(300, 0, 10, 1));
    t.push(view_span(300, 4));
    t.push(update(300, 5, 12, 2));
    t.push(update(301, 0, 14, 3));
    let durations = comet::chart::updates(&t, Playhead::Live);
    assert_eq!(
        durations,
        vec![
            (Index(3), Duration::from_millis(14)),
            (Index(2), Duration::from_millis(12)),
            (Index(0), Duration::from_millis(10)),
        ]
    );
    assert_eq!(comet::chart::performance(&t, Playhead::Live, &Stage::Update), durations);
    assert_eq!(
        comet::chart::performance(&t, Playhead::Live, &Stage::View),
        vec![(Index(1), Duration::from_millis(4))]
    );
    assert_eq!(
        comet::chart::tasks_spawned(&t, Playhead::Paused(Index(3))),
        vec![(Index(2), 4), (Index(0), 2)]
    );
    assert_eq!(
        comet::chart::subscriptions_alive(&t, Playhead::Live),
        vec![(Index(3), 4), (Index(2), 3), (Index(0), 2)]
    );
    assert_eq!(comet::chart::message_rate(&t, Playhead::Live), vec![(Index(3), 1), (Index(0), 2)]);
}

#[test]
fn layers_rendered_reads_present_spans() {
    let mut t = Timeline::new();
    let stage = PresentStage {
        quads: Duration::from_millis(1),
        triangles: Duration::from_millis(0),
        shaders: Duration::from_millis(0),
        text: Duration::from_millis(0),
        images: Duration::from_millis(0),
    };
    for layers in [3usize, 5] {
        t.push(Event::SpanFinished {
            at: at(5, 0),
            duration: Duration::from_millis(2),
            span: Span::Present { window: 0, prepare: stage, render: stage, layers },
        });
        t.push(sampled(layers));
    }
    assert_eq!(comet::chart::layers_rendered(&t, Playhead::Live), vec![(Index(2), 5), (Index(0), 3)]);
    assert_eq!(comet::chart::layers_rendered(&t, Playhead::Paused(Index(2))), vec![(Index(0), 3)]);
}
