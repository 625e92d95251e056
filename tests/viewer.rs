use comet::beacon::span::{PresentStage, Span};
use comet::beacon::Event;
use comet::board::Board;
use comet::chart::{Cache, Interaction, Stage, Zoom};
use comet::module::{self, Module};
use comet::screen::custom::{self, Link};
use comet::screen::{Custom, Overview, Present, Screen, Update};
use comet::time::{Duration, Time};
use comet::timeline::{Index, Playhead, Timeline};
use comet::viewer::{Action, Comet, Connection, Message, State};

fn at(secs: i64) -> Time {
    Time::new(secs, 0)
}

fn update(number: usize) -> Event {
    Event::SpanFinished {
        at: at(50),
        duration: Duration::from_millis(3),
        span: Span::Update { number, message: String::new(), tasks: 0, subscriptions: 0 },
    }
}

fn custom_span(name: &str) -> Event {
    Event::SpanFinished {
        at: at(50),
        duration: Duration::from_millis(3),
        span: Span::Custom { name: name.to_string() },
    }
}

fn connected(name: &str) -> Event {
    Event::Connected {
        at: at(1),
        name: name.to_string(),
        version: "1.0.0".to_string(),
        can_time_travel: true,
    }
}

fn stage(ms: u64) -> PresentStage {
    PresentStage {
        quads: Duration::from_millis(ms),
        triangles: Duration::from_millis(ms),
        shaders: Duration::from_millis(0),
        text: Duration::from_millis(0),
        images: Duration::from_millis(0),
    }
}

fn drawn_overview() -> Overview {
    let mut o = Overview::new();
    o.update.fill();
    o.view.fill();
    o.layout.fill();
    o.interact.fill();
    o.draw.fill();
    o.present.fill();
    o
}

#[test]
fn zoom_steps_stay_within_bounds() {
    assert_eq!(Zoom::default(), Zoom(2));
    assert_eq!(Zoom(2).increment(), Zoom(3));
    assert_eq!(Zoom(10).increment(), Zoom(10));
    assert_eq!(Zoom(u16::MAX).increment(), Zoom(10));
    assert_eq!(Zoom(2).decrement(), Zoom(1));
    assert_eq!(Zoom(1).decrement(), Zoom(1));
    assert_eq!(Zoom(0).decrement(), Zoom(1));
}

#[test]
fn stage_labels() {
    assert_eq!(Stage::Update.to_string(), "Update");
    assert_eq!(Stage::Prepare(comet::beacon::span::Primitive::Quad).to_string(), "Quad (prepare)");
    assert_eq!(Stage::Render(comet::beacon::span::Primitive::Text).to_string(), "Text (render)");
    assert_eq!(Stage::Custom("load".to_string()).to_string(), "load");
    assert_eq!(Stage::from(comet::beacon::span::Stage::View(4)), Stage::View);
    assert_eq!(module::Stage::from(comet::beacon::span::Stage::Render(
        comet::beacon::span::Primitive::Image
    )), module::Stage::Present);
    assert_eq!(Board::Overview.to_string(), "Overview");
    assert_eq!(Board::all(), vec![Board::Overview, Board::Update]);
    assert_eq!(Link::Time.path(), "debug/fn.time.html");
    assert_eq!(Link::Debug.path(), "debug/index.html");
}

#[test]
fn overview_clears_only_the_stage_of_the_span() {
    let mut o = drawn_overview();
    o.invalidate_by(&Event::SpanFinished {
        at: at(1),
        duration: Duration::from_millis(1),
        span: Span::Layout { window: 1 },
    });
    assert!(!o.layout.drawn);
    assert!(o.update.drawn && o.view.drawn && o.draw.drawn && o.present.drawn);
    o.invalidate_by(&Event::ThemeChanged { at: at(2) });
    assert_eq!(o, Overview::new());
    let mut o = drawn_overview();
    o.invalidate_by(&Event::Disconnected { at: at(3) });
    assert_eq!(o, drawn_overview());
}

#[test]
fn update_screen_clears_by_event_kind() {
    let mut u = Update::new();
    u.update.fill();
    u.tasks_spawned.fill();
    u.subscriptions_alive.fill();
    u.message_rate.fill();
    u.invalidate_by(&Event::SubscriptionsTracked { at: at(1), amount_alive: 2 });
    assert!(!u.subscriptions_alive.drawn);
    assert!(u.update.drawn && u.tasks_spawned.drawn && u.message_rate.drawn);
    u.invalidate_by(&update(1));
    assert!(!u.update.drawn && !u.tasks_spawned.drawn && !u.message_rate.drawn);
}

#[test]
fn present_screen_adds_charts_of_used_primitives() {
    let mut p = Present::new();
    assert!(p.triangle.is_none());
    p.present.fill();
    p.invalidate_by(&Event::SpanFinished {
        at: at(1),
        duration: Duration::from_millis(1),
        span: Span::Present { window: 1, prepare: stage(2), render: stage(0), layers: 1 },
    });
    assert!(p.triangle.is_some());
    assert!(p.shader.is_none());
    assert!(!p.present.drawn);
    p.quad.render.fill();
    p.invalidate();
    assert!(!p.quad.render.drawn);
    assert!(p.triangle.is_some());
}

#[test]
fn custom_screen_charts_each_name_once() {
    let mut t = Timeline::new();
    t.push(custom_span("a"));
    t.push(custom_span("b"));
    t.push(custom_span("a"));
    t.push(update(1));
    let mut c = Custom::new(&t, Playhead::Live);
    let mut names: Vec<String> = c.timings.iter().map(|t| t.name.clone()).collect();
    names.sort();
    assert_eq!(names, vec!["a".to_string(), "b".to_string()]);
    assert_eq!(Custom::new(&t, Playhead::Paused(Index(1))).timings.len(), 1);
    for timing in c.timings.iter_mut() {
        timing.cache.fill();
    }
    c.invalidate_by(&custom_span("c"));
    assert_eq!(c.timings.len(), 3);
    c.invalidate_by(&custom_span("a"));
    assert_eq!(c.timings.len(), 3);
    for timing in &c.timings {
        assert_eq!(timing.cache.drawn, timing.name == "b");
    }
    assert!(c.update(custom::Message::Browse(Link::TimeWith)).is_none());
    assert!(matches!(
        c.update(custom::Message::Chart(Interaction::Unhovered)),
        Some(custom::Event::ChartInteracted(Interaction::Unhovered))
    ));
}

#[test]
fn screen_delegates_to_its_screen() {
    let mut s = Screen::Overview(drawn_overview());
    s.invalidate_by(&update(1));
    match &s {
        Screen::Overview(o) => {
            assert!(!o.update.drawn);
            assert!(o.view.drawn);
        }
        _ => panic!("screen changed"),
    }
    s.invalidate();
    match &s {
        Screen::Overview(o) => assert_eq!(*o, Overview::new()),
        _ => panic!("screen changed"),
    }
}

#[test]
fn module_panes_follow_their_events() {
    let mut m = Module::performance_chart(module::Stage::Update);
    if let Module::PerformanceChart { cache, .. } = &mut m {
        cache.fill();
    }
    m.invalidate_by(&Event::SubscriptionsTracked { at: at(1), amount_alive: 1 });
    assert!(matches!(m, Module::PerformanceChart { cache: Cache { drawn: true }, .. }));
    m.invalidate_by(&update(1));
    assert!(matches!(m, Module::PerformanceChart { cache: Cache { drawn: false }, .. }));
    assert_eq!(m.title(), "Update");
    assert_eq!(Module::message_rate().title(), "Message Rate");
    let mut s = Module::subscriptions_alive();
    if let Module::SubscriptionsAlive { cache } = &mut s {
        cache.fill();
    }
    s.invalidate_by(&Event::SubscriptionsTracked { at: at(1), amount_alive: 1 });
    assert!(matches!(s, Module::SubscriptionsAlive { cache: Cache { drawn: false } }));
    assert!(matches!(Module::message_log(), Module::MessageLog));
}

#[test]
fn viewer_starts_over_for_another_application() {
    let mut c = Comet::new();
    assert_eq!(c.title(), "comet");
    assert_eq!(c.update(Message::EventReported(connected("app"))), Action::Idle);
    assert_eq!(c.title(), "app - comet");
    c.update(Message::EventReported(update(1)));
    assert_eq!(c.timeline.end(), Index(2));
    c.update(Message::EventReported(connected("app")));
    assert_eq!(c.timeline.len(), 3);
    c.update(Message::EventReported(connected("other")));
    assert_eq!(c.timeline.len(), 1);
    c.update(Message::EventReported(Event::Disconnected { at: at(9) }));
    assert!(matches!(
        c.state,
        State::Working { connection: Connection::Disconnected { .. }, .. }
    ));
    assert_eq!(c.update(Message::EventReported(Event::QuitRequested { at: at(10) })), Action::Exit);
    assert_eq!(c.timeline.len(), 2);
}

#[test]
fn viewer_moves_the_playhead_and_asks_to_rewind() {
    let mut c = Comet::new();
    c.update(Message::EventReported(connected("app")));
    c.update(Message::EventReported(update(7)));
    c.update(Message::EventReported(update(8)));
    assert_eq!(c.update(Message::TogglePause), Action::RewindTo(8));
    assert_eq!(c.playhead, Playhead::Paused(Index(3)));
    assert_eq!(c.update(Message::Previous), Action::RewindTo(7));
    assert_eq!(c.playhead, Playhead::Paused(Index(2)));
    assert_eq!(c.update(Message::Previous), Action::Idle);
    assert_eq!(c.update(Message::Next), Action::RewindTo(7));
    assert_eq!(c.playhead, Playhead::Paused(Index(2)));
    assert_eq!(c.update(Message::Next), Action::GoLive);
    assert_eq!(c.playhead, Playhead::Live);
    assert_eq!(c.update(Message::Chart(Interaction::Hovered(Index(2)))), Action::RewindTo(7));
    assert_eq!(c.playhead, Playhead::Live);
    assert_eq!(c.update(Message::Chart(Interaction::Unhovered)), Action::GoLive);
    assert_eq!(c.update(Message::PlayheadChanged(Index(0))), Action::Idle);
    assert_eq!(c.update(Message::GoLive), Action::GoLive);
    c.update(Message::EventReported(Event::Disconnected { at: at(9) }));
    assert_eq!(c.update(Message::TogglePause), Action::Idle);
}

#[test]
fn viewer_switches_screens_and_zoom() {
    let mut c = Comet::new();
    c.update(Message::EventReported(custom_span("load")));
    assert_eq!(c.update(Message::ShowCustom), Action::Idle);
    match &c.screen {
        Screen::Custom(custom) => assert_eq!(custom.timings.len(), 1),
        _ => panic!("not the custom screen"),
    }
    assert_eq!(
        c.update(Message::Custom(custom::Message::Chart(Interaction::ZoomChanged(Zoom(5))))),
        Action::Idle
    );
    assert_eq!(c.zoom, Zoom(5));
    c.update(Message::IncrementBarWidth);
    assert_eq!(c.zoom, Zoom(6));
    c.update(Message::DecrementBarWidth);
    c.update(Message::DecrementBarWidth);
    assert_eq!(c.zoom, Zoom(4));
    c.update(Message::ShowPresent);
    assert!(matches!(c.screen, Screen::Present(_)));
    c.update(Message::ShowUpdate);
    assert!(matches!(c.screen, Screen::Update(_)));
    c.update(Message::ShowOverview);
    assert!(matches!(c.screen, Screen::Overview(_)));
    assert_eq!(c.update(Message::Quit), Action::Exit);
}

#[test]
fn message_log_lists_the_newest_messages_oldest_first() {
    let mut t = Timeline::new();
    for number in 0..5usize {
        t.push(Event::SpanFinished {
            at: at(1),
            duration: Duration::from_millis(1),
            span: Span::Update {
                number,
                message: format!("m{number}"),
                tasks: 0,
                subscriptions: 0,
            },
        });
    }
    assert_eq!(comet::screen::update::message_log(&t, Playhead::Live, 3), vec!["m2", "m3", "m4"]);
    assert_eq!(comet::screen::update::message_log(&t, Playhead::Paused(Index(2)), 10), vec!["m0", "m1"]);
    assert!(comet::screen::update::message_log(&t, Playhead::Live, 0).is_empty());
}

#[test]
fn hovering_and_scrolling_a_chart() {
    let points = vec![(Index(9), 1usize), (Index(7), 2), (Index(4), 3)];
    assert_eq!(comet::chart::hovered(&points, 1), Some(Index(7)));
    assert_eq!(comet::chart::hovered(&points, 8), Some(Index(4)));
    assert_eq!(comet::chart::hovered::<usize>(&Vec::new(), 0), None);
    assert!(matches!(
        comet::chart::scrolled(Zoom(3), true),
        Some(Interaction::ZoomChanged(Zoom(4)))
    ));
    assert!(matches!(
        comet::chart::scrolled(Zoom(3), false),
        Some(Interaction::ZoomChanged(Zoom(2)))
    ));
    assert!(comet::chart::scrolled(Zoom(10), true).is_none());
    assert!(comet::chart::scrolled(Zoom(1), false).is_none());
}
