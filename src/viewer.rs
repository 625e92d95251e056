//! The viewer's decisions: what each message does to its state, and what it
//! asks of the application that it watches.

use vstd::prelude::*;

use crate::beacon::span::Span;
use crate::beacon::Event;
use crate::chart::{Interaction, Zoom};
use crate::screen::{self, custom, Screen};
use crate::time::Time;
use crate::timeline::{Index, Playhead, Timeline, TimelineView};

verus! {

/// The link to the watched application.
#[derive(Debug, Clone, Copy, PartialEq, Eq, Structural)]
pub enum Connection {
    Connected,
    Disconnected { at: Time },
}

/// Whether an application was seen yet, and which one.
#[derive(Debug, Clone)]
pub enum State {
    Waiting,
    Working { name: String, connection: Connection },
}

/// An input to the viewer.
#[derive(Debug, Clone)]
pub enum Message {
    EventReported(Event),
    PlayheadChanged(Index),
    TogglePause,
    Previous,
    Next,
    GoLive,
    ShowOverview,
    ShowUpdate,
    ShowPresent,
    ShowCustom,
    Custom(custom::Message),
    Chart(Interaction),
    IncrementBarWidth,
    DecrementBarWidth,
    Quit,
}

/// What the viewer asks for after a message.
#[derive(Debug, Clone, Copy, PartialEq, Eq, Structural)]
pub enum Action {
    /// Nothing.
    Idle,
    /// Close the viewer.
    Exit,
    /// Ask the application to show its state after the update of this number.
    RewindTo(usize),
    /// Ask the application to follow its live state again.
    GoLive,
}

/// The number of the newest update span in `events`, which run newest first.
pub open spec fn first_update_number(events: Seq<Event>) -> Option<usize>
    decreases events.len(),
{
    if events.len() == 0 {
        None
    } else {
        match events[0] {
            Event::SpanFinished { span: Span::Update { number, .. }, .. } => Some(number),
            _ => first_update_number(events.subrange(1, events.len() as int)),
        }
    }
}

/// The state after `event`: a connection names the application, a
/// disconnection is recorded against the application that was named.
pub open spec fn next_state(state: State, event: Event) -> State {
    match event {
        Event::Connected { name, .. } => State::Working { name, connection: Connection::Connected },
        Event::Disconnected { at } => match state {
            State::Working { name, .. } => State::Working {
                name,
                connection: Connection::Disconnected { at },
            },
            State::Waiting => State::Waiting,
        },
        _ => state,
    }
}

/// Whether `event` names an application other than the one being watched.
pub open spec fn starts_over(state: State, event: Event) -> bool {
    match event {
        Event::Connected { name, .. } => match state {
            State::Working { name: current, .. } => current@ != name@,
            State::Waiting => true,
        },
        _ => false,
    }
}

/// The viewer.
#[derive(Debug)]
pub struct Comet {
    pub state: State,
    pub timeline: Timeline,
    pub playhead: Playhead,
    pub screen: Screen,
    pub zoom: Zoom,
}

/// Relies on `String::push_str`: it appends the characters of `tail`.
#[verifier::external_body]
fn append(s: &mut String, tail: &str)
    ensures
        final(s)@ == old(s)@ + tail@,
{
    s.push_str(tail)
}

impl Comet {
    pub open spec fn wf(&self) -> bool {
        self.timeline.wf() && self.screen.wf()
    }

    /// Whether the watched application is connected.
    pub open spec fn connected(&self) -> bool {
        match self.state {
            State::Working { connection: Connection::Connected, .. } => true,
            _ => false,
        }
    }

    /// What to ask of the application when the playhead moves to `playhead`.
    pub open spec fn follow(&self, timeline: TimelineView, playhead: Playhead) -> Action {
        if !self.connected() {
            Action::Idle
        } else {
            match playhead {
                Playhead::Live => Action::GoLive,
                Playhead::Paused(index) => match first_update_number(
                    timeline.seek_view(Playhead::Paused(index)),
                ) {
                    Some(number) => Action::RewindTo(number),
                    None => Action::Idle,
                },
            }
        }
    }

    /// Where a message that moves the playhead moves it.
    pub open spec fn moved_playhead(&self, message: Message) -> Option<Playhead> {
        let end = self.timeline@.end();
        match message {
            Message::PlayheadChanged(index) => Some(Playhead::Paused(index)),
            Message::TogglePause => Some(
                if self.playhead is Live {
                    Playhead::Paused(Index(end as usize))
                } else {
                    Playhead::Live
                },
            ),
            Message::Previous => Some(
                match self.playhead {
                    Playhead::Live => Playhead::Paused(Index(end as usize)),
                    Playhead::Paused(index) => Playhead::Paused(
                        Index(if index.0 >= 1 { (index.0 - 1) as usize } else { 0 }),
                    ),
                },
            ),
            Message::Next => Some(
                match self.playhead {
                    Playhead::Live => Playhead::Live,
                    Playhead::Paused(index) => if index.0 + 1 >= end {
                        Playhead::Live
                    } else {
                        Playhead::Paused(Index((index.0 + 1) as usize))
                    },
                },
            ),
            Message::GoLive => Some(Playhead::Live),
            _ => None,
        }
    }

    pub fn new() -> (c: Comet)
        ensures
            c.wf(),
            c.state is Waiting,
            c.timeline@ == TimelineView::empty(crate::timeline::MAX_SIZE as nat),
            c.playhead == Playhead::Live,
            c.screen == Screen::Overview(screen::Overview::blank()),
            c.zoom == Zoom(2),
    {
        Comet {
            state: State::Waiting,
            timeline: Timeline::new(),
            playhead: Playhead::Live,
            screen: Screen::Overview(screen::Overview::new()),
            zoom: Zoom::default(),
        }
    }

    /// The window's title.
    pub fn title(&self) -> (r: String)
        ensures
            r@ == match self.state {
                State::Waiting => "comet"@,
                State::Working { name, .. } => name@ + " - comet"@,
            },
    {
        match &self.state {
            State::Waiting => "comet".to_owned(),
            State::Working { name, .. } => {
                let mut title = name.clone();
                append(&mut title, " - comet");
                title
            },
        }
    }

    fn is_connected(&self) -> (r: bool)
        ensures
            r == self.connected(),
    {
        match &self.state {
            State::Working { connection: Connection::Connected, .. } => true,
            _ => false,
        }
    }

    fn go_live(&self) -> (r: Action)
        ensures
            r == self.follow(self.timeline@, Playhead::Live),
    {
        if self.is_connected() {
            Action::GoLive
        } else {
            Action::Idle
        }
    }

    fn rewind(&self, index: Index) -> (r: Action)
        requires
            self.timeline.wf(),
        ensures
            r == self.follow(self.timeline@, Playhead::Paused(index)),
    {
        if !self.is_connected() {
            return Action::Idle;
        }
        let events = self.timeline.seek(Playhead::Paused(index));
        let ghost seen = self.timeline@.seek_view(Playhead::Paused(index));
        let mut k: usize = 0;
        assert(seen.subrange(0, seen.len() as int) =~= seen);
        while k < events.len()
            invariant
                k <= events@.len(),
                events@.len() == seen.len(),
                self.connected(),
                seen == self.timeline@.seek_view(Playhead::Paused(index)),
                forall|j: int| 0 <= j < events@.len() ==> *events@[j] == seen[j],
                first_update_number(seen) == first_update_number(
                    seen.subrange(k as int, seen.len() as int),
                ),
            decreases events@.len() - k,
        {
            let ghost rest = seen.subrange(k as int, seen.len() as int);
            assert(rest[0] == seen[k as int]);
            if let Event::SpanFinished { span: Span::Update { number, .. }, .. } = events[k] {
                assert(first_update_number(rest) == Some(*number));
                return Action::RewindTo(*number);
            }
            assert(rest.subrange(1, rest.len() as int) =~= seen.subrange(
                k + 1,
                seen.len() as int,
            ));
            k = k + 1;
        }
        assert(seen.subrange(k as int, seen.len() as int) =~= Seq::<Event>::empty());
        Action::Idle
    }

    fn update_playhead(&mut self, playhead: Playhead) -> (r: Action)
        requires
            old(self).wf(),
        ensures
            final(self).wf(),
            final(self).playhead == playhead,
            final(self).screen.invalidated_from(old(self).screen),
            final(self).timeline@ == old(self).timeline@,
            final(self).state == old(self).state,
            final(self).zoom == old(self).zoom,
            r == old(self).follow(old(self).timeline@, playhead),
    {
        self.playhead = playhead;
        self.screen.invalidate();
        match playhead {
            Playhead::Live => self.go_live(),
            Playhead::Paused(index) => self.rewind(index),
        }
    }

    fn interact_with_chart(&mut self, interaction: Interaction) -> (r: Action)
        requires
            old(self).wf(),
        ensures
            final(self).wf(),
            final(self).interacted(*old(self), interaction, r),
    {
        match interaction {
            Interaction::Hovered(index) => self.rewind(index),
            Interaction::Unhovered => self.go_live(),
            Interaction::ZoomChanged(zoom) => {
                self.zoom = zoom;
                self.screen.invalidate();
                Action::Idle
            },
        }
    }

    /// The viewer after a chart interaction, given how it stood before.
    pub open spec fn interacted(
        self,
        before: Comet,
        interaction: Interaction,
        r: Action,
    ) -> bool {
        &&& self.timeline@ == before.timeline@
        &&& self.state == before.state
        &&& self.playhead == before.playhead
        &&& match interaction {
            Interaction::Hovered(index) => {
                &&& self.screen == before.screen
                &&& self.zoom == before.zoom
                &&& r == before.follow(before.timeline@, Playhead::Paused(index))
            },
            Interaction::Unhovered => {
                &&& self.screen == before.screen
                &&& self.zoom == before.zoom
                &&& r == before.follow(before.timeline@, Playhead::Live)
            },
            Interaction::ZoomChanged(zoom) => {
                &&& self.screen.invalidated_from(before.screen)
                &&& self.zoom == zoom
                &&& r == Action::Idle
            },
        }
    }

    /// The viewer after only its screen changed.
    pub open spec fn shows(self, before: Comet, r: Action) -> bool {
        &&& self.timeline@ == before.timeline@
        &&& self.state == before.state
        &&& self.playhead == before.playhead
        &&& self.zoom == before.zoom
        &&& r == Action::Idle
    }

    /// Handles one message and says what to ask of the watched application.
    pub fn update(&mut self, message: Message) -> (r: Action)
        requires
            old(self).wf(),
            message is EventReported ==> old(self).timeline@.end() < usize::MAX,
        ensures
            final(self).wf(),
            match message {
                Message::EventReported(event) => if event is QuitRequested
                    || event is AlreadyRunning {
                    &&& r == Action::Exit
                    &&& *final(self) == *old(self)
                } else {
                    let reset = starts_over(old(self).state, event);
                    let kept = if reset {
                        TimelineView {
                            events: Seq::empty(),
                            updates: Seq::empty(),
                            update_rate: Seq::empty(),
                            ..old(self).timeline@
                        }
                    } else {
                        old(self).timeline@
                    };
                    &&& r == Action::Idle
                    &&& final(self).state == next_state(old(self).state, event)
                    &&& final(self).timeline@ == kept.pushed(event)
                    &&& final(self).playhead == if reset {
                        Playhead::Live
                    } else {
                        old(self).playhead
                    }
                    &&& final(self).screen.refreshed_by(old(self).screen, event)
                    &&& final(self).zoom == old(self).zoom
                },
                Message::ShowOverview => {
                    &&& final(self).shows(*old(self), r)
                    &&& final(self).screen == Screen::Overview(screen::Overview::blank())
                },
                Message::ShowUpdate => {
                    &&& final(self).shows(*old(self), r)
                    &&& final(self).screen == Screen::Update(screen::Update::blank())
                },
                Message::ShowPresent => {
                    &&& final(self).shows(*old(self), r)
                    &&& final(self).screen == Screen::Present(screen::Present::blank())
                },
                Message::ShowCustom => {
                    &&& final(self).shows(*old(self), r)
                    &&& final(self).screen matches Screen::Custom(custom) && custom.lists(
                        old(self).timeline@,
                        old(self).playhead,
                    )
                },
                Message::Custom(custom::Message::Chart(interaction)) => if old(
                    self,
                ).screen is Custom {
                    final(self).interacted(*old(self), interaction, r)
                } else {
                    &&& r == Action::Idle
                    &&& *final(self) == *old(self)
                },
                Message::Custom(custom::Message::Browse(_)) => {
                    &&& r == Action::Idle
                    &&& *final(self) == *old(self)
                },
                Message::Chart(interaction) => final(self).interacted(*old(self), interaction, r),
                Message::IncrementBarWidth => {
                    &&& final(self).zoom == old(self).zoom.wider()
                    &&& final(self).screen.invalidated_from(old(self).screen)
                    &&& final(self).timeline@ == old(self).timeline@
                    &&& final(self).state == old(self).state
                    &&& final(self).playhead == old(self).playhead
                    &&& r == Action::Idle
                },
                Message::DecrementBarWidth => {
                    &&& final(self).zoom == old(self).zoom.narrower()
                    &&& final(self).screen.invalidated_from(old(self).screen)
                    &&& final(self).timeline@ == old(self).timeline@
                    &&& final(self).state == old(self).state
                    &&& final(self).playhead == old(self).playhead
                    &&& r == Action::Idle
                },
                Message::Quit => {
                    &&& r == Action::Exit
                    &&& *final(self) == *old(self)
                },
                _ => {
                    let playhead = old(self).moved_playhead(message)->Some_0;
                    &&& old(self).moved_playhead(message) is Some
                    &&& final(self).playhead == playhead
                    &&& final(self).screen.invalidated_from(old(self).screen)
                    &&& final(self).timeline@ == old(self).timeline@
                    &&& final(self).state == old(self).state
                    &&& final(self).zoom == old(self).zoom
                    &&& r == old(self).follow(old(self).timeline@, playhead)
                },
            },
    {
        match message {
            Message::EventReported(event) => {
                match &event {
                    Event::Connected { name, .. } => {
                        let same = match &self.state {
                            State::Working { name: current, .. } => *current == *name,
                            State::Waiting => false,
                        };
                        if !same {
                            self.playhead = Playhead::Live;
                            self.timeline.clear();
                        }
                        self.state = State::Working {
                            name: name.clone(),
                            connection: Connection::Connected,
                        };
                    },
                    Event::Disconnected { at } => {
                        let next = match &self.state {
                            State::Working { name, .. } => State::Working {
                                name: name.clone(),
                                connection: Connection::Disconnected { at: *at },
                            },
                            State::Waiting => State::Waiting,
                        };
                        self.state = next;
                    },
                    Event::QuitRequested { .. } | Event::AlreadyRunning { .. } => {
                        return Action::Exit;
                    },
                    _ => {},
                }
                self.screen.invalidate_by(&event);
                self.timeline.push(event);
                Action::Idle
            },
            Message::PlayheadChanged(index) => self.update_playhead(Playhead::Paused(index)),
            Message::TogglePause => {
                let playhead = if self.playhead.is_live() {
                    Playhead::Paused(self.timeline.end())
                } else {
                    Playhead::Live
                };
                self.update_playhead(playhead)
            },
            Message::Previous => {
                let playhead = match self.playhead {
                    Playhead::Live => Playhead::Paused(self.timeline.end()),
                    Playhead::Paused(index) => Playhead::Paused(index.sub(1)),
                };
                self.update_playhead(playhead)
            },
            Message::Next => {
                let end = self.timeline.end();
                let playhead = match self.playhead {
                    Playhead::Live => Playhead::Live,
                    Playhead::Paused(index) => if index.0 >= end.0 || index.0 + 1 >= end.0 {
                        Playhead::Live
                    } else {
                        Playhead::Paused(index.add(1))
                    },
                };
                self.update_playhead(playhead)
            },
            Message::GoLive => self.update_playhead(Playhead::Live),
            Message::ShowOverview => {
                self.screen = Screen::Overview(screen::Overview::new());
                Action::Idle
            },
            Message::ShowUpdate => {
                self.screen = Screen::Update(screen::Update::new());
                Action::Idle
            },
            Message::ShowPresent => {
                self.screen = Screen::Present(screen::Present::new());
                Action::Idle
            },
            Message::ShowCustom => {
                self.screen = Screen::Custom(screen::Custom::new(&self.timeline, self.playhead));
                Action::Idle
            },
            Message::Custom(message) => {
                let event = match &mut self.screen {
                    Screen::Custom(custom) => custom.update(message),
                    _ => None,
                };
                match event {
                    Some(custom::Event::ChartInteracted(interaction)) => self.interact_with_chart(
                        interaction,
                    ),
                    None => Action::Idle,
                }
            },
            Message::Chart(interaction) => self.interact_with_chart(interaction),
            Message::IncrementBarWidth => {
                self.zoom = self.zoom.increment();
                self.screen.invalidate();
                Action::Idle
            },
            Message::DecrementBarWidth => {
                self.zoom = self.zoom.decrement();
                self.screen.invalidate();
                Action::Idle
            },
            Message::Quit => Action::Exit,
        }
    }
}

} // verus!
