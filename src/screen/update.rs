use vstd::prelude::*;

use crate::beacon::Event;
use crate::chart::Cache;
use crate::timeline::{Playhead, Timeline};

verus! {

/// The charts of the update stage.
#[derive(Debug, Clone, Copy, PartialEq, Eq, Structural)]
pub struct Update {
    pub update: Cache,
    pub tasks_spawned: Cache,
    pub subscriptions_alive: Cache,
    pub message_rate: Cache,
}

impl Update {
    /// The screen with every chart still to be drawn.
    pub open spec fn blank() -> Update {
        Update {
            update: Cache { drawn: false },
            tasks_spawned: Cache { drawn: false },
            subscriptions_alive: Cache { drawn: false },
            message_rate: Cache { drawn: false },
        }
    }

    pub open spec fn spec_invalidated_by(self, event: Event) -> Update {
        let theme = event is ThemeChanged;
        let span = event.is_update();
        let sampled = event is SubscriptionsTracked;
        Update {
            update: Cache { drawn: self.update.drawn && !(theme || span) },
            tasks_spawned: Cache { drawn: self.tasks_spawned.drawn && !(theme || span) },
            subscriptions_alive: Cache {
                drawn: self.subscriptions_alive.drawn && !(theme || sampled),
            },
            message_rate: Cache { drawn: self.message_rate.drawn && !(theme || span) },
        }
    }

    pub fn new() -> (u: Update)
        ensures
            u == Update::blank(),
    {
        Update {
            update: Cache::new(),
            tasks_spawned: Cache::new(),
            subscriptions_alive: Cache::new(),
            message_rate: Cache::new(),
        }
    }

    /// Clears every chart.
    pub fn invalidate(&mut self)
        ensures
            *final(self) == Update::blank(),
    {
        self.update.clear();
        self.tasks_spawned.clear();
        self.subscriptions_alive.clear();
        self.message_rate.clear();
    }

    /// Clears the charts that `event` concerns.
    pub fn invalidate_by(&mut self, event: &Event)
        ensures
            *final(self) == old(self).spec_invalidated_by(*event),
    {
        match event {
            Event::SubscriptionsTracked { .. } => {
                self.subscriptions_alive.clear();
            },
            Event::SpanFinished { span: crate::beacon::span::Span::Update { .. }, .. } => {
                self.update.clear();
                self.tasks_spawned.clear();
                self.message_rate.clear();
            },
            Event::ThemeChanged { .. } => {
                self.invalidate();
            },
            _ => {},
        }
    }
}

/// The messages of the newest `limit` updates before `playhead`, oldest first.
pub fn message_log(timeline: &Timeline, playhead: Playhead, limit: usize) -> (r: Vec<String>)
    requires
        timeline.wf(),
    ensures
        r@.len() == if limit < timeline@.updates_view(playhead).len() {
            limit as int
        } else {
            timeline@.updates_view(playhead).len() as int
        },
        forall|k: int|
            #![trigger r@[k]]
            0 <= k < r@.len() ==> r@[k]@ == timeline@.updates_view(playhead)[r@.len() - 1
                - k].message@,
{
    let all = timeline.updates(playhead);
    let shown = if limit < all.len() {
        limit
    } else {
        all.len()
    };
    let mut r: Vec<String> = Vec::new();
    let mut k: usize = shown;
    while k > 0
        invariant
            k <= shown <= all@.len(),
            all@.len() == timeline@.updates_view(playhead).len(),
            forall|j: int| 0 <= j < all@.len() ==> *all@[j] == timeline@.updates_view(playhead)[j],
            r@.len() == shown - k,
            forall|j: int|
                #![trigger r@[j]]
                0 <= j < r@.len() ==> r@[j]@ == timeline@.updates_view(playhead)[shown - 1
                    - j].message@,
        decreases k,
    {
        k = k - 1;
        r.push(all[k].message.clone());
    }
    r
}

} // verus!
