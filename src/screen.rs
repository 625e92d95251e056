//! The screens of the viewer and which of their charts an event makes stale.

pub mod custom;
pub mod overview;
pub mod present;
pub mod update;

pub use custom::Custom;
pub use overview::Overview;
pub use present::Present;
pub use update::Update;

use vstd::prelude::*;

use crate::beacon::Event;

verus! {

/// The screen that the viewer shows.
#[derive(Debug)]
pub enum Screen {
    Overview(Overview),
    Update(Update),
    Present(Present),
    Custom(Custom),
}

impl Screen {
    pub open spec fn wf(&self) -> bool {
        match *self {
            Screen::Custom(custom) => custom.wf(),
            _ => true,
        }
    }

    /// The screen after clearing every chart, given how it stood before.
    pub open spec fn invalidated_from(self, before: Screen) -> bool {
        match (before, self) {
            (Screen::Overview(_), Screen::Overview(after)) => after == Overview::blank(),
            (Screen::Update(_), Screen::Update(after)) => after == Update::blank(),
            (Screen::Present(before), Screen::Present(after)) => after
                == before.spec_invalidated(),
            (Screen::Custom(before), Screen::Custom(after)) => {
                &&& after.names() == before.names()
                &&& forall|i: int|
                    #![trigger after.timings@[i]]
                    0 <= i < after.timings@.len() ==> !after.timings@[i].cache.drawn
            },
            _ => false,
        }
    }

    /// The screen after `event`, given how it stood before.
    pub open spec fn refreshed_by(self, before: Screen, event: Event) -> bool {
        match (before, self) {
            (Screen::Overview(before), Screen::Overview(after)) => after
                == before.spec_invalidated_by(event),
            (Screen::Update(before), Screen::Update(after)) => after
                == before.spec_invalidated_by(event),
            (Screen::Present(before), Screen::Present(after)) => after
                == before.spec_invalidated_by(event),
            (Screen::Custom(before), Screen::Custom(after)) => after.refreshed_by(
                before,
                event,
            ),
            _ => false,
        }
    }

    /// Clears every chart of the screen.
    pub fn invalidate(&mut self)
        requires
            old(self).wf(),
        ensures
            final(self).wf(),
            final(self).invalidated_from(*old(self)),
    {
        match self {
            Screen::Overview(overview) => {
                overview.invalidate();
            },
            Screen::Update(update) => {
                update.invalidate();
            },
            Screen::Present(present) => {
                present.invalidate();
            },
            Screen::Custom(custom) => {
                let ghost before = *custom;
                custom.invalidate();
                assert forall|i: int, j: int|
                    #![trigger custom.timings@[i], custom.timings@[j]]
                    0 <= i < j < custom.timings@.len() implies custom.timings@[i].name@
                        != custom.timings@[j].name@ by {
                    assert(before.timings@[i].name@ != before.timings@[j].name@);
                }
            },
        }
    }

    /// Clears the charts of the screen that `event` concerns.
    pub fn invalidate_by(&mut self, event: &Event)
        requires
            old(self).wf(),
        ensures
            final(self).wf(),
            final(self).refreshed_by(*old(self), *event),
    {
        match self {
            Screen::Overview(overview) => {
                overview.invalidate_by(event);
            },
            Screen::Update(update) => {
                update.invalidate_by(event);
            },
            Screen::Present(present) => {
                present.invalidate_by(event);
            },
            Screen::Custom(custom) => {
                custom.invalidate_by(event);
            },
        }
    }
}

} // verus!
