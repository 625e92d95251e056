//! The measurements that an application reports over the wire.

use vstd::prelude::*;

use crate::time::Duration;

verus! {

/// How long one stage of the application took.
#[derive(Debug, Clone, Copy, PartialEq, Eq, Structural)]
pub enum Performance {
    Startup(Duration),
    Update(Duration),
    View(Duration),
    Layout(Duration),
    OnEvent(Duration),
    Draw(Duration),
    Render(Duration),
}

} // verus!
