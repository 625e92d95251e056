//! A bounded, replayable log of the performance events that an instrumented
//! application reports, with the queries that its viewer draws from.

pub mod beacon;
pub mod board;
pub mod chart;
pub mod history;
pub mod module;
pub mod protocol;
pub mod screen;
pub mod time;
pub mod timeline;
pub mod viewer;
