//! Run a fixed list of tests inside a `winit` event loop.
//!
//! Some tests need a live event loop before they can do anything: they open
//! windows, query monitors, or touch other state that only exists while the
//! platform is dispatching events. The loop, however, calls the program and
//! not the other way round. This crate holds the part that decides what
//! happens on each call: it runs every registered test once on the first
//! tick, keeps a failing test from taking the others down with it, builds
//! the report, and tells the loop to stop with an exit code that says
//! whether anything failed.
//!
//! The crate never calls a test and never prints. The embedding program
//! does both, one step at a time, as [`coordinator::run_internal`] tells it
//! to. Because of that a test that never returns blocks the run: there is
//! no timeout.

pub mod clock;
pub mod control;
pub mod coordinator;
pub mod laws;
pub mod outcome;
pub mod paint;
pub mod registry;
pub mod report;
