//! Core of an interactive terminal dashboard: the view-routing engine, the
//! per-view state machines (instrument browser, notes, todo checklist), and
//! the arithmetic of the candlestick-chart pipeline.
//!
//! Terminal I/O, async plumbing and widget drawing live outside this crate;
//! everything here is plain state-machine and arithmetic logic with verified
//! contracts.

pub mod actions;
pub mod chart;
pub mod dispatch;
pub mod instruments;
pub mod keys;
pub mod notes;
pub mod selection;
pub mod textedit;
pub mod todo_list;

