//! A terminal dashboard's core: the widget registry and its message routing, the
//! per-widget feed polling loops, the control loop's command handling, and the
//! companion's progression engine.

pub mod art;
pub mod catalog;
pub mod config;
pub mod control;
pub mod creature;
pub mod feeds;
pub mod menu;
pub mod reader;
pub mod scheduler;
pub mod text;
pub mod widgets;
pub mod wizard;
