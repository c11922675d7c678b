//! The browser of the fleet: one list of resources at a time, driven by
//! commands.

pub mod app;
pub mod command;
pub mod ui;
pub mod update;
