//! State, rules and view models of a terminal dashboard that browses a fleet
//! of devices, thing groups and deployments.
//!
//! The library decides; the program around it reads the terminal, talks to
//! the cloud and draws. Every function states what it returns or changes, and
//! the statements are proved.
//!
//! - [`list`]: a list of rows with a filter, a selection and a scroll offset.
//! - [`keybindings`]: the table from key presses to actions.
//! - [`action`], [`event`], [`mode`]: what travels through the application.
//! - [`components`]: the tab bar, the two panels and the table of resources.
//! - [`app`]: the application with its queue of actions.
//! - [`aws`], [`devices`]: the resources and the rows that show them.
//! - [`tui`]: the browser driven by commands, and the picker.
//! - [`layout`], [`span`], [`text`], [`input`], [`args`], [`enums`]: the
//!   values that the others are made of.

pub mod action;
pub mod app;
pub mod args;
pub mod aws;
pub mod components;
pub mod devices;
pub mod enums;
pub mod event;
pub mod input;
pub mod keybindings;
pub mod layout;
pub mod list;
pub mod mode;
pub mod span;
pub mod text;
pub mod tui;
