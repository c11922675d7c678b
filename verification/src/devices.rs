//! Core devices as items of a list.

pub mod config;
