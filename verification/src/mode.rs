//! The two ways in which key presses are read.

use vstd::prelude::*;

verus! {

/// How key presses are read: as commands, or as text for the filter box.
#[derive(Debug, Copy, Clone, PartialEq, Eq, Hash, Structural)]
pub enum Mode {
    Normal,
    Input,
}

impl Default for Mode {
    fn default() -> (mode: Mode)
        ensures
            mode == Mode::Normal,
    {
        Mode::Normal
    }
}

} // verus!
