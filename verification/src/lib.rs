//! A speedrun timer's splits, kept in step with a timing engine, and the
//! settings that a speedrun is run with.
pub mod engine;
pub mod persistence;
pub mod time_span;
pub mod timer_controls;
pub mod ui;

use livesplit_core::hotkey::KeyCode;
use vstd::prelude::*;

verus! {

/// A physical key of the keyboard.
#[verifier::external_type_specification]
#[verifier::external_body]
pub struct ExKeyCode(livesplit_core::hotkey::KeyCode);

/// Effective keybindings in use for a speedrun.
#[derive(Clone, Copy, Debug, PartialEq, Eq)]
pub struct Keybinding {
    /// Starts the timer, or splits where it runs.
    pub split_key: KeyCode,
    /// Resets the timer.
    pub reset_key: KeyCode,
    /// Pauses the timer.
    pub pause_key: KeyCode,
    /// Unpauses the timer.
    pub unpause_key: KeyCode,
    /// Switches to the next comparison.
    pub comparison_key: KeyCode,
}

impl Keybinding {
    /// Returns the keybinding for the application.
    pub fn new(
        split_key: KeyCode,
        reset_key: KeyCode,
        pause_key: KeyCode,
        unpause_key: KeyCode,
        comparison_key: KeyCode,
    ) -> (keybinding: Keybinding)
        ensures
            keybinding == (Keybinding {
                split_key,
                reset_key,
                pause_key,
                unpause_key,
                comparison_key,
            }),
    {
        Keybinding { split_key, reset_key, pause_key, unpause_key, comparison_key }
    }
}

} // verus!
