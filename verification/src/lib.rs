//! Game logic for "Guess Hue?", a casual puzzle in which the player mixes
//! base paint colors to match a target color within a limited number of
//! guesses and lives.
//!
//! This crate holds the rules of the game: the palette and the level
//! objectives, the level/lives bookkeeping, the outcome of a completed guess,
//! and the texts shown by the indicators and alerts. Presentation, input and
//! the pigment-mixing conversion live outside the library; the functions here
//! take the mixed display colors as plain values.

use vstd::prelude::*;

pub mod alerts;
pub mod color;
pub mod game;
pub mod text;

verus! {

/// The title the game's window and menu carry.
pub fn launcher_title() -> (title: &'static str)
    ensures
        title@ == "Guess Hue?"@,
{
    "Guess Hue?"
}

} // verus!
