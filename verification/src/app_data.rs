//! Presentation-side data: the window dimensions and title, the pending
//! guess text the player is editing, and the feedback label on display.

use vstd::prelude::*;

verus! {

/// What the shell around the game needs to remember between redraws. The
/// pending guess text is owned here, not by the game state: editing it never
/// evaluates a guess.
pub struct AppData {
    pub width: u32,
    pub height: u32,
    pub guess: String,
    pub title: String,
    pub info: String,
}

impl AppData {
    /// Fresh presentation data: empty pending guess and the label of an
    /// unsubmitted guess.
    pub fn new(width: u32, height: u32, title: &str) -> (d: AppData)
        ensures
            d.width == width,
            d.height == height,
            d.guess@.len() == 0,
            d.title@ == title@,
            d.info@ == "? X"@,
    {
        AppData {
            width: width,
            height: height,
            guess: String::new(),
            title: title.to_owned(),
            info: "? X".to_owned(),
        }
    }

    /// Replaces the pending guess text; nothing else changes.
    pub fn new_guess(&mut self, guess: &str)
        ensures
            final(self).guess@ == guess@,
            final(self).width == old(self).width,
            final(self).height == old(self).height,
            final(self).title == old(self).title,
            final(self).info == old(self).info,
    {
        self.guess = guess.to_owned();
    }
}

} // verus!
