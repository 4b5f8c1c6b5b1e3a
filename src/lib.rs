//! Beat synchronisation and timing judgment for a rhythm minigame.
//!
//! Time is counted in whole microseconds of playback and tempo in whole beats
//! per minute, so every quantity of the beat grid is an exact integer.

pub mod beat_clock;
pub mod judgment;
pub mod feedback;
