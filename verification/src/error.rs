//! The ways in which a game can be refused.

use vstd::prelude::*;

verus! {

/// Why a game was not scored.
#[derive(Clone, Copy, Debug, PartialEq, Eq, Structural)]
pub enum BowlingError {
    /// A frame knocks down more pins than its position allows.
    InvalidFrameScore,
    /// The game holds more frames than were asked for.
    TooManyFrames,
    /// The game holds fewer frames than were asked for.
    TooFewFrames,
}

} // verus!
