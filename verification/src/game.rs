//! A game as a whole: how many frames it holds, and whether each is legal.

use vstd::prelude::*;
use crate::error::BowlingError;
use crate::frame::Frame;

verus! {

/// The number of frames of a standard game.
pub const STANDARD_FRAMES: usize = 10;

/// What the length check says of a game of `len` frames when `num_frames`
/// are expected.
pub open spec fn length_outcome(num_frames: int, len: int) -> Result<(), BowlingError> {
    if len == num_frames {
        Ok(())
    } else if len > num_frames {
        Err(BowlingError::TooManyFrames)
    } else {
        Err(BowlingError::TooFewFrames)
    }
}

/// Frame `i` is legal for its position in `game`; only the last frame of a
/// game is held to the wider limit.
pub open spec fn legal_at(game: Seq<Frame>, i: int) -> bool {
    game[i].legal(i == game.len() - 1)
}

/// Every frame of `game` is legal for its position.
pub open spec fn frames_legal(game: Seq<Frame>) -> bool {
    forall|i: int| 0 <= i < game.len() ==> #[trigger] legal_at(game, i)
}

/// Checks that the game holds exactly `num_frames` frames.
pub fn validate_game(num_frames: usize, game: &Vec<Frame>) -> (result: Result<(), BowlingError>)
    ensures
        result == length_outcome(num_frames as int, game@.len() as int),
{
    let len: usize = game.len();
    if len == num_frames {
        Ok(())
    } else if len > num_frames {
        Err(BowlingError::TooManyFrames)
    } else {
        Err(BowlingError::TooFewFrames)
    }
}

} // verus!
