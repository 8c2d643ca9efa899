//! What holds of scoring in general, proved from the definitions that the
//! contracts of the library are written in.

use vstd::prelude::*;
use crate::error::BowlingError;
use crate::frame::Frame;
use crate::game::{frames_legal, legal_at};
use crate::score::{
    as_outcome, bonus_present_at, bonus_rolls_present, frame_score, game_total, scorable,
    score_of, total_upto,
};

verus! {

/// Both rolls of the frame went into the gutter, or the one roll it has.
pub open spec fn gutter(frame: Frame) -> bool {
    frame.roll1 == 0 && Frame::roll_or_zero(frame.roll2) == 0
}

/// No roll of the frame, the fill ball included, is worth more than ten pins.
pub open spec fn ordinary_rolls(frame: Frame) -> bool {
    frame.roll1 <= 10 && Frame::roll_or_zero(frame.roll2) <= 10 && Frame::roll_or_zero(
        frame.fill_ball,
    ) <= 10
}

/// A strike is never a spare.
pub proof fn lemma_strike_excludes_spare(frame: Frame)
    ensures
        frame.strike() ==> !frame.spare(),
{
}

/// A strike before the last frame is legal whatever its second roll holds,
/// and scores ten before its bonus.
pub proof fn lemma_strike_legal_before_last(frame: Frame)
    requires
        frame.strike(),
    ensures
        frame.legal(false),
        frame.base_score() == 10,
{
}

/// Scoring depends on the frame count and the frames alone: two results for
/// the same game are the same result.
pub proof fn lemma_score_deterministic(
    num_frames: int,
    game: Seq<Frame>,
    first: Result<u16, BowlingError>,
    second: Result<u16, BowlingError>,
)
    requires
        as_outcome(first) == score_of(num_frames, game),
        as_outcome(second) == score_of(num_frames, game),
    ensures
        first == second,
{
}

/// A game with fewer or more frames than asked for is refused for its length
/// and has no score, whatever its frames hold.
pub proof fn lemma_wrong_length_never_scores(num_frames: int, game: Seq<Frame>)
    requires
        game.len() != num_frames,
    ensures
        game.len() < num_frames ==> score_of(num_frames, game) == Err::<int, BowlingError>(
            BowlingError::TooFewFrames,
        ),
        game.len() > num_frames ==> score_of(num_frames, game) == Err::<int, BowlingError>(
            BowlingError::TooManyFrames,
        ),
        !(score_of(num_frames, game) is Ok),
{
}

/// A frame before the last whose two rolls knock down more than ten pins, and
/// which is neither a strike nor a spare, is refused, and so is a game of the
/// right length that holds it.
pub proof fn lemma_overfull_frame_rejected(game: Seq<Frame>, i: int)
    requires
        0 <= i < game.len() - 1,
        game[i].pins() > 10,
        !game[i].strike(),
        !game[i].spare(),
    ensures
        !game[i].legal(false),
        score_of(game.len() as int, game) == Err::<int, BowlingError>(
            BowlingError::InvalidFrameScore,
        ),
{
    assert(!legal_at(game, i));
}

/// The frames of a gutter game add up to nothing, however many are counted.
proof fn lemma_gutter_prefix(game: Seq<Frame>, n: int)
    requires
        n <= game.len(),
        forall|i: int| 0 <= i < game.len() ==> gutter(#[trigger] game[i]),
    ensures
        total_upto(game, n) == 0,
    decreases n,
{
    if n > 0 {
        lemma_gutter_prefix(game, n - 1);
        assert(gutter(game[n - 1]));
        assert(frame_score(game, n - 1) == 0);
    }
}

/// A game in which no roll knocks down a pin scores 0.
pub proof fn lemma_gutter_game_scores_zero(game: Seq<Frame>)
    requires
        forall|i: int| 0 <= i < game.len() ==> gutter(#[trigger] game[i]),
    ensures
        score_of(game.len() as int, game) == Ok::<int, BowlingError>(0),
        scorable(game.len() as int, game),
{
    assert forall|i: int| 0 <= i < game.len() implies #[trigger] legal_at(game, i) by {
        assert(gutter(game[i]));
    }
    assert forall|i: int| 0 <= i < game.len() implies #[trigger] bonus_present_at(game, i) by {
        assert(gutter(game[i]));
    }
    lemma_gutter_prefix(game, game.len() as int);
}

/// With ordinary rolls and no bonus roll missing, no frame scores more than
/// thirty.
proof fn lemma_ordinary_prefix(game: Seq<Frame>, n: int)
    requires
        0 <= n <= game.len(),
        forall|i: int| 0 <= i < game.len() ==> ordinary_rolls(#[trigger] game[i]),
        bonus_rolls_present(game),
    ensures
        total_upto(game, n) <= 30 * n,
    decreases n,
{
    if n > 0 {
        lemma_ordinary_prefix(game, n - 1);
        let i = n - 1;
        assert(ordinary_rolls(game[i]));
        assert(bonus_present_at(game, i));
        if i + 1 < game.len() {
            assert(ordinary_rolls(game[i + 1]));
        }
        if i + 2 < game.len() {
            assert(ordinary_rolls(game[i + 2]));
        }
        assert(frame_score(game, i) <= 30);
    }
}

/// A game of ordinary rolls in which no bonus roll is missing scores at most
/// thirty a frame: at most 300 over ten frames.
pub proof fn lemma_ordinary_game_bounded(game: Seq<Frame>)
    requires
        forall|i: int| 0 <= i < game.len() ==> ordinary_rolls(#[trigger] game[i]),
        bonus_rolls_present(game),
    ensures
        game_total(game) <= 30 * game.len(),
        game.len() == 10 ==> game_total(game) <= 300,
        30 * game.len() <= u16::MAX ==> scorable(game.len() as int, game),
{
    lemma_ordinary_prefix(game, game.len() as int);
}

} // verus!
