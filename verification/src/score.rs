//! Scoring: the score of each frame before any bonus, the bonus that the
//! rolls after a spare or a strike add, and the total.

use vstd::prelude::*;
use crate::error::BowlingError;
use crate::frame::{is_spare, is_strike, validate_frame, Frame};
use crate::game::{frames_legal, legal_at, length_outcome, validate_game};

verus! {

/// The rolls that the bonus of frame `i` is made of are there.
///
/// Only a strike can lack them: in the last frame it needs the fill ball, and
/// before the last frame it needs a second roll in the next frame or else a
/// frame after the next.
pub open spec fn bonus_present_at(game: Seq<Frame>, i: int) -> bool {
    let frame = game[i];
    if !frame.strike() {
        true
    } else if i == game.len() - 1 {
        frame.fill_ball is Some
    } else {
        game[i + 1].roll2 is Some || i + 2 < game.len()
    }
}

/// No frame of `game` lacks a roll that its bonus is made of.
pub open spec fn bonus_rolls_present(game: Seq<Frame>) -> bool {
    forall|i: int| 0 <= i < game.len() ==> #[trigger] bonus_present_at(game, i)
}

/// The bonus of frame `i`.
///
/// A spare earns the next roll: the first roll of the next frame, or in the
/// last frame the fill ball, if there is one. A strike earns the next two
/// rolls: both rolls of the next frame, or its first roll and the first roll
/// of the frame after it; in the last frame its own second roll, if there is
/// one, and the fill ball. Where [`bonus_present_at`] fails the value means
/// nothing.
pub open spec fn bonus(game: Seq<Frame>, i: int) -> int {
    let frame = game[i];
    let is_last = i == game.len() - 1;
    if frame.strike() {
        if is_last {
            Frame::roll_or_zero(frame.roll2) + Frame::roll_or_zero(frame.fill_ball)
        } else if game[i + 1].roll2 is Some {
            game[i + 1].pins()
        } else {
            game[i + 1].roll1 + game[i + 2].roll1
        }
    } else if frame.spare() {
        if is_last {
            Frame::roll_or_zero(frame.fill_ball)
        } else {
            game[i + 1].roll1 as int
        }
    } else {
        0
    }
}

/// The score of frame `i` with its bonus.
pub open spec fn frame_score(game: Seq<Frame>, i: int) -> int {
    game[i].base_score() + bonus(game, i)
}

/// The scores of the first `n` frames of `game`, added up.
pub open spec fn total_upto(game: Seq<Frame>, n: int) -> int
    decreases n,
{
    if n <= 0 {
        0
    } else {
        total_upto(game, n - 1) + frame_score(game, n - 1)
    }
}

/// The score of the whole game.
pub open spec fn game_total(game: Seq<Frame>) -> int {
    total_upto(game, game.len() as int)
}

/// What scoring `game` as a game of `num_frames` frames comes to: the length
/// is checked first, then the frames, and a game that passes both has its
/// total.
pub open spec fn score_of(num_frames: int, game: Seq<Frame>) -> Result<int, BowlingError> {
    if length_outcome(num_frames, game.len() as int) is Err {
        Err(length_outcome(num_frames, game.len() as int)->Err_0)
    } else if !frames_legal(game) {
        Err(BowlingError::InvalidFrameScore)
    } else {
        Ok(game_total(game))
    }
}

/// A result of the library, with the score as a mathematical integer.
pub open spec fn as_outcome(result: Result<u16, BowlingError>) -> Result<int, BowlingError> {
    match result {
        Ok(score) => Ok(score as int),
        Err(error) => Err(error),
    }
}

/// The game can be scored: if its length and its frames are in order, then no
/// bonus roll is missing and the total fits the result type.
pub open spec fn scorable(num_frames: int, game: Seq<Frame>) -> bool {
    score_of(num_frames, game) is Ok ==> bonus_rolls_present(game) && game_total(game) <= u16::MAX
}

/// No frame has a negative score, so counting more frames never lowers the
/// sum.
pub proof fn lemma_total_monotonic(game: Seq<Frame>, m: int, n: int)
    requires
        m <= n,
    ensures
        total_upto(game, m) <= total_upto(game, n),
    decreases n - m,
{
    if m < n {
        lemma_total_monotonic(game, m, n - 1);
    }
}

/// Tells whether every bonus roll that the game calls for is there.
pub fn has_bonus_rolls(game: &Vec<Frame>) -> (present: bool)
    ensures
        present == bonus_rolls_present(game@),
{
    let len: usize = game.len();
    if len == 0 {
        return true;
    }
    let last: &Frame = &game[len - 1];
    if is_strike(last) && last.fill_ball.is_none() {
        assert(!bonus_present_at(game@, len - 1));
        return false;
    }
    if len >= 2 && is_strike(&game[len - 2]) && last.roll2.is_none() {
        assert(!bonus_present_at(game@, len - 2));
        return false;
    }
    assert forall|i: int| 0 <= i < game@.len() implies #[trigger] bonus_present_at(game@, i) by {
    }
    true
}

/// The first pass: checks the length of the game and every frame, and returns
/// the score of each frame before any bonus.
pub fn base_scores(num_frames: usize, game: &Vec<Frame>) -> (result: Result<
    Vec<u16>,
    BowlingError,
>)
    ensures
        result is Ok ==> score_of(num_frames as int, game@) is Ok,
        result is Ok ==> result->Ok_0@.len() == game@.len(),
        result is Ok ==> forall|i: int|
            0 <= i < game@.len() ==> (#[trigger] result->Ok_0@[i]) == game@[i].base_score(),
        result is Err ==> score_of(num_frames as int, game@) == Err::<int, BowlingError>(
            result->Err_0,
        ),
{
    match validate_game(num_frames, game) {
        Ok(()) => {},
        Err(error) => {
            return Err(error);
        },
    }
    let len: usize = game.len();
    let mut board: Vec<u16> = Vec::new();
    let mut i: usize = 0;
    while i < len
        invariant
            len == game@.len(),
            len == num_frames,
            i <= len,
            board@.len() == i,
            forall|j: int| 0 <= j < i ==> #[trigger] legal_at(game@, j),
            forall|j: int| 0 <= j < i ==> (#[trigger] board@[j]) == game@[j].base_score(),
        decreases len - i,
    {
        match validate_frame(i == len - 1, &game[i]) {
            Ok(score) => {
                board.push(score);
            },
            Err(error) => {
                assert(!legal_at(game@, i as int));
                return Err(error);
            },
        }
        i += 1;
    }
    Ok(board)
}

/// The bonus that frame `i` earns from the rolls after it.
pub fn frame_bonus(game: &Vec<Frame>, i: usize) -> (points: u16)
    requires
        i < game@.len(),
        bonus_present_at(game@, i as int),
    ensures
        points == bonus(game@, i as int),
{
    let frame: &Frame = &game[i];
    let is_last: bool = i == game.len() - 1;
    if is_strike(frame) {
        if is_last {
            let extra: u16 = match frame.roll2 {
                Some(roll) => roll as u16,
                None => 0,
            };
            let fill: u16 = match frame.fill_ball {
                Some(roll) => roll as u16,
                None => 0,
            };
            extra + fill
        } else {
            let next: &Frame = &game[i + 1];
            match next.roll2 {
                Some(roll) => next.roll1 as u16 + roll as u16,
                None => next.roll1 as u16 + game[i + 2].roll1 as u16,
            }
        }
    } else if is_spare(frame) {
        if is_last {
            match frame.fill_ball {
                Some(roll) => roll as u16,
                None => 0,
            }
        } else {
            game[i + 1].roll1 as u16
        }
    } else {
        0
    }
}

/// The second pass: adds to the score of each frame its bonus.
fn add_bonuses(game: &Vec<Frame>, base: &Vec<u16>) -> (board: Vec<u16>)
    requires
        base@.len() == game@.len(),
        forall|i: int| 0 <= i < game@.len() ==> (#[trigger] base@[i]) == game@[i].base_score(),
        bonus_rolls_present(game@),
    ensures
        board@.len() == game@.len(),
        forall|i: int| 0 <= i < game@.len() ==> (#[trigger] board@[i]) == frame_score(game@, i),
{
    let len: usize = game.len();
    let mut board: Vec<u16> = Vec::new();
    let mut i: usize = 0;
    while i < len
        invariant
            len == game@.len(),
            base@.len() == len,
            i <= len,
            board@.len() == i,
            forall|j: int| 0 <= j < len ==> (#[trigger] base@[j]) == game@[j].base_score(),
            bonus_rolls_present(game@),
            forall|j: int| 0 <= j < i ==> (#[trigger] board@[j]) == frame_score(game@, j),
        decreases len - i,
    {
        let points: u16 = frame_bonus(game, i);
        board.push(base[i] + points);
        i += 1;
    }
    board
}

/// The reduction: the scores of all frames added up, or `None` where the sum
/// does not fit.
fn sum_board(board: &Vec<u16>, Ghost(game): Ghost<Seq<Frame>>) -> (total: Option<u16>)
    requires
        board@.len() == game.len(),
        forall|i: int| 0 <= i < game.len() ==> (#[trigger] board@[i]) == frame_score(game, i),
    ensures
        total is Some <==> game_total(game) <= u16::MAX,
        total is Some ==> total->Some_0 == game_total(game),
{
    let len: usize = board.len();
    let mut sum: u16 = 0;
    let mut i: usize = 0;
    while i < len
        invariant
            len == game.len(),
            board@.len() == len,
            i <= len,
            sum == total_upto(game, i as int),
            forall|j: int| 0 <= j < len ==> (#[trigger] board@[j]) == frame_score(game, j),
        decreases len - i,
    {
        match sum.checked_add(board[i]) {
            Some(next) => {
                sum = next;
            },
            None => {
                proof {
                    lemma_total_monotonic(game, i + 1, len as int);
                }
                return None;
            },
        }
        i += 1;
    }
    Some(sum)
}

/// The score of every frame with its bonus, in the order of the frames.
///
/// Fails as [`score_game`] does, on the same games.
pub fn score_board(num_frames: usize, game: &Vec<Frame>) -> (result: Result<
    Vec<u16>,
    BowlingError,
>)
    requires
        score_of(num_frames as int, game@) is Ok ==> bonus_rolls_present(game@),
    ensures
        result is Ok ==> score_of(num_frames as int, game@) is Ok,
        result is Ok ==> result->Ok_0@.len() == game@.len(),
        result is Ok ==> forall|i: int|
            0 <= i < game@.len() ==> (#[trigger] result->Ok_0@[i]) == frame_score(game@, i),
        result is Err ==> score_of(num_frames as int, game@) == Err::<int, BowlingError>(
            result->Err_0,
        ),
{
    match base_scores(num_frames, game) {
        Ok(base) => Ok(add_bonuses(game, &base)),
        Err(error) => Err(error),
    }
}

/// Scores a game of `num_frames` frames, whatever the game holds.
///
/// Returns `None` exactly when the game is not [`scorable`]: its length and
/// its frames are in order, but a strike lacks a roll of its bonus, or the
/// total does not fit the result type. Otherwise returns what [`score_game`]
/// returns.
pub fn try_score_game(num_frames: usize, game: &Vec<Frame>) -> (result: Option<
    Result<u16, BowlingError>,
>)
    ensures
        result is Some <==> scorable(num_frames as int, game@),
        result is Some ==> as_outcome(result->Some_0) == score_of(num_frames as int, game@),
{
    let base: Vec<u16> = match base_scores(num_frames, game) {
        Ok(base) => base,
        Err(error) => {
            return Some(Err(error));
        },
    };
    if !has_bonus_rolls(game) {
        return None;
    }
    let board: Vec<u16> = add_bonuses(game, &base);
    match sum_board(&board, Ghost(game@)) {
        Some(total) => Some(Ok(total)),
        None => None,
    }
}

/// Scores a game of `num_frames` frames.
///
/// A game of another length is refused with `TooFewFrames` or
/// `TooManyFrames`; a game of the right length with a frame that is not legal
/// for its position is refused with `InvalidFrameScore`; every other game has
/// its total returned: for each frame its score before any bonus and its
/// [`bonus`], added up over the frames.
///
/// The game must be [`scorable`]: a strike whose bonus rolls were never
/// recorded has no score.
pub fn score_game(num_frames: usize, game: &Vec<Frame>) -> (result: Result<u16, BowlingError>)
    requires
        scorable(num_frames as int, game@),
    ensures
        as_outcome(result) == score_of(num_frames as int, game@),
{
    let base: Vec<u16> = match base_scores(num_frames, game) {
        Ok(base) => base,
        Err(error) => {
            return Err(error);
        },
    };
    let board: Vec<u16> = add_bonuses(game, &base);
    match sum_board(&board, Ghost(game@)) {
        Some(total) => Ok(total),
        None => vstd::pervasive::unreached(),
    }
}

} // verus!
