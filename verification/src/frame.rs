//! One frame of a game, and the rules that concern a frame alone.

use vstd::prelude::*;
use crate::error::BowlingError;

verus! {

/// The rolls of one frame.
///
/// `roll2` is absent when the frame ended with its first roll. `fill_ball` is
/// the extra roll that the last frame of a game earns with a strike or a spare.
#[derive(Clone, Copy, Debug)]
pub struct Frame {
    pub roll1: u8,
    pub roll2: Option<u8>,
    pub fill_ball: Option<u8>,
}

impl Frame {
    /// What a roll that may be absent counts for.
    pub open spec fn roll_or_zero(roll: Option<u8>) -> int {
        match roll {
            Some(pins) => pins as int,
            None => 0,
        }
    }

    /// The pins of the first two rolls; the fill ball does not count.
    pub open spec fn pins(self) -> int {
        self.roll1 + Self::roll_or_zero(self.roll2)
    }

    /// All ten pins fell with the first roll.
    pub open spec fn strike(self) -> bool {
        self.roll1 == 10
    }

    /// All ten pins fell with the first two rolls, and not with the first alone.
    pub open spec fn spare(self) -> bool {
        !self.strike() && self.pins() == 10
    }

    /// The pin count that a frame may have: at most twenty in the last frame
    /// of a game, at most ten in every other. Before the last frame a strike
    /// is legal whatever its second roll holds.
    pub open spec fn legal(self, is_last_frame: bool) -> bool {
        if is_last_frame {
            self.pins() <= 20
        } else {
            self.strike() || self.pins() <= 10
        }
    }

    /// The score of the frame before any bonus: ten for a strike or a spare,
    /// otherwise the pins.
    pub open spec fn base_score(self) -> int {
        if self.strike() || self.spare() {
            10
        } else {
            self.pins()
        }
    }
}

impl Default for Frame {
    /// Two rolls into the gutter.
    fn default() -> (frame: Frame)
        ensures
            frame.roll1 == 0,
            frame.roll2 == Some(0u8),
            frame.fill_ball is None,
    {
        Frame { roll1: 0, roll2: Some(0), fill_ball: None }
    }
}

/// The pins of the first two rolls, in a type that holds any two rolls.
fn pin_count(frame: &Frame) -> (pins: u16)
    ensures
        pins == frame.pins(),
{
    let first: u16 = frame.roll1 as u16;
    match frame.roll2 {
        Some(roll) => first + roll as u16,
        None => first,
    }
}

/// Tells whether the frame is a strike.
pub fn is_strike(frame: &Frame) -> (strike: bool)
    ensures
        strike == frame.strike(),
{
    frame.roll1 == 10
}

/// Tells whether the frame is a spare.
pub fn is_spare(frame: &Frame) -> (spare: bool)
    ensures
        spare == frame.spare(),
{
    if frame.roll1 == 10 {
        return false;
    }
    pin_count(frame) == 10
}

/// Checks the pin count of one frame and returns its score before any bonus.
///
/// The frame is refused, with `InvalidFrameScore`, exactly when it is not
/// [`Frame::legal`] for its position: as the last frame with more than twenty
/// pins, as any other with more than ten pins and no strike.
pub fn validate_frame(is_last_frame: bool, frame: &Frame) -> (result: Result<u16, BowlingError>)
    ensures
        frame.legal(is_last_frame) ==> result == Ok::<u16, BowlingError>(frame.base_score() as u16),
        !frame.legal(is_last_frame) ==> result == Err::<u16, BowlingError>(
            BowlingError::InvalidFrameScore,
        ),
{
    let pins: u16 = pin_count(frame);
    let strike: bool = is_strike(frame);
    if is_last_frame && pins > 20 {
        Err(BowlingError::InvalidFrameScore)
    } else if !is_last_frame && !strike && pins > 10 {
        Err(BowlingError::InvalidFrameScore)
    } else if strike || is_spare(frame) {
        Ok(10)
    } else {
        Ok(pins)
    }
}

} // verus!
