//! Ten-pin bowling scoring.
//!
//! A game is a sequence of [`Frame`]s. [`score_game`] checks the number of
//! frames and the pin count of every frame, then adds to each frame the bonus
//! that a spare or a strike earns from the rolls after it, and returns the
//! total. Every function states what it computes over the spec functions of
//! [`frame`] and [`score`].

pub mod error;
pub mod frame;
pub mod game;
pub mod laws;
pub mod score;

pub use error::BowlingError;
pub use frame::{is_spare, is_strike, validate_frame, Frame};
pub use game::{validate_game, STANDARD_FRAMES};
pub use score::{
    base_scores, frame_bonus, has_bonus_rolls, score_board, score_game, try_score_game,
};
