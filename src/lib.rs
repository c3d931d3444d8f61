//! Yatzy dice: scores and their pip layouts, the die's rolling state machine,
//! and the game's top-level state machine.

pub mod die;
pub mod game;
pub mod score;

pub use die::{Die, DieAction, DieData, DieState};
pub use game::{GameCommand, InGameState, StartingState, YatzyState};
pub use score::Score;
