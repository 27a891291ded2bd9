//! Game-state engine for two-player tic-tac-toe on a 3 x 3 grid: marks, the
//! grid with its turn and outcome rules, and a session that keeps the score
//! across matches.

pub mod game;
pub mod player;
pub mod session;

pub use game::{GameState, MoveResult, Outcome};
pub use player::Player;
pub use session::MatchController;
