pub mod cache;
pub mod defaults;
pub mod discord;
pub mod error;
pub mod game;
pub mod mode;
pub mod model;
pub mod point;

pub use cache::MoveCache;
pub use error::GameError;
pub use game::{Game, TurnOutcome};
pub use mode::{Backend, Mode};
pub use model::{Board, Move, Piece, Player, PlayerSwap, RenderMove2D};
pub use point::Point;
