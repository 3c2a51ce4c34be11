//! Rules, board geometry and bookkeeping of a game of Catan.
pub mod utils;
pub mod state;
pub mod board;
pub mod game;
pub mod player;
pub mod history;
pub mod parser;
pub mod jsettler;
