//! A chess session for the terminal: the record of the game, the line being
//! typed, the lines typed before, and the controller that turns a committed
//! line into a move, a command or a refusal.

pub mod engine;
pub mod game;
pub mod input;
pub mod material;
pub mod notation;
pub mod paint;
pub mod picture;
pub mod position;
pub mod screen;
pub mod session;
pub mod squares;
pub mod text;
