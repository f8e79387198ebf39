//! Core simulation of a grid-based snake game: a segmented body moves on a
//! fixed grid with wrap-around edges, grows when it eats randomly placed food,
//! and the game ends when the body runs into itself.
//!
//! Rendering, windowing and raw input handling are left to the surrounding
//! program; this crate holds only the verified game logic.

pub mod food;
pub mod game;
pub mod snake;
pub mod utils;
