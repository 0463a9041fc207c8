//! Small verified building blocks: a guessing game, a first-word slicer,
//! a rectangle containment check, a bounded guess value, a greeting and
//! Fibonacci numbers, with the decimal reading and writing they share.

pub mod arithmetic;
pub mod decimal;
pub mod fibonacci;
pub mod greeting;
pub mod guess;
pub mod guessing_game;
pub mod rectangle;
pub mod slices;
pub mod temperature;

pub use arithmetic::add_two;
pub use fibonacci::fibonacci;
pub use greeting::greeting;
pub use guess::{Guess, GuessError};
pub use rectangle::Rectangle;
pub use slices::first_world;
