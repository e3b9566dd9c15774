//! Grid puzzle-platformer core: movement gestures, their validity on a level's
//! collision grid, the bracket-looping script interpreter, the tick clock and
//! checkpoint progression.
pub mod action;
pub mod animation;
pub mod clock;
pub mod collections;
pub mod editor;
pub mod grid;
pub mod interpreter;
pub mod level;
pub mod obstacle;
pub mod player;
pub mod script;
