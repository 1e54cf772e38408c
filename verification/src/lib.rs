//! A falling-words typing game: words fall from the top of the screen, the
//! player types the first of them letter by letter before it reaches the
//! bottom, and completed words score, speed the game up and set off effects.
//!
//! The crate holds the rules of the game and none of its drawing: a frame
//! loop hands in the elapsed time and the keys, and draws what it is told.
//!
//! Times are whole microseconds and distances whole millionths of a pixel,
//! so that a speed in pixels per second times an elapsed time is an exact
//! distance.
//!
//! - [`word`]: a falling word, and how its effect is drawn.
//! - [`spawner`]: which word comes next, and where.
//! - [`session`]: the session as a value, and each step of the game as a
//!   function from the session before to the session after.
//! - [`game`]: the session itself, whose functions carry out those steps.
//! - [`laws`]: what holds of the game whatever happens.
//! - [`menu`], [`keys`], [`render`], [`color`], [`units`]: the menus, the
//!   keys, what a frame shows, colours, and the units.
//! - [`graphemes`], [`random`]: text segmentation and random draws, which
//!   other crates do.

pub mod color;
pub mod game;
pub mod graphemes;
pub mod keys;
pub mod laws;
pub mod menu;
pub mod random;
pub mod render;
pub mod session;
pub mod spawner;
pub mod units;
pub mod word;
