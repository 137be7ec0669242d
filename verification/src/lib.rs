//! Verified versions of the small programs and libraries that accompany a
//! study of the Rust book: arithmetic helpers, a blog-post state machine,
//! statistics over integer lists, merge sort, geometry, text utilities and
//! the decision logic of several interactive programs.
pub mod adder;
pub mod sorting;
pub mod statistics;
pub mod blog;
pub mod rectangle;
pub mod matrix;
pub mod text;
pub mod lifetimes;
pub mod pig_latin;
pub mod server;
pub mod guessing_game;
pub mod minigrep;
pub mod restaurant;
pub mod company;
