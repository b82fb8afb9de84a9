//! The core of a build step for programs that run inside a game server.
//!
//! A toolchain compiles the program to a binary module and generates a
//! script that loads it in a browser or under Node. The host runs neither:
//! it hands the module out at once and wants a script that starts it. This
//! crate decides what the step does: which command to run, which two of the
//! toolchain's files to take, whether the generated script has the shape
//! that is known, what to cut out of it, and what to write. It touches
//! neither processes nor files itself; see [`pipeline`].
//!
//! The generated script is held against two templates, one for its
//! beginning and one for its end ([`loader`]). A template is literal text
//! with whitespace that may vary and names that the toolchain chooses
//! ([`template`]); it is matched at the start or at the end of a text
//! ([`pattern`], [`frontier`], [`mirror`]). What matching guarantees is
//! stated in [`laws`], on the strength of [`steady`], [`reading`],
//! [`filling`] and [`shipped`].
//!
//! [`constants`] holds the game's constant tables.

pub mod category;
pub mod charclass;
pub mod constants;
pub mod decimal;
pub mod error;
pub mod filling;
pub mod frontier;
pub mod laws;
pub mod loader;
pub mod locator;
pub mod mirror;
pub mod pattern;
pub mod pipeline;
pub mod reading;
pub mod runner;
pub mod shipped;
pub mod steady;
pub mod template;
pub mod text;
