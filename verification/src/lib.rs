//! Randomized, reproducible execution of command-line test plans.
//!
//! A run is an ordered list of steps. Each step plans a shell command, possibly
//! from random draws, and judges what the command printed and returned. All
//! randomness comes from one seeded generator, so a run can be repeated from its
//! seed.
//!
//! - [`stream`] models the generator of the `rand` crate as a stream of words.
//! - [`randomizer`] draws numbers, flags, paths, shuffles and samples from it.
//! - [`generator`] draws strings from weighted classes of characters.
//! - [`step`] is what a step has to offer; [`executer`] and [`errors`] hold what
//!   a command leaves behind and how a run can fail.
//! - [`lifecycle`] is the order of a run as a state machine, [`runner`] drives
//!   the steps through it, and [`report`] writes the plan report.
//!
//! The library runs no command and prints nothing: its caller runs the commands
//! that the [`runner`] asks for and hands their output back.
pub mod errors;
pub mod executer;
pub mod generator;
pub mod lifecycle;
pub mod randomizer;
pub mod report;
pub mod runner;
pub mod step;
pub mod stream;
pub mod text;

pub use errors::Error;
pub use generator::StringDef;
pub use randomizer::Randomizer;
pub use runner::{new, Runner};
