//! The optimisation modules: what each decides from the output of the tools it runs.

pub mod ai;
pub mod common;
pub mod gaming;
pub mod privacy;
pub mod developer;
pub mod power;
pub mod tweaks;
