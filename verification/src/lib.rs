//! Verified core of the renewable-capacity planning engine: parameter and
//! curve checks, hourly storage windows, sampling permutations, the input
//! sheet reader's decisions and the local data-file archive's naming rules.

pub mod text;
pub mod files;
pub mod payload;
pub mod clock;
pub mod greeting;
pub mod params;
pub mod schedule;
pub mod sampling;
pub mod sensitivity;
pub mod input_sheet;
pub mod constraints;
