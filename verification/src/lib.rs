//! Procedural topographic map generation.
//!
//! A seed and grid dimensions are turned into a deterministic 2D field of
//! terrain cells. Each cell is classified as land or water from a coherent
//! noise sample; water cells get a depth, a depth band, and possibly a piece
//! of vegetation placed by a stochastic rule that favours clustering next to
//! causally earlier (up/left) neighbours of the same kind.
//!
//! All quantities are modelled as fixed-point integers: noise samples and
//! depths in millionths of a unit, placement rates in hundredths. The noise
//! source and the random streams live behind a small trusted boundary; the
//! classification, placement and rendering logic is verified.

pub mod depth;
pub mod fish;
pub mod generate;
pub mod noise_field;
pub mod placement;
pub mod region;
pub mod render;
