//! Storage and sampling kernels for a planet's cube-projected surface fields,
//! and the decision logic of the engines that reshape them (impact craters and
//! hydraulic erosion), with the seeded hashing that drives their randomness.

pub mod craters;
pub mod cubemap;
pub mod erosion;
pub mod face;
pub mod random;

pub use craters::{crater_depth, CraterTally, DepthRatio};
pub use cubemap::CubeMapDataLayer;
pub use erosion::{DropletLife, DropletPhase, StepOutcome};
pub use face::CubeMapFace;
pub use random::random_words;
