//! Verified core of an aim-training game: the random generator, the scenario
//! table, the session state machine, target lifetimes, bounded logs and the
//! integer geometry of spawning and drawing.
pub mod bounded;
pub mod chart;
pub mod color;
pub mod field;
pub mod frame;
pub mod input;
pub mod model;
pub mod rng;
pub mod session;
pub mod spawn;

pub use model::{ClickMark, Mode, Pattern, Scenario};
pub use rng::rng_u64;
