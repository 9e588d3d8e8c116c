//! A burn-in–prevention primitive for small monochrome displays.
//!
//! The library accumulates a bounded set of randomly placed points over
//! successive time steps and renders them, one pixel-set instruction per
//! stored point, to a caller-supplied sink. The single piece of real state
//! is a fixed-capacity point buffer with strict FIFO eviction; the random
//! source and the pixel sink are abstract capabilities supplied by the host.

mod coordinate;
mod laws;
mod saver;
mod sink;
mod source;

pub use crate::coordinate::Coordinate;
pub use crate::coordinate::FIXED_X_DIVISOR;
pub use crate::coordinate::FIXED_Y_DIVISOR;
pub use crate::coordinate::coord_from_draws;
pub use crate::coordinate::coord_from_draws_fixed;
pub use crate::coordinate::draw_coordinate;
pub use crate::coordinate::draw_coordinate_fixed;
pub use crate::coordinate::valid_dims;
pub use crate::laws::drawn_coords;
pub use crate::laws::lemma_capacity_invariant;
pub use crate::laws::lemma_fifo_order;
pub use crate::laws::lemma_single_slot;
pub use crate::laws::run_steps;
pub use crate::saver::ScreenSaver;
pub use crate::saver::push_evict;
pub use crate::sink::PixelSink;
pub use crate::sink::RecordingSink;
pub use crate::source::RandomSource;
pub use crate::source::ScriptedSource;
