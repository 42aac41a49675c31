//! Integer core of a synthetic-image detector.
//!
//! The detector scores a decoded pixel buffer with a 16-feature linear
//! classifier: the image is resampled to a canonical 128 x 128 grid,
//! textural features are measured on that grid, and a pretrained model of
//! 16 weights and a bias turns them into a probability. This crate holds
//! everything about that pipeline that is decidable in integers, each part
//! with a proved contract:
//!
//! - `model`: the binary model codec and the model store. Weights travel as
//!   raw little-endian 32-bit patterns and round-trip bit for bit; a failed
//!   load never disturbs a loaded model.
//! - `shape`: overflow-safe validation of caller-supplied buffer shapes,
//!   and the decision of whether a call can be scored at all.
//! - `grid`: the resampler's box-center nearest-neighbor sampling map and
//!   the neighborhoods the feature passes read, every index proved to lie
//!   inside its buffer.
//!
//! The arithmetic between those bounds runs on `f32` and stands outside
//! this crate, in the thin host layer that drives it.

pub mod grid;
pub mod model;
pub mod shape;

pub use model::ModelStore;
