//! Quantized NNUE position evaluation.
//!
//! A chess position, given as a board/side-to-move text, is turned into two
//! perspective-relative sparse feature sets; a fixed-layout quantized weight
//! blob is loaded into a [`network::Network`]; evaluation sums the selected
//! first-layer weight rows onto the bias, applies a clipped squared activation
//! and a second affine layer in fixed-point arithmetic, and rescales to a
//! centipawn-like integer score.

use vstd::prelude::*;

pub mod eval;
pub mod features;
pub mod network;

pub use network::Network;
pub use network::NnueError;

verus! {

/// Width of the hidden layer; ties the code to one trained network shape.
pub const HIDDEN_SIZE: usize = 64;

/// Number of first-layer input features: 64 squares x 6 piece kinds x 2 colors.
pub const NUM_FEATURES: usize = 768;

/// Output rescaling factor (centipawn scale).
pub const SCALE: i32 = 400;

/// Quantization scale of the first layer's activation domain.
pub const QA: i16 = 255;

/// Quantization scale of the second layer's weight domain.
pub const QB: i16 = 64;

/// Number of i16 scalars in the first-layer weight matrix.
pub const W0_LEN: usize = HIDDEN_SIZE * NUM_FEATURES;

/// Number of i16 scalars in the second-layer weight vector.
pub const W1_LEN: usize = 2 * HIDDEN_SIZE;

/// Exact byte size of a weight blob: w0, b0, w1 and b1, two bytes each scalar.
pub const NET_BYTES: usize = 2 * (W0_LEN + HIDDEN_SIZE + W1_LEN + 1);

} // verus!
