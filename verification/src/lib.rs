//! A Fourier-transform kernel for finite complex-valued sequences: the
//! direct O(n^2) discrete transform computed through an explicit transform
//! matrix, the recursive radix-2 fast transform for power-of-two lengths,
//! and their inverses, over the small linear-algebra primitives that both
//! share.

pub mod complex;
pub mod dft;
pub mod error;
pub mod fft;
pub mod utils;
