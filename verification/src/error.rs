//! The one failure signal of the transform engine.

use vstd::prelude::*;

verus! {

/// The only recoverable error: a fast-transform input whose length is not a
/// power of two. The payload carries the offending length.
#[derive(Debug, Clone, Copy, PartialEq, Eq, Structural)]
pub enum FftError {
    NotAPowerOfTwo(usize),
}

} // verus!
