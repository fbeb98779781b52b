//! The kinds of loss by which a network's output is held against a target.

use vstd::prelude::*;

verus! {

/// Selects the loss.
#[derive(Clone, Copy, Debug, PartialEq, Eq, Structural)]
pub enum Cost {
    MeanSquareError,
    CrossEntropy,
}

} // verus!
