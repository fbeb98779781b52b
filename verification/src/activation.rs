//! The kinds of nonlinearity that a network can apply to a layer's sums.

use vstd::prelude::*;

verus! {

/// Selects the nonlinearity of a network. All kinds but `SoftMax` look at one
/// sum at a time; `SoftMax` looks at all sums of a layer.
#[derive(Clone, Copy, Debug, PartialEq, Eq, Structural)]
pub enum Activation {
    Sigmoid,
    TanH,
    ReLU,
    SiLU,
    SoftMax,
}

} // verus!
