//! Stochastic gradient descent: each parameter moves against its gradient.

use vstd::prelude::*;
use crate::grads::Grads;
use crate::layers::LayerError;
use crate::params::{same_lengths, same_shapes, Params};

verus! {

/// Plain gradient descent. It keeps nothing between updates.
#[derive(Clone, Copy, Debug)]
pub struct SGD {}

impl SGD {
    /// The rule.
    pub fn new() -> Self {
        Self {  }
    }

    /// Decides whether the parameters can be updated by the gradients: there
    /// must be a gradient of its shape for every parameter. The stores are
    /// only read.
    pub fn update(&self, params: &Params, grads: &Grads) -> (r: Result<(), LayerError>)
        ensures
            r is Ok <==> grads@.mirrors(params@),
            r is Err ==> r == Err::<(), LayerError>(LayerError::ShapeMismatch),
    {
        if same_shapes(&params.weight_list, &grads.d_weight_list) && same_lengths(
            &params.bias_list,
            &grads.d_bias_list,
        ) {
            Ok(())
        } else {
            Err(LayerError::ShapeMismatch)
        }
    }
}

} // verus!
