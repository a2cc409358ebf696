//! Stochastic gradient descent for a network with batch normalisation.

use vstd::prelude::*;
use crate::grads_extended::{GradsExt, GradsExtView};
use crate::layers::LayerError;
use crate::params::{same_lengths, same_shapes};
use crate::params_extended::{ParamsExt, ParamsExtView};

verus! {

/// Gradient descent over weights, biases, scales and shifts. It keeps nothing
/// between updates.
#[derive(Clone, Copy, Debug)]
pub struct SGDExt {}

/// Whether scale and shift `i` take part in an update: the gradient of the
/// scale is not empty.
pub open spec fn takes_part(grads: GradsExtView, i: int) -> bool {
    grads.d_gamma_list[i] != 0
}

/// Whether the parameters can be updated by the gradients: every weight and
/// bias has a gradient of its shape, there is an entry for every scale and
/// shift, and those that take part have the lengths of their parameters.
pub open spec fn can_update(params: ParamsExtView, grads: GradsExtView) -> bool {
    &&& grads.d_weight_list == params.weight_list
    &&& grads.d_bias_list == params.bias_list
    &&& grads.d_gamma_list.len() == params.gamma_list.len()
    &&& grads.d_beta_list.len() == params.beta_list.len()
    &&& params.gamma_list.len() == params.beta_list.len()
    &&& forall|i: int|
        0 <= i < params.gamma_list.len() && takes_part(grads, i) ==> #[trigger] grads.d_gamma_list[i]
            == params.gamma_list[i] && grads.d_beta_list[i] == params.beta_list[i]
}

impl SGDExt {
    /// The rule.
    pub fn new() -> Self {
        Self {  }
    }

    /// Decides whether the parameters can be updated by the gradients, and
    /// which scales and shifts take part: entry `i` of the result says whether
    /// scale and shift `i` do. The stores are only read.
    pub fn update(&self, params: &ParamsExt, grads: &GradsExt) -> (r: Result<
        Vec<bool>,
        LayerError,
    >)
        ensures
            r is Ok <==> can_update(params@, grads@),
            r matches Ok(v) ==> v@ == Seq::new(
                params@.gamma_list.len(),
                |i: int| takes_part(grads@, i),
            ),
            r is Err ==> r == Err::<Vec<bool>, LayerError>(LayerError::ShapeMismatch),
    {
        if !same_shapes(&params.weight_list, &grads.d_weight_list) || !same_lengths(
            &params.bias_list,
            &grads.d_bias_list,
        ) {
            return Err(LayerError::ShapeMismatch);
        }
        let n: usize = params.gamma_list.len();
        if grads.d_gamma_list.len() != n || grads.d_beta_list.len() != n || params.beta_list.len()
            != n {
            return Err(LayerError::ShapeMismatch);
        }
        let mut v: Vec<bool> = Vec::new();
        let mut i: usize = 0;
        while i < n
            invariant
                i <= n,
                n == params@.gamma_list.len(),
                n == params@.beta_list.len(),
                n == grads@.d_gamma_list.len(),
                n == grads@.d_beta_list.len(),
                grads@.d_weight_list == params@.weight_list,
                grads@.d_bias_list == params@.bias_list,
                v@ =~= Seq::new(i as nat, |k: int| takes_part(grads@, k)),
                forall|k: int|
                    0 <= k < i && takes_part(grads@, k) ==> #[trigger] grads@.d_gamma_list[k]
                        == params@.gamma_list[k] && grads@.d_beta_list[k] == params@.beta_list[k],
            decreases n - i,
        {
            let part: bool = grads.d_gamma_list[i] != 0;
            if part {
                if grads.d_gamma_list[i] != params.gamma_list[i] || grads.d_beta_list[i]
                    != params.beta_list[i] {
                    assert(!can_update(params@, grads@)) by {
                        assert(takes_part(grads@, i as int));
                    }
                    return Err(LayerError::ShapeMismatch);
                }
            }
            v.push(part);
            i += 1;
        }
        Ok(v)
    }
}

} // verus!
