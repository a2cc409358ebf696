//! AdaGrad: every entry of a parameter moves by a step that shrinks with the
//! squared gradients it has seen.

use vstd::prelude::*;
use crate::grads::Grads;
use crate::layers::LayerError;
use crate::params::{copy_lengths, copy_shapes, same_lengths, same_shapes, Params};
use crate::shape::Shape;

verus! {

/// The accumulated squared gradients, by their shapes: one per parameter.
#[derive(Debug)]
pub struct H {
    /// The shape of the accumulator of each weight.
    pub weight_list: Vec<Shape>,
    /// The length of the accumulator of each bias.
    pub bias_list: Vec<usize>,
}

/// AdaGrad. The accumulators come into being with the first update, all zero
/// and shaped like the gradients.
#[derive(Debug)]
pub struct AdaGrad {
    /// The accumulators, once the first update has made them.
    pub h: Option<H>,
}

impl H {
    /// Accumulators shaped like the given gradients.
    pub fn new(grads: &Grads) -> (h: Self)
        ensures
            h.weight_list@ == grads@.d_weight_list,
            h.bias_list@ == grads@.d_bias_list,
    {
        Self {
            weight_list: copy_shapes(&grads.d_weight_list),
            bias_list: copy_lengths(&grads.d_bias_list),
        }
    }

    /// Every accumulator has the shape of the gradient it sums.
    pub open spec fn follows(&self, grads: &Grads) -> bool {
        self.weight_list@ == grads@.d_weight_list && self.bias_list@ == grads@.d_bias_list
    }
}

impl AdaGrad {
    /// Whether an update can be made: there is a gradient of its shape for
    /// every parameter, and the accumulators, where they exist, have those
    /// shapes too.
    pub open spec fn can_update(&self, params: &Params, grads: &Grads) -> bool {
        &&& grads@.mirrors(params@)
        &&& (self.h matches Some(h) ==> h.follows(grads))
    }

    /// The rule, before its first update.
    pub fn new() -> (a: Self)
        ensures
            a.h is None,
    {
        Self { h: None }
    }

    /// Decides whether the parameters can be updated by the gradients, and
    /// makes the accumulators where this is the first update.
    ///
    /// Returns whether this update made the accumulators: they then start at
    /// zero. Where no update can be made, the rule stays as it was.
    pub fn update(&mut self, params: &Params, grads: &Grads) -> (r: Result<bool, LayerError>)
        ensures
            r is Ok <==> old(self).can_update(params, grads),
            r matches Ok(first) ==> {
                &&& first == (old(self).h is None)
                &&& final(self).h is Some
                &&& final(self).h->0.follows(grads)
            },
            r is Err ==> r == Err::<bool, LayerError>(LayerError::ShapeMismatch) && *final(self)
                == *old(self),
    {
        if !same_shapes(&params.weight_list, &grads.d_weight_list) || !same_lengths(
            &params.bias_list,
            &grads.d_bias_list,
        ) {
            return Err(LayerError::ShapeMismatch);
        }
        match &self.h {
            None => {
                self.h = Some(H::new(grads));
                Ok(true)
            },
            Some(h) => {
                if same_shapes(&h.weight_list, &grads.d_weight_list) && same_lengths(
                    &h.bias_list,
                    &grads.d_bias_list,
                ) {
                    Ok(false)
                } else {
                    Err(LayerError::ShapeMismatch)
                }
            },
        }
    }
}

} // verus!
