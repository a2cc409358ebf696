//! Gradient descent with momentum: a velocity per parameter carries past
//! gradients on.

use vstd::prelude::*;
use crate::grads::Grads;
use crate::layers::LayerError;
use crate::params::{copy_lengths, copy_shapes, same_lengths, same_shapes, Params};
use crate::shape::Shape;

verus! {

/// The velocities, by their shapes: one per parameter.
#[derive(Debug)]
pub struct V {
    /// The shape of the velocity of each weight.
    pub v_weight_list: Vec<Shape>,
    /// The length of the velocity of each bias.
    pub v_bias_list: Vec<usize>,
}

/// Gradient descent with momentum. The velocities come into being with the
/// first update, all zero and shaped like the gradients.
#[derive(Debug)]
pub struct Momentum {
    /// The velocities, once the first update has made them.
    pub v: Option<V>,
}

impl V {
    /// Velocities shaped like the given gradients.
    pub fn new(grads: &Grads) -> (v: Self)
        ensures
            v.v_weight_list@ == grads@.d_weight_list,
            v.v_bias_list@ == grads@.d_bias_list,
    {
        Self {
            v_weight_list: copy_shapes(&grads.d_weight_list),
            v_bias_list: copy_lengths(&grads.d_bias_list),
        }
    }

    /// Every velocity has the shape of the gradient it follows.
    pub open spec fn follows(&self, grads: &Grads) -> bool {
        self.v_weight_list@ == grads@.d_weight_list && self.v_bias_list@ == grads@.d_bias_list
    }
}

impl Momentum {
    /// Whether an update can be made: there is a gradient of its shape for
    /// every parameter, and the velocities, where they exist, have those
    /// shapes too.
    pub open spec fn can_update(&self, params: &Params, grads: &Grads) -> bool {
        &&& grads@.mirrors(params@)
        &&& (self.v matches Some(v) ==> v.follows(grads))
    }

    /// The rule, before its first update.
    pub fn new() -> (m: Self)
        ensures
            m.v is None,
    {
        Self { v: None }
    }

    /// Decides whether the parameters can be updated by the gradients, and
    /// makes the velocities where this is the first update.
    ///
    /// Returns whether this update made the velocities: they then start at
    /// zero. Where no update can be made, the rule stays as it was.
    pub fn update(&mut self, params: &Params, grads: &Grads) -> (r: Result<bool, LayerError>)
        ensures
            r is Ok <==> old(self).can_update(params, grads),
            r matches Ok(first) ==> {
                &&& first == (old(self).v is None)
                &&& final(self).v is Some
                &&& final(self).v->0.follows(grads)
            },
            r is Err ==> r == Err::<bool, LayerError>(LayerError::ShapeMismatch) && *final(self)
                == *old(self),
    {
        if !same_shapes(&params.weight_list, &grads.d_weight_list) || !same_lengths(
            &params.bias_list,
            &grads.d_bias_list,
        ) {
            return Err(LayerError::ShapeMismatch);
        }
        match &self.v {
            None => {
                self.v = Some(V::new(grads));
                Ok(true)
            },
            Some(v) => {
                if same_shapes(&v.v_weight_list, &grads.d_weight_list) && same_lengths(
                    &v.v_bias_list,
                    &grads.d_bias_list,
                ) {
                    Ok(false)
                } else {
                    Err(LayerError::ShapeMismatch)
                }
            },
        }
    }
}

} // verus!
