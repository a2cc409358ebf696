//! The gradient store of a network with batch normalisation.

use vstd::prelude::*;
use crate::params::{empty_lengths, empty_shapes};
use crate::params_extended::ParamsExtView;
use crate::shape::Shape;

verus! {

/// The gradients of a network with batch normalisation, by their shapes: one
/// per parameter, each as the last backward pass left it.
#[derive(Clone, Debug)]
pub struct GradsExt {
    /// The shape of the gradient of each weight.
    pub d_weight_list: Vec<Shape>,
    /// The length of the gradient of each bias.
    pub d_bias_list: Vec<usize>,
    /// The length of the gradient of each scale.
    pub d_gamma_list: Vec<usize>,
    /// The length of the gradient of each shift.
    pub d_beta_list: Vec<usize>,
}

/// What an extended gradient store holds.
pub struct GradsExtView {
    pub d_weight_list: Seq<Shape>,
    pub d_bias_list: Seq<usize>,
    pub d_gamma_list: Seq<usize>,
    pub d_beta_list: Seq<usize>,
}

impl GradsExtView {
    /// Every gradient has the shape of its parameter.
    pub open spec fn mirrors(self, params: ParamsExtView) -> bool {
        &&& self.d_weight_list == params.weight_list
        &&& self.d_bias_list == params.bias_list
        &&& self.d_gamma_list == params.gamma_list
        &&& self.d_beta_list == params.beta_list
    }
}

impl View for GradsExt {
    type V = GradsExtView;

    open spec fn view(&self) -> GradsExtView {
        GradsExtView {
            d_weight_list: self.d_weight_list@,
            d_bias_list: self.d_bias_list@,
            d_gamma_list: self.d_gamma_list@,
            d_beta_list: self.d_beta_list@,
        }
    }
}

impl GradsExt {
    /// A store of `size` gradients in each list, all of them empty.
    pub fn new(size: usize) -> (g: Self)
        ensures
            g@.d_weight_list == Seq::new(size as nat, |i: int| Shape { rows: 0, cols: 0 }),
            g@.d_bias_list == Seq::new(size as nat, |i: int| 0usize),
            g@.d_gamma_list == Seq::new(size as nat, |i: int| 0usize),
            g@.d_beta_list == Seq::new(size as nat, |i: int| 0usize),
    {
        Self {
            d_weight_list: empty_shapes(size),
            d_bias_list: empty_lengths(size),
            d_gamma_list: empty_lengths(size),
            d_beta_list: empty_lengths(size),
        }
    }
}

} // verus!
