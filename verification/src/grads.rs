//! The gradient store of a plain network.

use vstd::prelude::*;
use crate::params::{empty_lengths, empty_shapes, ParamsView};
use crate::shape::Shape;

verus! {

/// The gradients of a network, by their shapes: one per parameter, each as
/// the last backward pass left it.
#[derive(Clone, Debug)]
pub struct Grads {
    /// The shape of the gradient of each weight.
    pub d_weight_list: Vec<Shape>,
    /// The length of the gradient of each bias.
    pub d_bias_list: Vec<usize>,
}

/// What a gradient store holds.
pub struct GradsView {
    pub d_weight_list: Seq<Shape>,
    pub d_bias_list: Seq<usize>,
}

impl GradsView {
    /// Every gradient has the shape of its parameter.
    pub open spec fn mirrors(self, params: ParamsView) -> bool {
        self.d_weight_list == params.weight_list && self.d_bias_list == params.bias_list
    }
}

impl View for Grads {
    type V = GradsView;

    open spec fn view(&self) -> GradsView {
        GradsView { d_weight_list: self.d_weight_list@, d_bias_list: self.d_bias_list@ }
    }
}

impl Grads {
    /// A store of `size` gradients in each list, all of them empty.
    pub fn new(size: usize) -> (g: Self)
        ensures
            g@.d_weight_list == Seq::new(size as nat, |i: int| Shape { rows: 0, cols: 0 }),
            g@.d_bias_list == Seq::new(size as nat, |i: int| 0usize),
    {
        Self { d_weight_list: empty_shapes(size), d_bias_list: empty_lengths(size) }
    }
}

} // verus!
