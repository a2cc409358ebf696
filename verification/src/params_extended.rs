//! The parameter store of a network with batch normalisation: weights,
//! biases, scales and shifts.

use vstd::prelude::*;
use crate::params::{empty_lengths, empty_shapes};
use crate::shape::Shape;

verus! {

/// The parameters of a network with batch normalisation, by their shapes.
///
/// Entry `i` of each list belongs to affine layer `i`; scale and shift belong
/// to the normalisation that follows it, and are empty where none does.
#[derive(Debug)]
pub struct ParamsExt {
    /// The shape of each weight.
    pub weight_list: Vec<Shape>,
    /// The length of each bias.
    pub bias_list: Vec<usize>,
    /// The length of each scale.
    pub gamma_list: Vec<usize>,
    /// The length of each shift.
    pub beta_list: Vec<usize>,
}

/// What an extended parameter store holds.
pub struct ParamsExtView {
    pub weight_list: Seq<Shape>,
    pub bias_list: Seq<usize>,
    pub gamma_list: Seq<usize>,
    pub beta_list: Seq<usize>,
}

impl View for ParamsExt {
    type V = ParamsExtView;

    open spec fn view(&self) -> ParamsExtView {
        ParamsExtView {
            weight_list: self.weight_list@,
            bias_list: self.bias_list@,
            gamma_list: self.gamma_list@,
            beta_list: self.beta_list@,
        }
    }
}

impl ParamsExt {
    /// A store of `size` entries in each list, all of them empty.
    pub fn new(size: usize) -> (p: Self)
        ensures
            p@.weight_list == Seq::new(size as nat, |i: int| Shape { rows: 0, cols: 0 }),
            p@.bias_list == Seq::new(size as nat, |i: int| 0usize),
            p@.gamma_list == Seq::new(size as nat, |i: int| 0usize),
            p@.beta_list == Seq::new(size as nat, |i: int| 0usize),
    {
        Self {
            weight_list: empty_shapes(size),
            bias_list: empty_lengths(size),
            gamma_list: empty_lengths(size),
            beta_list: empty_lengths(size),
        }
    }
}

} // verus!
