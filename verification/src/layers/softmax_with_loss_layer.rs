//! The terminal layer: softmax over each row, then cross-entropy against
//! one-hot targets.

use vstd::prelude::*;
use crate::layers::LayerError;
use crate::shape::Shape;
use crate::byte_matrix::ByteMatrix;

verus! {

/// The bookkeeping of the terminal softmax-with-loss layer.
///
/// A forward pass caches the softmax output and the targets; both have the
/// shape held here.
#[derive(Clone, Copy, Debug)]
pub struct SoftmaxWithLoss {
    /// The shape of the softmax output of the last forward pass.
    pub y: Option<Shape>,
    /// The shape of the targets of the last forward pass.
    pub t: Option<Shape>,
}

impl SoftmaxWithLoss {
    /// Both caches were written by one forward pass.
    pub open spec fn wf(&self) -> bool {
        self.y == self.t
    }

    /// Whether scores of shape `x` can be held against targets of `rows` by
    /// `cols` entries: there is one target for every score.
    pub open spec fn accepts(x: Shape, rows: nat, cols: nat) -> bool {
        x.rows == rows && x.cols == cols
    }

    /// The layer after scores of shape `x` have passed forward.
    pub open spec fn after_forwards(self, x: Shape) -> Self {
        SoftmaxWithLoss { y: Some(x), t: Some(x) }
    }

    /// A layer before any pass.
    pub fn new() -> (layer: Self)
        ensures
            layer.y is None,
            layer.t is None,
            layer.wf(),
    {
        Self { y: None, t: None }
    }

    /// Passes scores of shape `x` forward against the targets `t`.
    ///
    /// Scores and targets must have one shape; else the pass is refused and
    /// the layer stays as it was.
    pub fn forwards(&mut self, x: Shape, t: &ByteMatrix) -> (r: Result<(), LayerError>)
        ensures
            r is Ok <==> Self::accepts(x, t@.len(), t.spec_cols()),
            r is Ok ==> *final(self) == old(self).after_forwards(x),
            r is Err ==> r == Err::<(), LayerError>(LayerError::ShapeMismatch) && *final(self)
                == *old(self),
    {
        let ts: Shape = t.shape();
        if ts.rows != x.rows || ts.cols != x.cols {
            return Err(LayerError::ShapeMismatch);
        }
        self.y = Some(x);
        self.t = Some(x);
        Ok(())
    }

    /// Starts the backward pass: the gradient with respect to the scores has
    /// their shape. The layer does not change. Before any forward pass there
    /// is nothing to pass backward.
    pub fn backwards(&self) -> (r: Result<Shape, LayerError>)
        ensures
            match self.y {
                Some(y) => r == Ok::<Shape, LayerError>(y),
                None => r == Err::<Shape, LayerError>(LayerError::BackwardBeforeForward),
            },
    {
        match self.y {
            Some(y) => Ok(y),
            None => Err(LayerError::BackwardBeforeForward),
        }
    }
}

} // verus!
