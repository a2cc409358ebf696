//! The logistic activation.

use vstd::prelude::*;
use crate::layers::LayerError;
use crate::shape::Shape;

verus! {

/// The bookkeeping of a sigmoid layer.
///
/// A forward pass caches its output, whose shape is held here; the backward
/// pass multiplies the gradient with it entry by entry.
#[derive(Clone, Copy, Debug)]
pub struct Sigmoid {
    /// The shape of the output of the last forward pass.
    pub out: Option<Shape>,
}

impl Sigmoid {
    /// The layer after a batch of shape `x` has passed forward.
    pub open spec fn after_forwards(self, x: Shape) -> Self {
        Sigmoid { out: Some(x) }
    }

    /// Whether a gradient of shape `dout` can pass backward: the cached output
    /// has that shape.
    pub open spec fn accepts_gradient(&self, dout: Shape) -> bool {
        self.out == Some(dout)
    }

    /// A layer before any pass.
    pub fn new() -> (layer: Self)
        ensures
            layer.out is None,
    {
        Self { out: None }
    }

    /// Passes a batch of shape `x` forward: the output has the shape of the
    /// input and is cached. The mode makes no difference.
    pub fn forwards(&mut self, x: Shape, train_flg: bool) -> (r: Result<Shape, LayerError>)
        ensures
            r == Ok::<Shape, LayerError>(x),
            *final(self) == old(self).after_forwards(x),
    {
        self.out = Some(x);
        Ok(x)
    }

    /// Passes a gradient of shape `dout` backward: it keeps its shape. The
    /// layer does not change. A gradient that does not have the shape of the
    /// cached output is refused.
    pub fn backwards(&mut self, dout: Shape) -> (r: Result<Shape, LayerError>)
        ensures
            *final(self) == *old(self),
            r is Ok <==> old(self).accepts_gradient(dout),
            r is Ok ==> r == Ok::<Shape, LayerError>(dout),
            r is Err ==> r == Err::<Shape, LayerError>(
                if old(self).out is None {
                    LayerError::BackwardBeforeForward
                } else {
                    LayerError::ShapeMismatch
                },
            ),
    {
        match self.out {
            None => Err(LayerError::BackwardBeforeForward),
            Some(m) => {
                if m.rows != dout.rows || m.cols != dout.cols {
                    Err(LayerError::ShapeMismatch)
                } else {
                    Ok(dout)
                }
            },
        }
    }
}

} // verus!
