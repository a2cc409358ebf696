//! The rectifier: passes positive entries and blocks the others.

use vstd::prelude::*;
use crate::layers::LayerError;
use crate::shape::Shape;

verus! {

/// The bookkeeping of a rectifier layer.
///
/// A forward pass records a mask of the entries that were not positive; the
/// shape of that mask is held here.
#[derive(Clone, Copy, Debug)]
pub struct Relu {
    /// The shape of the mask of the last forward pass.
    pub mask: Option<Shape>,
}

impl Relu {
    /// The layer after a batch of shape `x` has passed forward.
    pub open spec fn after_forwards(self, x: Shape) -> Self {
        Relu { mask: Some(x) }
    }

    /// Whether a gradient of shape `dout` can pass backward: the mask has that
    /// shape.
    pub open spec fn accepts_gradient(&self, dout: Shape) -> bool {
        self.mask == Some(dout)
    }

    /// A layer before any pass.
    pub fn new() -> (layer: Self)
        ensures
            layer.mask is None,
    {
        Self { mask: None }
    }

    /// Passes a batch of shape `x` forward: the output has the shape of the
    /// input, and so has the mask.
    pub fn forwards(&mut self, x: Shape) -> (r: Result<Shape, LayerError>)
        ensures
            r == Ok::<Shape, LayerError>(x),
            *final(self) == old(self).after_forwards(x),
    {
        self.mask = Some(x);
        Ok(x)
    }

    /// Passes a gradient of shape `dout` backward: it keeps its shape. The
    /// layer does not change. A gradient that does not have the shape of the
    /// mask is refused.
    pub fn backwards(&mut self, dout: Shape) -> (r: Result<Shape, LayerError>)
        ensures
            *final(self) == *old(self),
            r is Ok <==> old(self).accepts_gradient(dout),
            r is Ok ==> r == Ok::<Shape, LayerError>(dout),
            r is Err ==> r == Err::<Shape, LayerError>(
                if old(self).mask is None {
                    LayerError::BackwardBeforeForward
                } else {
                    LayerError::ShapeMismatch
                },
            ),
    {
        match self.mask {
            None => Err(LayerError::BackwardBeforeForward),
            Some(m) => {
                if m.rows != dout.rows || m.cols != dout.cols {
                    Err(LayerError::ShapeMismatch)
                } else {
                    Ok(dout)
                }
            },
        }
    }
}

} // verus!
