//! The affine layer: a linear transform with a bias broadcast over the batch.

use vstd::prelude::*;
use crate::layers::LayerError;
use crate::shape::Shape;

verus! {

/// The bookkeeping of an affine layer `x * w + b`.
///
/// The layer uses a weight of shape `w` and a bias of length `b`. A forward
/// pass caches the shape of its input; a backward pass leaves the shapes of
/// the gradients of weight and bias in `dw` and `db`.
#[derive(Clone, Copy, Debug)]
pub struct Affine {
    /// The shape of the weight.
    pub w: Shape,
    /// The length of the bias.
    pub b: usize,
    /// The shape of the input of the last forward pass.
    pub x: Option<Shape>,
    /// The shape of the gradient of the weight, as of the last backward pass.
    pub dw: Shape,
    /// The length of the gradient of the bias, as of the last backward pass.
    pub db: usize,
}

impl Affine {
    /// Whether a batch of shape `x` can pass forward: the product with the
    /// weight is defined, and the bias has one entry per output feature.
    pub open spec fn accepts(&self, x: Shape) -> bool {
        x.can_multiply(self.w) && self.w.cols == self.b
    }

    /// The shape that a batch of shape `x` has after the layer.
    pub open spec fn output(&self, x: Shape) -> Shape {
        x.product(self.w)
    }

    /// The layer after a batch of shape `x` has passed forward.
    pub open spec fn after_forwards(self, x: Shape) -> Self {
        Affine { x: Some(x), ..self }
    }

    /// Whether a gradient of shape `dout` can pass backward: a forward pass
    /// has cached an input with as many samples, and `dout` is as wide as the
    /// weight.
    pub open spec fn accepts_gradient(&self, dout: Shape) -> bool {
        &&& self.x matches Some(x)
        &&& dout.can_multiply(self.w.transposed())
        &&& x.transposed().can_multiply(dout)
    }

    /// The shape of the gradient with respect to the input.
    pub open spec fn input_gradient(&self, dout: Shape) -> Shape {
        dout.product(self.w.transposed())
    }

    /// The layer after a gradient of shape `dout` has passed backward.
    pub open spec fn after_backwards(self, dout: Shape) -> Self
        recommends
            self.x is Some,
    {
        Affine { dw: self.x->0.transposed().product(dout), db: dout.cols, ..self }
    }

    /// A layer for a weight of shape `w` and a bias of length `b`, before any
    /// pass; its gradients are empty.
    pub fn new(w: Shape, b: usize) -> (layer: Self)
        ensures
            layer == (Affine { w, b, x: None, dw: Shape { rows: 0, cols: 0 }, db: 0 }),
    {
        Self { w, b, x: None, dw: Shape { rows: 0, cols: 0 }, db: 0 }
    }

    /// Passes a batch of shape `x` forward.
    ///
    /// The output has the rows of the input and the columns of the weight. A
    /// batch that the layer does not accept is refused, and the layer stays as
    /// it was.
    pub fn forwards(&mut self, x: Shape) -> (r: Result<Shape, LayerError>)
        ensures
            r is Ok <==> old(self).accepts(x),
            r is Ok ==> r == Ok::<Shape, LayerError>(old(self).output(x)) && *final(self) == old(self).after_forwards(x),
            r is Err ==> r == Err::<Shape, LayerError>(LayerError::ShapeMismatch) && *final(self)
                == *old(self),
    {
        if x.cols != self.w.rows || self.w.cols != self.b {
            return Err(LayerError::ShapeMismatch);
        }
        self.x = Some(x);
        Ok(Shape { rows: x.rows, cols: self.w.cols })
    }

    /// Passes a gradient of shape `dout` backward.
    ///
    /// The gradient with respect to the input has the rows of `dout` and as
    /// many columns as the weight has rows; the gradient of the weight is the
    /// product of the transposed input with `dout`; the gradient of the bias
    /// has one entry per column of `dout`. A gradient that the layer does not
    /// accept is refused, and the layer stays as it was.
    pub fn backwards(&mut self, dout: Shape) -> (r: Result<Shape, LayerError>)
        ensures
            r is Ok <==> old(self).accepts_gradient(dout),
            r is Ok ==> r == Ok::<Shape, LayerError>(old(self).input_gradient(dout)) && *final(self) == old(self).after_backwards(dout),
            r is Err ==> *final(self) == *old(self) && r == Err::<Shape, LayerError>(
                if old(self).x is None {
                    LayerError::BackwardBeforeForward
                } else {
                    LayerError::ShapeMismatch
                },
            ),
    {
        match self.x {
            None => Err(LayerError::BackwardBeforeForward),
            Some(x) => {
                if dout.cols != self.w.cols || x.rows != dout.rows {
                    return Err(LayerError::ShapeMismatch);
                }
                self.dw = Shape { rows: x.cols, cols: dout.cols };
                self.db = dout.cols;
                Ok(Shape { rows: dout.rows, cols: self.w.rows })
            },
        }
    }
}

/// After a forward pass and the backward pass that answers it, the gradient
/// with respect to the input has the shape of the input, the gradient of the
/// weight has the shape of the weight, and the gradient of the bias has the
/// length of the bias.
pub proof fn lemma_affine_gradient_shapes(layer: Affine, x: Shape)
    requires
        layer.accepts(x),
    ensures
        layer.after_forwards(x).accepts_gradient(layer.output(x)),
        layer.after_forwards(x).input_gradient(layer.output(x)) == x,
        layer.after_forwards(x).after_backwards(layer.output(x)).dw == layer.w,
        layer.after_forwards(x).after_backwards(layer.output(x)).db == layer.b,
{
}

} // verus!
