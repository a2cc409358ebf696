//! The layers of a network, by kind.

use vstd::prelude::*;
use crate::layers::affine_layer::Affine;
use crate::layers::batch_normalisation_layer::BatchNormalisationLayer;
use crate::layers::relu_layer::Relu;
use crate::layers::sigmoid_layer::Sigmoid;
use crate::shape::Shape;

pub mod affine_layer;
pub mod batch_normalisation_layer;
pub mod relu_layer;
pub mod sigmoid_layer;
pub mod softmax_with_loss_layer;

verus! {

/// Why a layer refused a pass.
#[derive(Clone, Copy, Debug, PartialEq, Eq, Structural)]
pub enum LayerError {
    /// The shape handed in does not fit the layer's parameters or caches.
    ShapeMismatch,
    /// A backward pass was asked for before any forward pass.
    BackwardBeforeForward,
}

/// A layer of the pipeline, of one of the four kinds that can stand before
/// the terminal layer.
#[derive(Clone, Copy, Debug)]
pub enum Layer {
    Affine(Affine),
    BatchNormalisation(BatchNormalisationLayer),
    Relu(Relu),
    Sigmoid(Sigmoid),
}

impl Layer {
    /// The layer's fields agree with each other.
    pub open spec fn wf(&self) -> bool {
        match *self {
            Layer::BatchNormalisation(l) => l.wf(),
            _ => true,
        }
    }

    /// The layer as it was built: its parameters, and no trace of any pass.
    pub open spec fn fresh(self) -> Layer {
        match self {
            Layer::Affine(l) => Layer::Affine(
                Affine { w: l.w, b: l.b, x: None, dw: Shape { rows: 0, cols: 0 }, db: 0 },
            ),
            Layer::BatchNormalisation(l) => Layer::BatchNormalisation(
                BatchNormalisationLayer {
                    gamma: l.gamma,
                    beta: l.beta,
                    running_mean: None,
                    running_var: None,
                    batch_size: 0,
                    xc: None,
                    xn: None,
                    std: None,
                    dgamma: 0,
                    dbeta: 0,
                },
            ),
            Layer::Relu(_) => Layer::Relu(Relu { mask: None }),
            Layer::Sigmoid(_) => Layer::Sigmoid(Sigmoid { out: None }),
        }
    }

    /// Whether a batch of shape `x` can pass forward.
    pub open spec fn accepts(&self, x: Shape) -> bool {
        match *self {
            Layer::Affine(l) => l.accepts(x),
            Layer::BatchNormalisation(l) => l.accepts(x),
            Layer::Relu(_) => true,
            Layer::Sigmoid(_) => true,
        }
    }

    /// The shape that a batch of shape `x` has after the layer.
    pub open spec fn output(&self, x: Shape) -> Shape {
        match *self {
            Layer::Affine(l) => l.output(x),
            _ => x,
        }
    }

    /// The layer after a batch of shape `x` has passed forward.
    pub open spec fn after_forwards(self, x: Shape, train_flg: bool) -> Self {
        match self {
            Layer::Affine(l) => Layer::Affine(l.after_forwards(x)),
            Layer::BatchNormalisation(l) => Layer::BatchNormalisation(
                l.after_forwards(x, train_flg),
            ),
            Layer::Relu(l) => Layer::Relu(l.after_forwards(x)),
            Layer::Sigmoid(l) => Layer::Sigmoid(l.after_forwards(x)),
        }
    }

    /// Whether a gradient of shape `dout` can pass backward.
    pub open spec fn accepts_gradient(&self, dout: Shape) -> bool {
        match *self {
            Layer::Affine(l) => l.accepts_gradient(dout),
            Layer::BatchNormalisation(l) => l.accepts_gradient(dout),
            Layer::Relu(l) => l.accepts_gradient(dout),
            Layer::Sigmoid(l) => l.accepts_gradient(dout),
        }
    }

    /// The shape of the gradient with respect to the input.
    pub open spec fn input_gradient(&self, dout: Shape) -> Shape {
        match *self {
            Layer::Affine(l) => l.input_gradient(dout),
            _ => dout,
        }
    }

    /// The layer after a gradient of shape `dout` has passed backward.
    pub open spec fn after_backwards(self, dout: Shape) -> Self {
        match self {
            Layer::Affine(l) => Layer::Affine(l.after_backwards(dout)),
            Layer::BatchNormalisation(l) => Layer::BatchNormalisation(l.after_backwards(dout)),
            Layer::Relu(l) => Layer::Relu(l),
            Layer::Sigmoid(l) => Layer::Sigmoid(l),
        }
    }

    /// The gradients that the last backward pass left in the layer have the
    /// shapes of the parameters they belong to.
    pub open spec fn gradients_match_parameters(&self) -> bool {
        match *self {
            Layer::Affine(l) => l.dw == l.w && l.db == l.b,
            Layer::BatchNormalisation(l) => l.dgamma == l.gamma && l.dbeta == l.beta,
            _ => true,
        }
    }

    /// The error with which the layer refuses a gradient that it does not
    /// accept: it names the missing forward pass where there was none.
    pub open spec fn gradient_error(&self) -> LayerError {
        let forwarded = match *self {
            Layer::Affine(l) => l.x is Some,
            Layer::BatchNormalisation(l) => l.xc is Some,
            Layer::Relu(l) => l.mask is Some,
            Layer::Sigmoid(l) => l.out is Some,
        };
        if forwarded {
            LayerError::ShapeMismatch
        } else {
            LayerError::BackwardBeforeForward
        }
    }

    /// Passes a batch of shape `x` forward through the layer, whatever its
    /// kind. A batch that the layer does not accept is refused, and the layer
    /// stays as it was.
    pub fn forwards(&mut self, x: Shape, train_flg: bool) -> (r: Result<Shape, LayerError>)
        requires
            old(self).wf(),
        ensures
            final(self).wf(),
            r is Ok <==> old(self).accepts(x),
            r is Ok ==> r == Ok::<Shape, LayerError>(old(self).output(x)) && *final(self) == old(self).after_forwards(x, train_flg),
            r is Err ==> r == Err::<Shape, LayerError>(LayerError::ShapeMismatch) && *final(self)
                == *old(self),
    {
        match self {
            Layer::Affine(l) => l.forwards(x),
            Layer::BatchNormalisation(l) => l.forwards(x, train_flg),
            Layer::Relu(l) => l.forwards(x),
            Layer::Sigmoid(l) => l.forwards(x, train_flg),
        }
    }

    /// Passes a gradient of shape `dout` backward through the layer, whatever
    /// its kind. A gradient that the layer does not accept is refused, and the
    /// layer stays as it was.
    pub fn backwards(&mut self, dout: Shape) -> (r: Result<Shape, LayerError>)
        requires
            old(self).wf(),
        ensures
            final(self).wf(),
            r is Ok <==> old(self).accepts_gradient(dout),
            r is Ok ==> r == Ok::<Shape, LayerError>(old(self).input_gradient(dout)) && *final(self) == old(self).after_backwards(dout),
            r is Err ==> r == Err::<Shape, LayerError>(old(self).gradient_error()) && *final(self)
                == *old(self),
    {
        match self {
            Layer::Affine(l) => l.backwards(dout),
            Layer::BatchNormalisation(l) => l.backwards(dout),
            Layer::Relu(l) => l.backwards(dout),
            Layer::Sigmoid(l) => l.backwards(dout),
        }
    }
}

} // verus!
