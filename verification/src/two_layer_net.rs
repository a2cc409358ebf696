//! A network of two affine layers with a rectifier between them.

use vstd::prelude::*;
use crate::accuracy::{matches_upto, paired, Accuracy};
use crate::layers::affine_layer::Affine;
use crate::layers::relu_layer::Relu;
use crate::layers::softmax_with_loss_layer::SoftmaxWithLoss;
use crate::layers::LayerError;
use crate::shape::Shape;
use crate::byte_matrix::ByteMatrix;

verus! {

/// The parameters of the network, by their shapes.
#[derive(Clone, Copy, Debug)]
pub struct Params {
    pub w1: Shape,
    pub b1: usize,
    pub w2: Shape,
    pub b2: usize,
}

/// The gradients of the network, by their shapes.
#[derive(Clone, Copy, Debug)]
pub struct Grads {
    pub d_w1: Shape,
    pub d_b1: usize,
    pub d_w2: Shape,
    pub d_b2: usize,
}

/// The layers before the terminal one.
#[derive(Clone, Copy, Debug)]
pub struct Layers {
    pub affine1: Affine,
    pub relu1: Relu,
    pub affine2: Affine,
}

/// The network: affine, rectifier, affine, softmax with loss.
#[derive(Clone, Copy, Debug)]
pub struct TwoLayerNet {
    pub params: Params,
    pub grads: Grads,
    pub layers: Layers,
    pub last_layer: SoftmaxWithLoss,
}

impl Params {
    /// The shapes of the parameters of a network with the given sizes.
    pub open spec fn of(input_size: usize, hidden_size: usize, output_size: usize) -> Params {
        Params {
            w1: Shape { rows: input_size, cols: hidden_size },
            b1: hidden_size,
            w2: Shape { rows: hidden_size, cols: output_size },
            b2: output_size,
        }
    }

    /// The parameters lead from an input through one hidden size to an
    /// output.
    pub open spec fn chained(&self) -> bool {
        *self == Params::of(self.w1.rows, self.b1, self.b2)
    }

    /// The parameters of a network with the given sizes.
    pub fn new(input_size: usize, hidden_size: usize, output_size: usize) -> (p: Self)
        ensures
            p == Params::of(input_size, hidden_size, output_size),
            p.chained(),
    {
        Self {
            w1: Shape { rows: input_size, cols: hidden_size },
            b1: hidden_size,
            w2: Shape { rows: hidden_size, cols: output_size },
            b2: output_size,
        }
    }
}

impl Grads {
    /// Every gradient has the shape of its parameter.
    pub open spec fn mirrors(&self, params: Params) -> bool {
        &&& self.d_w1 == params.w1
        &&& self.d_b1 == params.b1
        &&& self.d_w2 == params.w2
        &&& self.d_b2 == params.b2
    }

    /// The gradients of a network with the given sizes, shaped like its
    /// parameters.
    pub fn new(input_size: usize, hidden_size: usize, output_size: usize) -> (g: Self)
        ensures
            g.mirrors(Params::of(input_size, hidden_size, output_size)),
    {
        Self {
            d_w1: Shape { rows: input_size, cols: hidden_size },
            d_b1: hidden_size,
            d_w2: Shape { rows: hidden_size, cols: output_size },
            d_b2: output_size,
        }
    }
}

impl Layers {
    /// The layers use the given parameters.
    pub open spec fn uses(&self, params: Params) -> bool {
        &&& self.affine1.w == params.w1
        &&& self.affine1.b == params.b1
        &&& self.affine2.w == params.w2
        &&& self.affine2.b == params.b2
    }

    /// Fresh layers over the given parameters.
    pub fn new(params: &Params) -> (l: Self)
        ensures
            l.uses(*params),
            l.affine1.x is None,
            l.relu1.mask is None,
            l.affine2.x is None,
            l.affine1.dw == (Shape { rows: 0, cols: 0 }),
            l.affine1.db == 0,
            l.affine2.dw == (Shape { rows: 0, cols: 0 }),
            l.affine2.db == 0,
    {
        Self {
            affine1: Affine::new(params.w1, params.b1),
            relu1: Relu::new(),
            affine2: Affine::new(params.w2, params.b2),
        }
    }
}

impl TwoLayerNet {
    /// The layers use the parameters, which lead from input to output.
    pub open spec fn wf(&self) -> bool {
        &&& self.params.chained()
        &&& self.layers.uses(self.params)
        &&& self.last_layer.wf()
    }

    /// The shape in which a batch of shape `x` leaves the network.
    pub open spec fn output(&self, x: Shape) -> Shape {
        Shape { rows: x.rows, cols: self.params.b2 }
    }

    /// The shape in which a batch of shape `x` leaves the first affine layer.
    pub open spec fn hidden(&self, x: Shape) -> Shape {
        Shape { rows: x.rows, cols: self.params.b1 }
    }

    /// Whether a batch of shape `x` can be held against targets of `rows` by
    /// `cols` entries.
    pub open spec fn fits(&self, x: Shape, rows: nat, cols: nat) -> bool {
        x.cols == self.params.w1.rows && rows == x.rows && cols == self.params.b2
    }

    /// The network after a batch of shape `x` has passed forward through its
    /// layers.
    pub open spec fn after_predict(self, x: Shape) -> TwoLayerNet {
        TwoLayerNet {
            layers: Layers {
                affine1: self.layers.affine1.after_forwards(x),
                relu1: self.layers.relu1.after_forwards(self.hidden(x)),
                affine2: self.layers.affine2.after_forwards(self.hidden(x)),
            },
            ..self
        }
    }

    /// The network after the loss of a batch of shape `x` has been taken.
    pub open spec fn after_loss(self, x: Shape) -> TwoLayerNet {
        TwoLayerNet {
            last_layer: self.last_layer.after_forwards(self.output(x)),
            ..self.after_predict(x)
        }
    }

    /// The network after the gradient of the loss of a batch of shape `x` has
    /// been taken by backward propagation.
    pub open spec fn after_gradient(self, x: Shape) -> TwoLayerNet {
        let lost = self.after_loss(x);
        TwoLayerNet {
            layers: Layers {
                affine1: lost.layers.affine1.after_backwards(self.hidden(x)),
                relu1: lost.layers.relu1,
                affine2: lost.layers.affine2.after_backwards(self.output(x)),
            },
            grads: Grads {
                d_w1: self.params.w1,
                d_b1: self.params.b1,
                d_w2: self.params.w2,
                d_b2: self.params.b2,
            },
            ..lost
        }
    }

    /// The network after the gradient of the loss of a batch of shape `x` has
    /// been taken by finite differences: the loss has been taken, and every
    /// gradient has the shape of its parameter.
    pub open spec fn after_numerical_gradient(self, x: Shape) -> TwoLayerNet {
        TwoLayerNet {
            grads: Grads {
                d_w1: self.params.w1,
                d_b1: self.params.b1,
                d_w2: self.params.w2,
                d_b2: self.params.b2,
            },
            ..self.after_loss(x)
        }
    }

    /// A network with the given sizes, before any pass.
    pub fn new(input_size: usize, hidden_size: usize, output_size: usize) -> (net: Self)
        ensures
            net.wf(),
            net.params == Params::of(input_size, hidden_size, output_size),
            net.grads.mirrors(net.params),
            net.layers.affine1.x is None,
            net.layers.relu1.mask is None,
            net.layers.affine2.x is None,
            net.last_layer.y is None,
    {
        let params = Params::new(input_size, hidden_size, output_size);
        Self {
            grads: Grads::new(input_size, hidden_size, output_size),
            params,
            last_layer: SoftmaxWithLoss::new(),
            layers: Layers::new(&params),
        }
    }

    /// Passes a batch of shape `x` forward through the three layers.
    ///
    /// A batch as wide as the input leaves with as many rows and the output
    /// width. Any other batch is refused, and the network stays as it was.
    pub fn predict(&mut self, x: Shape) -> (r: Result<Shape, LayerError>)
        requires
            old(self).wf(),
        ensures
            final(self).wf(),
            r is Ok <==> x.cols == old(self).params.w1.rows,
            r is Ok ==> r == Ok::<Shape, LayerError>(old(self).output(x)) && *final(self) == old(self).after_predict(x),
            r is Err ==> r == Err::<Shape, LayerError>(LayerError::ShapeMismatch) && *final(self)
                == *old(self),
    {
        let h: Shape = match self.layers.affine1.forwards(x) {
            Ok(h) => h,
            Err(e) => {
                return Err(e);
            },
        };
        let a: Shape = match self.layers.relu1.forwards(h) {
            Ok(a) => a,
            Err(e) => {
                proof {
                    assert(false);
                }
                return Err(e);
            },
        };
        match self.layers.affine2.forwards(a) {
            Ok(y) => Ok(y),
            Err(e) => {
                proof {
                    assert(false);
                }
                Err(e)
            },
        }
    }

    /// Takes the loss of a batch of shape `x` against the targets `t`.
    ///
    /// A batch of another width than the input is refused before any layer
    /// has seen it; targets that do not have one row per sample and one column
    /// per output are refused after the batch has passed through the layers.
    pub fn loss(&mut self, x: Shape, t: &ByteMatrix) -> (r: Result<(), LayerError>)
        requires
            old(self).wf(),
        ensures
            final(self).wf(),
            r is Ok <==> old(self).fits(x, t@.len(), t.spec_cols()),
            r is Ok ==> *final(self) == old(self).after_loss(x),
            r is Err ==> r == Err::<(), LayerError>(LayerError::ShapeMismatch) && *final(self) == (
            if x.cols == old(self).params.w1.rows {
                old(self).after_predict(x)
            } else {
                *old(self)
            }),
    {
        let y: Shape = match self.predict(x) {
            Ok(y) => y,
            Err(e) => {
                return Err(e);
            },
        };
        self.last_layer.forwards(y, t)
    }

    /// Takes the accuracy of a batch of shape `x`: the batch passes forward
    /// and the samples are counted whose predicted class `y_max[i]`, the
    /// column of the largest entry of row `i` of the outcome, is the class that
    /// the target row `t[i]` names.
    ///
    /// The batch must be as wide as the input, there must be one predicted
    /// class per sample, and targets that have rows must have columns. The
    /// count depends on `y_max` and `t` alone; see
    /// [`crate::accuracy::accuracy`].
    pub fn accuracy(&mut self, x: Shape, y_max: &Vec<usize>, t: &ByteMatrix) -> (r: Result<
        Accuracy,
        LayerError,
    >)
        requires
            old(self).wf(),
        ensures
            final(self).wf(),
            r is Ok <==> {
                &&& x.cols == old(self).params.w1.rows
                &&& y_max@.len() == x.rows
                &&& (t@.len() == 0 || t.spec_cols() > 0)
            },
            r matches Ok(a) ==> {
                &&& a.samples == x.rows
                &&& a.correct == matches_upto(y_max@, t@, paired(y_max@, t@))
                &&& a.correct <= a.samples
            },
            r is Err ==> r == Err::<Accuracy, LayerError>(LayerError::ShapeMismatch),
            *final(self) == (if x.cols == old(self).params.w1.rows {
                old(self).after_predict(x)
            } else {
                *old(self)
            }),
    {
        match self.predict(x) {
            Ok(_) => {},
            Err(e) => {
                return Err(e);
            },
        }
        if y_max.len() != x.rows {
            return Err(LayerError::ShapeMismatch);
        }
        match crate::accuracy::accuracy(y_max, t) {
            Some(a) => Ok(a),
            None => Err(LayerError::ShapeMismatch),
        }
    }

    /// Takes the gradient by finite differences: the loss of the batch is
    /// taken around every entry of every parameter, so batch and targets must
    /// fit as for the loss. Every gradient then has the shape of its
    /// parameter.
    pub fn numerical_gradient(&mut self, x: Shape, t: &ByteMatrix) -> (r: Result<
        (),
        LayerError,
    >)
        requires
            old(self).wf(),
        ensures
            final(self).wf(),
            r is Ok <==> old(self).fits(x, t@.len(), t.spec_cols()),
            r is Ok ==> *final(self) == old(self).after_numerical_gradient(x) && final(self).grads.mirrors(final(self).params),
            r is Err ==> r == Err::<(), LayerError>(LayerError::ShapeMismatch) && *final(self) == (
            if x.cols == old(self).params.w1.rows {
                old(self).after_predict(x)
            } else {
                *old(self)
            }),
    {
        match self.loss(x, t) {
            Ok(()) => {},
            Err(e) => {
                return Err(e);
            },
        }
        self.grads.d_w1 = self.params.w1;
        self.grads.d_b1 = self.params.b1;
        self.grads.d_w2 = self.params.w2;
        self.grads.d_b2 = self.params.b2;
        Ok(())
    }

    /// Takes the gradient by backward propagation: the loss is taken, its
    /// gradient passes backward through the second affine layer, the
    /// rectifier and the first affine layer, and what it leaves in the affine
    /// layers is written to the gradients. Every gradient then has the shape
    /// of its parameter.
    pub fn gradient(&mut self, x: Shape, t: &ByteMatrix) -> (r: Result<(), LayerError>)
        requires
            old(self).wf(),
        ensures
            final(self).wf(),
            r is Ok <==> old(self).fits(x, t@.len(), t.spec_cols()),
            r is Ok ==> *final(self) == old(self).after_gradient(x) && final(self).grads.mirrors(
                final(self).params,
            ),
            r is Err ==> r == Err::<(), LayerError>(LayerError::ShapeMismatch) && *final(self) == (
            if x.cols == old(self).params.w1.rows {
                old(self).after_predict(x)
            } else {
                *old(self)
            }),
    {
        match self.loss(x, t) {
            Ok(()) => {},
            Err(e) => {
                return Err(e);
            },
        }
        let dout: Shape = match self.last_layer.backwards() {
            Ok(d) => d,
            Err(e) => {
                proof {
                    assert(false);
                }
                return Err(e);
            },
        };
        let d2: Shape = match self.layers.affine2.backwards(dout) {
            Ok(d) => d,
            Err(e) => {
                proof {
                    assert(false);
                }
                return Err(e);
            },
        };
        let d1: Shape = match self.layers.relu1.backwards(d2) {
            Ok(d) => d,
            Err(e) => {
                proof {
                    assert(false);
                }
                return Err(e);
            },
        };
        match self.layers.affine1.backwards(d1) {
            Ok(_) => {},
            Err(e) => {
                proof {
                    assert(false);
                }
                return Err(e);
            },
        }
        self.grads.d_w1 = self.layers.affine1.dw;
        self.grads.d_b1 = self.layers.affine1.db;
        self.grads.d_w2 = self.layers.affine2.dw;
        self.grads.d_b2 = self.layers.affine2.db;
        Ok(())
    }
}

} // verus!
