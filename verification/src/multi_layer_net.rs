//! A multi-layer network: affine layers with an activation between them.

use vstd::prelude::*;
use crate::accuracy::{matches_upto, paired, Accuracy};
use crate::config::{activation_kind, activation_named, weight_init_kind, weight_init_named};
use crate::config::{scale_of, weight_scale, Activation, ConfigError, WeightInit, WeightScale};
use crate::grads::{Grads, GradsView};
use crate::layers::softmax_with_loss_layer::SoftmaxWithLoss;
use crate::layers::{Layer, LayerError};
use crate::params::{Params, ParamsView};
use crate::pipeline::{accepted_upto, backward_all, backwarded, forward_all, forwarded};
use crate::pipeline::{input_at, lemma_backward_answers_forward};
use crate::shape::Shape;
use crate::byte_matrix::ByteMatrix;
use crate::wiring::{all_size_list, all_sizes, build_layers, planned_count, planned_layer, wired};
use crate::wiring::{affine_position, lemma_affine_positions};
use crate::wiring::{lemma_forwarded_none, lemma_wired_forward, lemma_wired_preserved};

verus! {

/// A feed-forward network: for every hidden size an affine layer and an
/// activation, then an affine layer to the output, then softmax with loss.
#[derive(Debug)]
pub struct MultiLayer {
    pub input_size: usize,
    pub hidden_size_list: Vec<usize>,
    pub output_size: usize,
    pub hidden_layer_num: usize,
    pub params: Params,
    pub grads: Grads,
    pub layers: Vec<Layer>,
    pub last_layer: SoftmaxWithLoss,
    pub weight_init: WeightInit,
    pub activation: Activation,
}

/// What a network holds.
pub struct NetView {
    pub input_size: usize,
    pub hidden_size_list: Seq<usize>,
    pub output_size: usize,
    pub hidden_layer_num: usize,
    pub params: ParamsView,
    pub grads: GradsView,
    pub layers: Seq<Layer>,
    pub last_layer: SoftmaxWithLoss,
    pub weight_init: WeightInit,
    pub activation: Activation,
}

impl View for MultiLayer {
    type V = NetView;

    open spec fn view(&self) -> NetView {
        NetView {
            input_size: self.input_size,
            hidden_size_list: self.hidden_size_list@,
            output_size: self.output_size,
            hidden_layer_num: self.hidden_layer_num,
            params: self.params@,
            grads: self.grads@,
            layers: self.layers@,
            last_layer: self.last_layer,
            weight_init: self.weight_init,
            activation: self.activation,
        }
    }
}

/// The parameters of a network of the given sizes: weight `i` leads from size
/// `i` to size `i + 1`, and bias `i` has size `i + 1`.
pub open spec fn planned_params(sizes: Seq<usize>) -> ParamsView {
    let n = (sizes.len() - 1) as nat;
    ParamsView {
        weight_list: Seq::new(n, |i: int| Shape { rows: sizes[i], cols: sizes[i + 1] }),
        bias_list: Seq::new(n, |i: int| sizes[i + 1]),
    }
}

/// A gradient store of `n` entries per list, all of them empty.
pub open spec fn empty_grads(n: nat) -> GradsView {
    GradsView {
        d_weight_list: Seq::new(n, |i: int| Shape { rows: 0, cols: 0 }),
        d_bias_list: Seq::new(n, |i: int| 0usize),
    }
}

/// The network as it is built from its configuration.
pub open spec fn initial(
    input_size: usize,
    hidden: Seq<usize>,
    output_size: usize,
    weight_init: WeightInit,
    activation: Activation,
) -> NetView {
    let sizes = all_sizes(input_size, hidden, output_size);
    NetView {
        input_size,
        hidden_size_list: hidden,
        output_size,
        hidden_layer_num: hidden.len() as usize,
        params: planned_params(sizes),
        grads: empty_grads((hidden.len() + 1) as nat),
        layers: Seq::new(
            planned_count(hidden.len() as int, false) as nat,
            |k: int| planned_layer(sizes, activation, false, k),
        ),
        last_layer: SoftmaxWithLoss { y: None, t: None },
        weight_init,
        activation,
    }
}

impl NetView {
    /// The sizes from input to output.
    pub open spec fn sizes(self) -> Seq<usize> {
        all_sizes(self.input_size, self.hidden_size_list, self.output_size)
    }

    /// The network is wired as its sizes say, its parameters have the shapes
    /// that the wiring asks for, and there is a gradient for every parameter.
    pub open spec fn wf(self) -> bool {
        &&& self.hidden_layer_num == self.hidden_size_list.len()
        &&& wired(self.layers, self.sizes(), self.activation, false)
        &&& self.params == planned_params(self.sizes())
        &&& self.grads.d_weight_list.len() == self.hidden_layer_num + 1
        &&& self.grads.d_bias_list.len() == self.hidden_layer_num + 1
        &&& self.last_layer.wf()
    }

    /// The shape in which a batch of shape `x` leaves the network.
    pub open spec fn output(self, x: Shape) -> Shape {
        Shape { rows: x.rows, cols: self.output_size }
    }

    /// Whether a batch of shape `x` can be held against targets of `rows` by
    /// `cols` entries: the batch is as wide as the input, and there is one
    /// target row per sample and one target column per output.
    pub open spec fn fits(self, x: Shape, rows: nat, cols: nat) -> bool {
        x.cols == self.input_size && rows == x.rows && cols == self.output_size
    }

    /// The network after a batch of shape `x` has passed forward through its
    /// layers.
    pub open spec fn after_predict(self, x: Shape) -> NetView {
        NetView { layers: forwarded(self.layers, x, true, self.layers.len() as int), ..self }
    }

    /// The network after the loss of a batch of shape `x` has been taken.
    pub open spec fn after_loss(self, x: Shape) -> NetView {
        NetView {
            last_layer: self.last_layer.after_forwards(self.output(x)),
            ..self.after_predict(x)
        }
    }

    /// The network after the gradient of the loss of a batch of shape `x` has
    /// been taken: the batch has passed forward, the gradient of the loss has
    /// passed backward, and the gradient store mirrors the parameter store.
    pub open spec fn after_gradient(self, x: Shape) -> NetView {
        let lost = self.after_loss(x);
        NetView {
            layers: backwarded(lost.layers, self.output(x), 0),
            grads: GradsView {
                d_weight_list: self.params.weight_list,
                d_bias_list: self.params.bias_list,
            },
            ..lost
        }
    }
}

/// The parameter store of a network of the given sizes, under the weight
/// scheme that `weight_init_std` names. Every weight and bias gets its shape.
pub fn init_weight(
    input_size: usize,
    hidden_size_list: &Vec<usize>,
    output_size: usize,
    weight_init_std: &str,
) -> (r: Result<Params, ConfigError>)
    ensures
        r is Ok <==> weight_init_named(weight_init_std@) is Some,
        r matches Ok(p) ==> p@ == planned_params(
            all_sizes(input_size, hidden_size_list@, output_size),
        ),
        r matches Err(e) ==> e == ConfigError::UnknownWeightInit,
{
    if weight_init_kind(weight_init_std).is_err() {
        return Err(ConfigError::UnknownWeightInit);
    }
    let all_size_list: Vec<usize> = all_size_list(input_size, hidden_size_list, output_size);
    let ghost sizes = all_size_list@;
    let n: usize = all_size_list.len() - 1;
    let mut weight_list: Vec<Shape> = Vec::new();
    let mut bias_list: Vec<usize> = Vec::new();
    let mut idx: usize = 0;
    while idx < n
        invariant
            idx <= n,
            n == sizes.len() - 1,
            sizes == all_size_list@,
            weight_list@ =~= planned_params(sizes).weight_list.take(idx as int),
            bias_list@ =~= planned_params(sizes).bias_list.take(idx as int),
        decreases n - idx,
    {
        let n_in: usize = all_size_list[idx];
        let n_out: usize = all_size_list[idx + 1];
        weight_list.push(Shape { rows: n_in, cols: n_out });
        bias_list.push(n_out);
        idx += 1;
    }
    let params = Params { weight_list, bias_list };
    assert(params@.weight_list =~= planned_params(sizes).weight_list);
    assert(params@.bias_list =~= planned_params(sizes).bias_list);
    Ok(params)
}

impl MultiLayer {
    /// Builds a network from its configuration.
    ///
    /// `weight_init_std` names the weight scheme and `activation` the
    /// activation; a name that is not known refuses the construction, the
    /// weight scheme's first. The number of layers must be addressable.
    pub fn new(
        input_size: usize,
        hidden_size_list: Vec<usize>,
        output_size: usize,
        weight_init_std: &str,
        activation: &str,
    ) -> (r: Result<Self, ConfigError>)
        requires
            planned_count(hidden_size_list@.len() as int, false) <= usize::MAX,
        ensures
            r is Ok <==> weight_init_named(weight_init_std@) is Some && activation_named(
                activation@,
            ) is Some,
            r matches Ok(net) ==> net@.wf() && net@ == initial(
                input_size,
                hidden_size_list@,
                output_size,
                weight_init_named(weight_init_std@)->0,
                activation_named(activation@)->0,
            ),
            r matches Err(e) ==> e == (if weight_init_named(weight_init_std@) is None {
                ConfigError::UnknownWeightInit
            } else {
                ConfigError::UnknownActivation
            }),
    {
        let weight_init: WeightInit = match weight_init_kind(weight_init_std) {
            Ok(w) => w,
            Err(e) => {
                return Err(e);
            },
        };
        let act: Activation = match activation_kind(activation) {
            Ok(a) => a,
            Err(e) => {
                return Err(e);
            },
        };
        let params: Params = match init_weight(
            input_size,
            &hidden_size_list,
            output_size,
            weight_init_std,
        ) {
            Ok(p) => p,
            Err(e) => {
                return Err(e);
            },
        };
        let sizes: Vec<usize> = all_size_list(input_size, &hidden_size_list, output_size);
        let layers: Vec<Layer> = build_layers(&sizes, act, false);
        let hidden_layer_num: usize = hidden_size_list.len();
        let grads: Grads = Grads::new(hidden_layer_num + 1);
        let net = Self {
            input_size,
            output_size,
            hidden_layer_num,
            hidden_size_list,
            last_layer: SoftmaxWithLoss::new(),
            layers,
            params,
            grads,
            weight_init,
            activation: act,
        };
        assert(net@ == initial(input_size, net.hidden_size_list@, output_size, weight_init, act));
        Ok(net)
    }

    /// Passes a batch of shape `x` forward through every layer before the
    /// terminal one.
    ///
    /// A batch as wide as the input size leaves with as many rows and the
    /// output width, and every layer has seen it. Any other batch is refused,
    /// and the network stays as it was.
    pub fn predict(&mut self, x: Shape) -> (r: Result<Shape, LayerError>)
        requires
            old(self)@.wf(),
        ensures
            final(self)@.wf(),
            r is Ok <==> x.cols == old(self).input_size,
            r is Ok ==> r == Ok::<Shape, LayerError>(old(self)@.output(x)) && final(self)@ == old(self)@.after_predict(x),
            r is Err ==> r == Err::<Shape, LayerError>(LayerError::ShapeMismatch) && final(self)@
                == old(self)@,
    {
        let ghost before = self.layers@;
        let ghost sizes = self@.sizes();
        proof {
            lemma_wired_forward(before, sizes, self.activation, false, x);
        }
        let r = forward_all(&mut self.layers, x, true);
        proof {
            if r is Err {
                let n = choose|n: int|
                    {
                        &&& 0 <= n < before.len()
                        &&& accepted_upto(before, x, n)
                        &&& !(#[trigger] before[n]).accepts(input_at(before, x, n))
                        &&& self.layers@ == forwarded(before, x, true, n)
                    };
                if n > 0 {
                    assert(before[0].accepts(input_at(before, x, 0)));
                    assert(false);
                }
                lemma_forwarded_none(before, x, true);
            } else {
                assert forall|k: int| 0 <= k < self.layers@.len() implies (
                #[trigger] self.layers@[k]).fresh() == before[k].fresh() by {}
                lemma_wired_preserved(before, self.layers@, sizes, self.activation, false);
            }
        }
        r
    }

    /// Takes the loss of a batch of shape `x` against the targets `t`: the
    /// batch passes forward, and the terminal layer holds the outcome against
    /// the targets.
    ///
    /// The batch must be as wide as the input size, and the targets must have
    /// one row per sample and one column per output. A batch of another width
    /// is refused before any layer has seen it; targets of another shape are
    /// refused after the batch has passed through the layers.
    pub fn loss(&mut self, x: Shape, t: &ByteMatrix) -> (r: Result<(), LayerError>)
        requires
            old(self)@.wf(),
        ensures
            final(self)@.wf(),
            r is Ok <==> old(self)@.fits(x, t@.len(), t.spec_cols()),
            r is Ok ==> final(self)@ == old(self)@.after_loss(x),
            r is Err ==> r == Err::<(), LayerError>(LayerError::ShapeMismatch) && final(self)@
                == (if x.cols == old(self).input_size {
                old(self)@.after_predict(x)
            } else {
                old(self)@
            }),
    {
        let y: Shape = match self.predict(x) {
            Ok(y) => y,
            Err(e) => {
                return Err(e);
            },
        };
        self.last_layer.forwards(y, t)
    }

    /// Takes the gradient of the loss of a batch of shape `x` against the
    /// targets `t`: the loss is taken, its gradient passes backward through the
    /// layers from the last to the first, and what it leaves in the affine
    /// layers is written to the gradient store.
    ///
    /// Batch and targets must fit as for the loss, and are refused in the same
    /// way where they do not. After a gradient has been taken, every entry of
    /// the gradient store has the shape of its parameter.
    pub fn gradient(&mut self, x: Shape, t: &ByteMatrix) -> (r: Result<(), LayerError>)
        requires
            old(self)@.wf(),
        ensures
            final(self)@.wf(),
            r is Ok <==> old(self)@.fits(x, t@.len(), t.spec_cols()),
            r is Ok ==> final(self)@ == old(self)@.after_gradient(x) && final(self)@.grads.mirrors(final(self)@.params),
            r is Err ==> r == Err::<(), LayerError>(LayerError::ShapeMismatch) && final(self)@
                == (if x.cols == old(self).input_size {
                old(self)@.after_predict(x)
            } else {
                old(self)@
            }),
    {
        let ghost start = self@;
        let ghost sizes = self@.sizes();
        proof {
            lemma_wired_forward(start.layers, sizes, self.activation, false, x);
        }
        match self.loss(x, t) {
            Ok(()) => {},
            Err(e) => {
                return Err(e);
            },
        }
        let ghost lost = self@;
        let dout: Shape = match self.last_layer.backwards() {
            Ok(d) => d,
            Err(e) => {
                proof {
                    assert(false);
                }
                return Err(e);
            },
        };
        proof {
            lemma_backward_answers_forward(start.layers, x);
        }
        match backward_all(&mut self.layers, dout) {
            Ok(_) => {},
            Err(e) => {
                proof {
                    assert(false);
                }
                return Err(e);
            },
        }
        let ghost done = self.layers@;
        proof {
            assert forall|k: int| 0 <= k < done.len() implies (#[trigger] done[k]).fresh()
                == lost.layers[k].fresh() by {}
            lemma_wired_preserved(lost.layers, done, sizes, self.activation, false);
        }
        let len: usize = self.layers.len();
        assert(len == 2 * self.hidden_layer_num + 1);
        let count: usize = self.hidden_layer_num + 1;
        let mut idx: usize = 0;
        while idx < count
            invariant
                idx <= count,
                count == self.hidden_layer_num + 1,
                sizes == start.sizes(),
                sizes == self@.sizes(),
                self@.wf(),
                self.layers@ == done,
                done.len() == 2 * self.hidden_layer_num + 1,
                done.len() <= usize::MAX,
                forall|k: int|
                    0 <= k < done.len() ==> (#[trigger] done[k]).gradients_match_parameters(),
                self@ == (NetView { grads: self@.grads, layers: done, ..lost }),
                forall|i: int|
                    0 <= i < idx ==> #[trigger] self.grads.d_weight_list@[i]
                        == self.params.weight_list@[i],
                forall|i: int|
                    0 <= i < idx ==> #[trigger] self.grads.d_bias_list@[i]
                        == self.params.bias_list@[i],
            decreases count - idx,
        {
            let at: usize = 2 * idx;
            proof {
                assert(done[at as int].fresh() == planned_layer(sizes, self.activation, false, at as int));
                assert(done[at as int].gradients_match_parameters());
            }
            match self.layers[at] {
                Layer::Affine(affine) => {
                    self.grads.d_weight_list.set(idx, affine.dw);
                    self.grads.d_bias_list.set(idx, affine.db);
                },
                _ => {
                    proof {
                        assert(false);
                    }
                },
            }
            idx += 1;
        }
        proof {
            assert(self@.grads.d_weight_list =~= self@.params.weight_list);
            assert(self@.grads.d_bias_list =~= self@.params.bias_list);
        }
        Ok(())
    }

    /// The scale of every weight at its creation: what the network's weight
    /// scheme gives a weight with as many inputs as the weight has rows.
    pub fn weight_scales(&self) -> (v: Vec<WeightScale>)
        ensures
            v@.len() == self.params.weight_list@.len(),
            forall|i: int|
                0 <= i < v@.len() ==> #[trigger] v@[i] == scale_of(
                    self.weight_init,
                    self.params.weight_list@[i].rows,
                ),
    {
        let n: usize = self.params.weight_list.len();
        let mut v: Vec<WeightScale> = Vec::new();
        let mut i: usize = 0;
        while i < n
            invariant
                i <= n,
                n == self.params.weight_list@.len(),
                v@.len() == i,
                forall|k: int|
                    0 <= k < i ==> #[trigger] v@[k] == scale_of(
                        self.weight_init,
                        self.params.weight_list@[k].rows,
                    ),
            decreases n - i,
        {
            v.push(weight_scale(self.weight_init, self.params.weight_list[i].rows));
            i += 1;
        }
        v
    }

    /// Takes the accuracy of a batch of shape `x`: the batch passes forward
    /// and the samples are counted whose predicted class `y_max[i]`, the
    /// column of the largest entry of row `i` of the outcome, is the class that
    /// the target row `t[i]` names.
    ///
    /// The batch must be as wide as the input, there must be one predicted
    /// class per sample, and targets that have rows must have columns. The
    /// count depends on `y_max` and `t` alone; see
    /// [`crate::accuracy::accuracy`].
    pub fn accuracy(&mut self, x: Shape, y_max: &Vec<usize>, t: &ByteMatrix) -> (r: Result<
        Accuracy,
        LayerError,
    >)
        requires
            old(self)@.wf(),
        ensures
            final(self)@.wf(),
            r is Ok <==> {
                &&& x.cols == old(self).input_size
                &&& y_max@.len() == x.rows
                &&& (t@.len() == 0 || t.spec_cols() > 0)
            },
            r matches Ok(a) ==> {
                &&& a.samples == x.rows
                &&& a.correct == matches_upto(y_max@, t@, paired(y_max@, t@))
                &&& a.correct <= a.samples
            },
            r is Err ==> r == Err::<Accuracy, LayerError>(LayerError::ShapeMismatch),
            final(self)@ == (if x.cols == old(self).input_size {
                old(self)@.after_predict(x)
            } else {
                old(self)@
            }),
    {
        match self.predict(x) {
            Ok(_) => {},
            Err(e) => {
                return Err(e);
            },
        }
        if y_max.len() != x.rows {
            return Err(LayerError::ShapeMismatch);
        }
        match crate::accuracy::accuracy(y_max, t) {
            Some(a) => Ok(a),
            None => Err(LayerError::ShapeMismatch),
        }
    }
}

/// A network has one weight and one bias per affine layer, one more than it
/// has hidden sizes: affine layer `i` stands at position `2 * i`, and its
/// weight and bias have the shapes that the parameter store holds for them.
pub proof fn lemma_one_weight_per_affine_layer(net: NetView, i: int)
    requires
        net.wf(),
        0 <= i <= net.hidden_layer_num,
    ensures
        net.params.weight_list.len() == net.hidden_layer_num + 1,
        net.params.bias_list.len() == net.hidden_layer_num + 1,
        net.layers.len() == 2 * net.hidden_layer_num + 1,
        net.layers[2 * i] matches Layer::Affine(a) && a.w == net.params.weight_list[i] && a.b
            == net.params.bias_list[i],
{
    lemma_affine_positions(net.layers, net.sizes(), net.activation, false, 2 * i);
    assert(2 * i == affine_position(i, false));
}

/// A layer that does not stand at a position `2 * i` is not affine.
pub proof fn lemma_no_other_affine_layer(net: NetView, k: int)
    requires
        net.wf(),
        0 <= k < net.layers.len(),
        k % 2 != 0,
    ensures
        !(net.layers[k] is Affine),
{
    lemma_affine_positions(net.layers, net.sizes(), net.activation, false, k);
    if net.layers[k] is Affine {
        let i = choose|i: int| k == #[trigger] affine_position(i, false);
        assert(k == 2 * i);
    }
}

/// The weights of a network chain from the input to the output: the first
/// has as many rows as the input is wide, each has as many columns as the
/// next has rows, and the last has as many columns as there are outputs.
pub proof fn lemma_weights_chain(net: NetView, i: int)
    requires
        net.wf(),
        0 <= i < net.hidden_layer_num,
    ensures
        net.params.weight_list[0].rows == net.input_size,
        net.params.weight_list[i].cols == net.params.weight_list[i + 1].rows,
        net.params.weight_list[i].cols == net.hidden_size_list[i],
        net.params.weight_list[net.hidden_layer_num as int].cols == net.output_size,
        net.params.bias_list[i] == net.params.weight_list[i].cols,
{
}

} // verus!
