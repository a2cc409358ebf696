//! How the layers of a multi-layer network are wired: an affine layer per
//! pair of neighbouring sizes, and after each but the last an optional batch
//! normalisation and an activation.

use vstd::prelude::*;
use crate::config::{fresh_activation, new_activation, Activation};
use crate::layers::affine_layer::Affine;
use crate::layers::batch_normalisation_layer::BatchNormalisationLayer;
use crate::layers::Layer;
use crate::pipeline::{accepted_upto, forwarded, input_at};
use crate::shape::Shape;

verus! {

/// The sizes of a network from input to output: the input size, the hidden
/// sizes in order, the output size.
pub open spec fn all_sizes(input_size: usize, hidden: Seq<usize>, output_size: usize) -> Seq<
    usize,
> {
    seq![input_size] + hidden + seq![output_size]
}

/// A fresh affine layer from `rows` inputs to `cols` outputs.
pub open spec fn fresh_affine(rows: usize, cols: usize) -> Layer {
    Layer::Affine(
        Affine { w: Shape { rows, cols }, b: cols, x: None, dw: Shape { rows: 0, cols: 0 }, db: 0 },
    )
}

/// A fresh batch normalisation over `features` features.
pub open spec fn fresh_batch_norm(features: usize) -> Layer {
    Layer::BatchNormalisation(
        BatchNormalisationLayer {
            gamma: features,
            beta: features,
            running_mean: None,
            running_var: None,
            batch_size: 0,
            xc: None,
            xn: None,
            std: None,
            dgamma: 0,
            dbeta: 0,
        },
    )
}

/// The number of layers for `hidden` hidden sizes.
pub open spec fn planned_count(hidden: int, batch_norm: bool) -> int {
    if batch_norm {
        3 * hidden + 1
    } else {
        2 * hidden + 1
    }
}

/// The position of affine layer `i` among the layers.
pub open spec fn affine_position(i: int, batch_norm: bool) -> int {
    if batch_norm {
        3 * i
    } else {
        2 * i
    }
}

/// The entry of the parameter store that the layer at position `k` uses:
/// the number of the affine layer at or before it.
pub open spec fn spec_parameter_index(k: int, batch_norm: bool) -> int {
    if batch_norm {
        k / 3
    } else {
        k / 2
    }
}

/// The entry of the parameter store that the layer at position `k` uses.
pub fn parameter_index(k: usize, batch_norm: bool) -> (i: usize)
    ensures
        i == spec_parameter_index(k as int, batch_norm),
{
    if batch_norm {
        k / 3
    } else {
        k / 2
    }
}

/// The layer that stands at position `k`, as it is built.
pub open spec fn planned_layer(sizes: Seq<usize>, act: Activation, batch_norm: bool, k: int) -> Layer {
    let i = spec_parameter_index(k, batch_norm);
    let r = if batch_norm {
        k % 3
    } else {
        k % 2
    };
    if r == 0 {
        fresh_affine(sizes[i], sizes[i + 1])
    } else if batch_norm && r == 1 {
        fresh_batch_norm(sizes[i + 1])
    } else {
        fresh_activation(act)
    }
}

/// The width in which a batch arrives at position `k`.
pub open spec fn width_at(sizes: Seq<usize>, batch_norm: bool, k: int) -> usize {
    if batch_norm {
        sizes[(k + 2) / 3]
    } else {
        sizes[(k + 1) / 2]
    }
}

/// The layers are those of a network of the given sizes: each is well formed
/// and has the parameters of the layer planned for its position.
pub open spec fn wired(layers: Seq<Layer>, sizes: Seq<usize>, act: Activation, batch_norm: bool) -> bool {
    &&& sizes.len() >= 2
    &&& layers.len() == planned_count(sizes.len() - 2, batch_norm)
    &&& forall|k: int|
        0 <= k < layers.len() ==> (#[trigger] layers[k]).wf() && layers[k].fresh()
            == planned_layer(sizes, act, batch_norm, k)
}

/// The sizes of a network from input to output.
pub fn all_size_list(input_size: usize, hidden_size_list: &Vec<usize>, output_size: usize) -> (v:
    Vec<usize>)
    ensures
        v@ == all_sizes(input_size, hidden_size_list@, output_size),
{
    let mut v: Vec<usize> = Vec::new();
    v.push(input_size);
    let n: usize = hidden_size_list.len();
    let mut i: usize = 0;
    while i < n
        invariant
            i <= n,
            n == hidden_size_list@.len(),
            v@ =~= seq![input_size] + hidden_size_list@.take(i as int),
        decreases n - i,
    {
        v.push(hidden_size_list[i]);
        i += 1;
    }
    assert(hidden_size_list@.take(n as int) =~= hidden_size_list@);
    v.push(output_size);
    assert(v@ =~= all_sizes(input_size, hidden_size_list@, output_size));
    v
}

/// Builds the layers of a network of the given sizes: for every hidden size
/// an affine layer, a batch normalisation if asked for, and an activation;
/// then the affine layer to the output.
pub fn build_layers(sizes: &Vec<usize>, act: Activation, batch_norm: bool) -> (layers: Vec<Layer>)
    requires
        sizes@.len() >= 2,
        planned_count(sizes@.len() - 2, batch_norm) <= usize::MAX,
    ensures
        layers@ == Seq::new(
            planned_count(sizes@.len() - 2, batch_norm) as nat,
            |k: int| planned_layer(sizes@, act, batch_norm, k),
        ),
        wired(layers@, sizes@, act, batch_norm),
{
    let hidden: usize = sizes.len() - 2;
    let mut layers: Vec<Layer> = Vec::new();
    let mut idx: usize = 0;
    while idx < hidden
        invariant
            idx <= hidden,
            hidden == sizes@.len() - 2,
            planned_count(hidden as int, batch_norm) <= usize::MAX,
            layers@.len() == affine_position(idx as int, batch_norm),
            forall|k: int|
                0 <= k < layers@.len() ==> #[trigger] layers@[k] == planned_layer(
                    sizes@,
                    act,
                    batch_norm,
                    k,
                ),
        decreases hidden - idx,
    {
        let ghost base = layers@.len() as int;
        let n_in: usize = sizes[idx];
        let n_out: usize = sizes[idx + 1];
        layers.push(Layer::Affine(Affine::new(Shape { rows: n_in, cols: n_out }, n_out)));
        assert(layers@[base] == planned_layer(sizes@, act, batch_norm, base));
        if batch_norm {
            layers.push(Layer::BatchNormalisation(BatchNormalisationLayer::new(n_out, n_out)));
            assert(layers@[base + 1] == planned_layer(sizes@, act, batch_norm, base + 1));
        }
        let ghost at = layers@.len() as int;
        layers.push(new_activation(act));
        assert(layers@[at] == planned_layer(sizes@, act, batch_norm, at));
        idx += 1;
    }
    let ghost base = layers@.len() as int;
    let n_in: usize = sizes[hidden];
    let n_out: usize = sizes[hidden + 1];
    layers.push(Layer::Affine(Affine::new(Shape { rows: n_in, cols: n_out }, n_out)));
    assert(layers@[base] == planned_layer(sizes@, act, batch_norm, base));
    assert(layers@ =~= Seq::new(
        planned_count(sizes@.len() - 2, batch_norm) as nat,
        |k: int| planned_layer(sizes@, act, batch_norm, k),
    ));
    assert forall|k: int| 0 <= k < layers@.len() implies (#[trigger] layers@[k]).wf()
        && layers@[k].fresh() == planned_layer(sizes@, act, batch_norm, k) by {
        lemma_planned_is_fresh(sizes@, act, batch_norm, k);
    }
    layers
}

/// A planned layer is well formed and bears no trace of a pass.
pub proof fn lemma_planned_is_fresh(sizes: Seq<usize>, act: Activation, batch_norm: bool, k: int)
    ensures
        planned_layer(sizes, act, batch_norm, k).wf(),
        planned_layer(sizes, act, batch_norm, k).fresh() == planned_layer(
            sizes,
            act,
            batch_norm,
            k,
        ),
{
}

/// The layer planned for position `k` accepts a batch of the width planned
/// for that position, and hands it on with the width planned for the next.
pub proof fn lemma_planned_step(
    l: Layer,
    sizes: Seq<usize>,
    act: Activation,
    batch_norm: bool,
    k: int,
    rows: usize,
)
    requires
        0 <= k,
        l.wf(),
        l.fresh() == planned_layer(sizes, act, batch_norm, k),
    ensures
        l.accepts(Shape { rows, cols: width_at(sizes, batch_norm, k) }),
        l.output(Shape { rows, cols: width_at(sizes, batch_norm, k) }) == (Shape {
            rows,
            cols: width_at(sizes, batch_norm, k + 1),
        }),
{
    if batch_norm {
        let i = k / 3;
        let r = k % 3;
        assert(k == 3 * i + r && 0 <= r < 3);
        assert((k + 2) / 3 == (if r == 0 { i } else { i + 1 }));
        assert((k + 3) / 3 == i + 1);
    } else {
        let i = k / 2;
        let r = k % 2;
        assert(k == 2 * i + r && 0 <= r < 2);
        assert((k + 1) / 2 == (if r == 0 { i } else { i + 1 }));
        assert((k + 2) / 2 == i + 1);
    }
}

/// In a wired network, a batch as wide as the input size is accepted by each
/// of the first `k` layers, and arrives at position `k` with the width planned
/// for it.
pub proof fn lemma_wired_input(
    layers: Seq<Layer>,
    sizes: Seq<usize>,
    act: Activation,
    batch_norm: bool,
    x: Shape,
    k: int,
)
    requires
        wired(layers, sizes, act, batch_norm),
        x.cols == sizes[0],
        0 <= k <= layers.len(),
    ensures
        accepted_upto(layers, x, k),
        input_at(layers, x, k) == (Shape { rows: x.rows, cols: width_at(sizes, batch_norm, k) }),
    decreases k,
{
    if k > 0 {
        lemma_wired_input(layers, sizes, act, batch_norm, x, k - 1);
        let l = layers[k - 1];
        let arrives = input_at(layers, x, k - 1);
        lemma_planned_step(l, sizes, act, batch_norm, k - 1, x.rows);
        assert(l.accepts(arrives));
        assert(input_at(layers, x, k) == l.output(arrives));
        assert forall|j: int| 0 <= j < k implies layers[j].accepts(
            #[trigger] input_at(layers, x, j),
        ) by {
            if j < k - 1 {
                assert(accepted_upto(layers, x, k - 1));
            }
        }
    }
}

/// A wired network accepts a batch exactly if the batch is as wide as the
/// input size; the batch then leaves with as many rows and the output width.
pub proof fn lemma_wired_forward(
    layers: Seq<Layer>,
    sizes: Seq<usize>,
    act: Activation,
    batch_norm: bool,
    x: Shape,
)
    requires
        wired(layers, sizes, act, batch_norm),
    ensures
        accepted_upto(layers, x, layers.len() as int) <==> x.cols == sizes[0],
        x.cols == sizes[0] ==> input_at(layers, x, layers.len() as int) == (Shape {
            rows: x.rows,
            cols: sizes[sizes.len() - 1],
        }),
        x.cols != sizes[0] ==> !layers[0].accepts(x),
{
    assert(layers[0].wf() && layers[0].fresh() == planned_layer(sizes, act, batch_norm, 0));
    if x.cols == sizes[0] {
        lemma_wired_input(layers, sizes, act, batch_norm, x, layers.len() as int);
    } else {
        assert(input_at(layers, x, 0) == x);
        assert(!layers[0].accepts(input_at(layers, x, 0)));
    }
}

/// Passes leave the wiring as it is: layers that differ from wired ones only
/// by what passes have left in them are wired too.
pub proof fn lemma_wired_preserved(
    before: Seq<Layer>,
    after: Seq<Layer>,
    sizes: Seq<usize>,
    act: Activation,
    batch_norm: bool,
)
    requires
        wired(before, sizes, act, batch_norm),
        after.len() == before.len(),
        forall|k: int|
            0 <= k < after.len() ==> (#[trigger] after[k]).wf() && after[k].fresh()
                == before[k].fresh(),
    ensures
        wired(after, sizes, act, batch_norm),
{
    assert forall|k: int| 0 <= k < after.len() implies (#[trigger] after[k]).wf()
        && after[k].fresh() == planned_layer(sizes, act, batch_norm, k) by {
        assert(before[k].wf());
    }
}

/// In a wired network the affine layers stand at every second position, or
/// at every third where there is batch normalisation, and nowhere else; affine
/// layer `i` leads from size `i` to size `i + 1`.
pub proof fn lemma_affine_positions(
    layers: Seq<Layer>,
    sizes: Seq<usize>,
    act: Activation,
    batch_norm: bool,
    k: int,
)
    requires
        wired(layers, sizes, act, batch_norm),
        0 <= k < layers.len(),
    ensures
        layers[k] is Affine <==> exists|i: int| k == #[trigger] affine_position(i, batch_norm),
        forall|i: int|
            k == #[trigger] affine_position(i, batch_norm) ==> layers[k] == Layer::Affine(
                Affine { w: Shape { rows: sizes[i], cols: sizes[i + 1] }, b: sizes[i + 1], ..layers[k]->Affine_0 },
            ),
{
    assert(layers[k].wf() && layers[k].fresh() == planned_layer(sizes, act, batch_norm, k));
    if batch_norm {
        if k % 3 == 0 {
            assert(k == affine_position(k / 3, batch_norm));
        }
    } else {
        if k % 2 == 0 {
            assert(k == affine_position(k / 2, batch_norm));
        }
    }
}

/// A batch that the first layer refuses changes nothing.
pub proof fn lemma_forwarded_none(layers: Seq<Layer>, x: Shape, train_flg: bool)
    ensures
        forwarded(layers, x, train_flg, 0) == layers,
{
    assert(forwarded(layers, x, train_flg, 0) =~= layers);
}

} // verus!
