//! Ordered pipelines of layers: what a batch becomes on its way forward, and
//! what a gradient becomes on its way back.

use vstd::prelude::*;
use crate::layers::{Layer, LayerError};
use crate::shape::Shape;

verus! {

/// Every layer of the pipeline is well formed.
pub open spec fn all_wf(layers: Seq<Layer>) -> bool {
    forall|k: int| 0 <= k < layers.len() ==> (#[trigger] layers[k]).wf()
}

/// The shape in which a batch of shape `x` arrives at layer `k`, after the
/// layers before it. For `k` the number of layers, this is the shape in which
/// the batch leaves the pipeline.
pub open spec fn input_at(layers: Seq<Layer>, x: Shape, k: int) -> Shape
    decreases k,
{
    if k <= 0 {
        x
    } else {
        layers[k - 1].output(input_at(layers, x, k - 1))
    }
}

/// Each of the first `k` layers accepts the batch as it arrives there.
pub open spec fn accepted_upto(layers: Seq<Layer>, x: Shape, k: int) -> bool {
    forall|j: int| 0 <= j < k ==> layers[j].accepts(#[trigger] input_at(layers, x, j))
}

/// The pipeline after a batch of shape `x` has passed forward through its
/// first `n` layers.
pub open spec fn forwarded(layers: Seq<Layer>, x: Shape, train_flg: bool, n: int) -> Seq<Layer> {
    Seq::new(
        layers.len(),
        |k: int|
            if k < n {
                layers[k].after_forwards(input_at(layers, x, k), train_flg)
            } else {
                layers[k]
            },
    )
}

/// The shape in which a gradient that enters the pipeline from behind with
/// shape `dout` leaves layer `k` towards the front. For `k` the number of
/// layers, this is `dout` itself.
pub open spec fn grad_below(layers: Seq<Layer>, dout: Shape, k: int) -> Shape
    decreases layers.len() - k,
{
    if k >= layers.len() {
        dout
    } else {
        layers[k].input_gradient(grad_below(layers, dout, k + 1))
    }
}

/// Each layer from `k` on accepts the gradient as it arrives there from
/// behind, which is as it leaves the layer after it.
pub open spec fn gradients_accepted_from(layers: Seq<Layer>, dout: Shape, k: int) -> bool {
    forall|j: int|
        k < j <= layers.len() ==> layers[j - 1].accepts_gradient(
            #[trigger] grad_below(layers, dout, j),
        )
}

/// The pipeline after a gradient of shape `dout` has passed backward through
/// its layers from the last down to layer `n`.
pub open spec fn backwarded(layers: Seq<Layer>, dout: Shape, n: int) -> Seq<Layer> {
    Seq::new(
        layers.len(),
        |k: int|
            if k >= n {
                layers[k].after_backwards(grad_below(layers, dout, k + 1))
            } else {
                layers[k]
            },
    )
}

/// Passes a batch of shape `x` forward through the layers in order.
///
/// The pass succeeds if every layer accepts the batch as it arrives there,
/// and then returns the shape in which the batch leaves the last layer. It
/// stops at the first layer that refuses: the layers before it have seen the
/// batch, that layer and those behind it have not.
pub fn forward_all(layers: &mut Vec<Layer>, x: Shape, train_flg: bool) -> (r: Result<
    Shape,
    LayerError,
>)
    requires
        all_wf(old(layers)@),
    ensures
        all_wf(final(layers)@),
        final(layers)@.len() == old(layers)@.len(),
        r is Ok <==> accepted_upto(old(layers)@, x, old(layers)@.len() as int),
        r is Ok ==> r == Ok::<Shape, LayerError>(
            input_at(old(layers)@, x, old(layers)@.len() as int),
        ) && final(layers)@ == forwarded(old(layers)@, x, train_flg, old(layers)@.len() as int),
        r is Err ==> r == Err::<Shape, LayerError>(LayerError::ShapeMismatch) && exists|n: int|
            {
                &&& 0 <= n < old(layers)@.len()
                &&& accepted_upto(old(layers)@, x, n)
                &&& !(#[trigger] old(layers)@[n]).accepts(input_at(old(layers)@, x, n))
                &&& final(layers)@ == forwarded(old(layers)@, x, train_flg, n)
            },
{
    let ghost before = layers@;
    let n: usize = layers.len();
    let mut cur: Shape = x;
    let mut i: usize = 0;
    while i < n
        invariant
            i <= n,
            n == before.len(),
            before == old(layers)@,
            layers@.len() == n,
            all_wf(before),
            all_wf(layers@),
            cur == input_at(before, x, i as int),
            accepted_upto(before, x, i as int),
            layers@ =~= forwarded(before, x, train_flg, i as int),
        decreases n - i,
    {
        let mut l: Layer = layers[i];
        assert(l == before[i as int]);
        match l.forwards(cur, train_flg) {
            Ok(out) => {
                layers.set(i, l);
                cur = out;
            },
            Err(e) => {
                proof {
                    assert(!before[i as int].accepts(input_at(before, x, i as int)));
                    assert(layers@ == forwarded(before, x, train_flg, i as int));
                }
                return Err(e);
            },
        }
        i += 1;
    }
    assert(layers@ == forwarded(before, x, train_flg, n as int));
    Ok(cur)
}

/// Passes a gradient of shape `dout` backward through the layers, from the
/// last to the first.
///
/// The pass succeeds if every layer accepts the gradient as it arrives there,
/// and then returns the shape in which the gradient leaves the first layer. It
/// stops at the first layer that refuses, with that layer's error: the layers
/// behind it have seen the gradient, that layer and those before it have not.
pub fn backward_all(layers: &mut Vec<Layer>, dout: Shape) -> (r: Result<Shape, LayerError>)
    requires
        all_wf(old(layers)@),
    ensures
        all_wf(final(layers)@),
        final(layers)@.len() == old(layers)@.len(),
        r is Ok <==> gradients_accepted_from(old(layers)@, dout, 0),
        r is Ok ==> r == Ok::<Shape, LayerError>(grad_below(old(layers)@, dout, 0)) && final(layers)@ == backwarded(old(layers)@, dout, 0),
        r is Err ==> exists|n: int|
            {
                &&& 0 <= n < old(layers)@.len()
                &&& gradients_accepted_from(old(layers)@, dout, n + 1)
                &&& !(#[trigger] old(layers)@[n]).accepts_gradient(
                    grad_below(old(layers)@, dout, n + 1),
                )
                &&& r == Err::<Shape, LayerError>(old(layers)@[n].gradient_error())
                &&& final(layers)@ == backwarded(old(layers)@, dout, n + 1)
            },
{
    let ghost before = layers@;
    let n: usize = layers.len();
    let mut cur: Shape = dout;
    let mut i: usize = n;
    while i > 0
        invariant
            i <= n,
            n == before.len(),
            before == old(layers)@,
            layers@.len() == n,
            all_wf(before),
            all_wf(layers@),
            cur == grad_below(before, dout, i as int),
            gradients_accepted_from(before, dout, i as int),
            layers@ =~= backwarded(before, dout, i as int),
        decreases i,
    {
        i -= 1;
        let mut l: Layer = layers[i];
        assert(l == before[i as int]);
        match l.backwards(cur) {
            Ok(dx) => {
                layers.set(i, l);
                cur = dx;
            },
            Err(e) => {
                proof {
                    assert(!before[i as int].accepts_gradient(
                        grad_below(before, dout, i as int + 1),
                    ));
                    assert(layers@ == backwarded(before, dout, i as int + 1));
                }
                return Err(e);
            },
        }
    }
    assert(layers@ == backwarded(before, dout, 0));
    Ok(cur)
}

/// Where a batch has passed forward in training mode, the gradient of the
/// batch's own output passes backward from layer `k` on, and leaves layer `k`
/// in the shape in which the batch arrived there.
proof fn lemma_gradient_retraces(layers: Seq<Layer>, x: Shape, k: int)
    requires
        accepted_upto(layers, x, layers.len() as int),
        0 <= k <= layers.len(),
    ensures
        ({
            let after = forwarded(layers, x, true, layers.len() as int);
            let out = input_at(layers, x, layers.len() as int);
            &&& grad_below(after, out, k) == input_at(layers, x, k)
            &&& gradients_accepted_from(after, out, k)
        }),
    decreases layers.len() - k,
{
    let after = forwarded(layers, x, true, layers.len() as int);
    let out = input_at(layers, x, layers.len() as int);
    if k < layers.len() {
        lemma_gradient_retraces(layers, x, k + 1);
        let arrives = input_at(layers, x, k);
        assert(layers[k].accepts(arrives));
        assert(input_at(layers, x, k + 1) == layers[k].output(arrives));
        assert(after[k] == layers[k].after_forwards(arrives, true));
        assert(after[k].accepts_gradient(grad_below(after, out, k + 1)));
        assert forall|j: int| k < j <= after.len() implies after[j - 1].accepts_gradient(
            #[trigger] grad_below(after, out, j),
        ) by {
            if j > k + 1 {
                assert(gradients_accepted_from(after, out, k + 1));
            }
        }
    }
}

/// Backward answers forward: where a batch of shape `x` has passed forward
/// through a pipeline in training mode, the gradient of the pipeline's output
/// passes backward through every layer, it leaves the pipeline in the shape
/// `x`, and every gradient that it leaves in a layer has the shape of the
/// parameter it belongs to.
pub proof fn lemma_backward_answers_forward(layers: Seq<Layer>, x: Shape)
    requires
        accepted_upto(layers, x, layers.len() as int),
    ensures
        ({
            let after = forwarded(layers, x, true, layers.len() as int);
            let out = input_at(layers, x, layers.len() as int);
            &&& gradients_accepted_from(after, out, 0)
            &&& grad_below(after, out, 0) == x
            &&& forall|k: int|
                0 <= k < layers.len() ==> (#[trigger] backwarded(
                    after,
                    out,
                    0,
                )[k]).gradients_match_parameters()
        }),
{
    let after = forwarded(layers, x, true, layers.len() as int);
    let out = input_at(layers, x, layers.len() as int);
    lemma_gradient_retraces(layers, x, 0);
    assert forall|k: int| 0 <= k < layers.len() implies (#[trigger] backwarded(
        after,
        out,
        0,
    )[k]).gradients_match_parameters() by {
        lemma_gradient_retraces(layers, x, k + 1);
        let arrives = input_at(layers, x, k);
        assert(layers[k].accepts(arrives));
        assert(input_at(layers, x, k + 1) == layers[k].output(arrives));
        assert(after[k] == layers[k].after_forwards(arrives, true));
    }
}

} // verus!
