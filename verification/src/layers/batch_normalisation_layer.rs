//! Batch normalisation: per-feature statistics over a batch, with running
//! statistics for inference.

use vstd::prelude::*;
use crate::layers::LayerError;
use crate::shape::Shape;

verus! {

/// The bookkeeping of a batch-normalisation layer.
///
/// The layer scales by `gamma` and shifts by `beta`, two per-feature vectors
/// whose lengths are held here. The running mean and variance are created by
/// the first forward pass, one entry per input feature, and stay. A forward
/// pass in training mode leaves the shape of the centred and normalised batch
/// behind for the backward pass.
#[derive(Clone, Copy, Debug)]
pub struct BatchNormalisationLayer {
    /// The length of the scale vector.
    pub gamma: usize,
    /// The length of the shift vector.
    pub beta: usize,
    /// The length of the running mean, once a forward pass has created it.
    pub running_mean: Option<usize>,
    /// The length of the running variance, once a forward pass has created it.
    pub running_var: Option<usize>,
    /// The number of samples of the batch that the last forward pass in
    /// training mode normalised; zero before any.
    pub batch_size: usize,
    /// The shape of the centred batch of the last forward pass in training mode.
    pub xc: Option<Shape>,
    /// The shape of the normalised batch of the last forward pass in training mode.
    pub xn: Option<Shape>,
    /// The length of the per-feature standard deviation of that batch.
    pub std: Option<usize>,
    /// The length of the gradient of the scale, as of the last backward pass.
    pub dgamma: usize,
    /// The length of the gradient of the shift, as of the last backward pass.
    pub dbeta: usize,
}

impl BatchNormalisationLayer {
    /// The fields agree with each other: mean and variance were created
    /// together, with one entry per entry of the scale; the three caches
    /// describe one batch, which is as wide as the scale is long.
    pub open spec fn wf(&self) -> bool {
        &&& self.running_var == self.running_mean
        &&& (self.running_mean matches Some(d) ==> d == self.gamma)
        &&& self.xn == self.xc
        &&& match self.xc {
            Some(s) => self.std == Some(s.cols) && self.batch_size == s.rows && s.cols
                == self.gamma,
            None => self.std is None && self.batch_size == 0,
        }
    }

    /// Whether a batch of shape `x` can pass forward: it has one column per
    /// entry of the scale and of the shift (and so of the running statistics,
    /// where they exist).
    pub open spec fn accepts(&self, x: Shape) -> bool {
        &&& x.cols == self.gamma
        &&& x.cols == self.beta
    }

    /// The layer after a batch of shape `x` that it accepts has passed forward.
    ///
    /// The running statistics exist, one entry per feature. In training mode
    /// the batch is cached; in inference mode the caches stay as they were.
    pub open spec fn after_forwards(self, x: Shape, train_flg: bool) -> Self {
        if train_flg {
            BatchNormalisationLayer {
                running_mean: Some(x.cols),
                running_var: Some(x.cols),
                batch_size: x.rows,
                xc: Some(x),
                xn: Some(x),
                std: Some(x.cols),
                ..self
            }
        } else {
            BatchNormalisationLayer {
                running_mean: Some(x.cols),
                running_var: Some(x.cols),
                ..self
            }
        }
    }

    /// Whether a gradient of shape `dout` can pass backward: a forward pass in
    /// training mode has cached a batch of that shape.
    pub open spec fn accepts_gradient(&self, dout: Shape) -> bool {
        self.xc == Some(dout)
    }

    /// The layer after a gradient of shape `dout` that it accepts has passed
    /// backward: the gradients of scale and shift have one entry per feature.
    pub open spec fn after_backwards(self, dout: Shape) -> Self {
        BatchNormalisationLayer { dgamma: dout.cols, dbeta: dout.cols, ..self }
    }

    /// A layer for a scale of length `gamma` and a shift of length `beta`,
    /// before any forward pass.
    pub fn new(gamma: usize, beta: usize) -> (layer: Self)
        ensures
            layer == (BatchNormalisationLayer {
                gamma,
                beta,
                running_mean: None,
                running_var: None,
                batch_size: 0,
                xc: None,
                xn: None,
                std: None,
                dgamma: 0,
                dbeta: 0,
            }),
            layer.wf(),
    {
        Self {
            gamma,
            beta,
            running_mean: None,
            running_var: None,
            batch_size: 0,
            xc: None,
            xn: None,
            std: None,
            dgamma: 0,
            dbeta: 0,
        }
    }

    /// Passes a batch of shape `x` forward.
    ///
    /// The batch is refused unless the layer accepts its width; the layer then
    /// stays as it was. Otherwise the output has the shape of the input.
    pub fn forwards(&mut self, x: Shape, train_flg: bool) -> (r: Result<Shape, LayerError>)
        requires
            old(self).wf(),
        ensures
            final(self).wf(),
            r is Ok <==> old(self).accepts(x),
            r is Ok ==> r == Ok::<Shape, LayerError>(x) && *final(self) == old(self).after_forwards(
                x,
                train_flg,
            ),
            r is Err ==> r == Err::<Shape, LayerError>(LayerError::ShapeMismatch) && *final(self)
                == *old(self),
    {
        if x.cols != self.gamma || x.cols != self.beta {
            return Err(LayerError::ShapeMismatch);
        }
        if self.running_mean.is_none() {
            let d: usize = x.cols;
            self.running_mean = Some(d);
            self.running_var = Some(d);
        }
        if train_flg {
            self.batch_size = x.rows;
            self.xc = Some(x);
            self.xn = Some(x);
            self.std = Some(x.cols);
        }
        Ok(x)
    }

    /// Passes a gradient of shape `dout` backward.
    ///
    /// There must have been a forward pass in training mode, and `dout` must
    /// have the shape of the batch it cached; else the layer stays as it was.
    /// The gradient with respect to the input has the shape of `dout`.
    pub fn backwards(&mut self, dout: Shape) -> (r: Result<Shape, LayerError>)
        requires
            old(self).wf(),
        ensures
            final(self).wf(),
            r is Ok <==> old(self).accepts_gradient(dout),
            r is Ok ==> r == Ok::<Shape, LayerError>(dout) && *final(self) == old(self).after_backwards(dout),
            r is Err ==> *final(self) == *old(self) && r == Err::<Shape, LayerError>(
                if old(self).xc is None {
                    LayerError::BackwardBeforeForward
                } else {
                    LayerError::ShapeMismatch
                },
            ),
    {
        match self.xc {
            None => Err(LayerError::BackwardBeforeForward),
            Some(s) => {
                if s.rows != dout.rows || s.cols != dout.cols {
                    return Err(LayerError::ShapeMismatch);
                }
                self.dgamma = dout.cols;
                self.dbeta = dout.cols;
                Ok(dout)
            },
        }
    }
}

/// The running statistics stay: once a forward pass has created them, no
/// later pass changes their length.
pub proof fn lemma_running_statistics_persist(
    layer: BatchNormalisationLayer,
    x: Shape,
    train_flg: bool,
    dout: Shape,
)
    requires
        layer.wf(),
        layer.running_mean is Some,
        layer.accepts(x),
    ensures
        layer.after_forwards(x, train_flg).running_mean == layer.running_mean,
        layer.after_forwards(x, train_flg).running_var == layer.running_var,
        layer.after_backwards(dout).running_mean == layer.running_mean,
        layer.after_backwards(dout).running_var == layer.running_var,
{
}

/// A forward pass in inference mode leaves the caches of the last pass in
/// training mode as they were.
pub proof fn lemma_inference_keeps_caches(layer: BatchNormalisationLayer, x: Shape)
    ensures
        layer.after_forwards(x, false).xc == layer.xc,
        layer.after_forwards(x, false).xn == layer.xn,
        layer.after_forwards(x, false).std == layer.std,
        layer.after_forwards(x, false).batch_size == layer.batch_size,
{
}

} // verus!
