//! What a network is built from: the activation, and the scheme by which
//! weights are first scaled.

use vstd::prelude::*;
use crate::layers::relu_layer::Relu;
use crate::layers::sigmoid_layer::Sigmoid;
use crate::layers::Layer;

verus! {

/// The activation that follows every hidden affine layer.
#[derive(Clone, Copy, Debug, PartialEq, Eq, Structural)]
pub enum Activation {
    Relu,
    Sigmoid,
}

/// The scheme by which the standard-normal draws of a weight are scaled.
#[derive(Clone, Copy, Debug, PartialEq, Eq, Structural)]
pub enum WeightInit {
    /// The square root of two over the number of inputs.
    He,
    /// The square root of one over the number of inputs.
    Xavier,
    /// A fixed small constant.
    Fixed,
}

/// The scale of a weight at its creation.
#[derive(Clone, Copy, Debug, PartialEq, Eq, Structural)]
pub enum WeightScale {
    /// The square root of `numerator` over `fan_in`.
    SqrtOver { numerator: usize, fan_in: usize },
    /// The fixed small constant.
    Fixed,
}

/// A name in the configuration that the library does not know.
#[derive(Clone, Copy, Debug, PartialEq, Eq, Structural)]
pub enum ConfigError {
    UnknownActivation,
    UnknownWeightInit,
}

/// The activation that a name stands for: `relu` or `sigmoid`.
pub open spec fn activation_named(name: Seq<char>) -> Option<Activation> {
    if name == "relu"@ {
        Some(Activation::Relu)
    } else if name == "sigmoid"@ {
        Some(Activation::Sigmoid)
    } else {
        None
    }
}

/// The weight scheme that a name stands for: `relu` and `he` for He's,
/// `sigmoid` and `xavier` for Xavier's, `default` for the fixed constant.
pub open spec fn weight_init_named(name: Seq<char>) -> Option<WeightInit> {
    if name == "relu"@ || name == "he"@ {
        Some(WeightInit::He)
    } else if name == "sigmoid"@ || name == "xavier"@ {
        Some(WeightInit::Xavier)
    } else if name == "default"@ {
        Some(WeightInit::Fixed)
    } else {
        None
    }
}

/// The scale that a scheme gives a weight with `fan_in` inputs.
pub open spec fn scale_of(init: WeightInit, fan_in: usize) -> WeightScale {
    match init {
        WeightInit::He => WeightScale::SqrtOver { numerator: 2, fan_in },
        WeightInit::Xavier => WeightScale::SqrtOver { numerator: 1, fan_in },
        WeightInit::Fixed => WeightScale::Fixed,
    }
}

/// A fresh layer of the given activation.
pub open spec fn fresh_activation(act: Activation) -> Layer {
    match act {
        Activation::Relu => Layer::Relu(Relu { mask: None }),
        Activation::Sigmoid => Layer::Sigmoid(Sigmoid { out: None }),
    }
}

/// Whether two strings hold the same characters.
fn same_text(a: &str, b: &str) -> (r: bool)
    ensures
        r == (a@ == b@),
{
    let x: String = a.to_owned();
    let y: String = b.to_owned();
    x == y
}

/// Reads the name of an activation.
pub fn activation_kind(name: &str) -> (r: Result<Activation, ConfigError>)
    ensures
        r == match activation_named(name@) {
            Some(a) => Ok::<Activation, ConfigError>(a),
            None => Err::<Activation, ConfigError>(ConfigError::UnknownActivation),
        },
{
    if same_text(name, "relu") {
        Ok(Activation::Relu)
    } else if same_text(name, "sigmoid") {
        Ok(Activation::Sigmoid)
    } else {
        Err(ConfigError::UnknownActivation)
    }
}

/// Reads the name of a weight scheme.
pub fn weight_init_kind(name: &str) -> (r: Result<WeightInit, ConfigError>)
    ensures
        r == match weight_init_named(name@) {
            Some(w) => Ok::<WeightInit, ConfigError>(w),
            None => Err::<WeightInit, ConfigError>(ConfigError::UnknownWeightInit),
        },
{
    if same_text(name, "relu") || same_text(name, "he") {
        Ok(WeightInit::He)
    } else if same_text(name, "sigmoid") || same_text(name, "xavier") {
        Ok(WeightInit::Xavier)
    } else if same_text(name, "default") {
        Ok(WeightInit::Fixed)
    } else {
        Err(ConfigError::UnknownWeightInit)
    }
}

/// A fresh activation layer of the kind that `name` stands for.
pub fn activation_layer(name: &str) -> (r: Result<Layer, ConfigError>)
    ensures
        r == match activation_named(name@) {
            Some(a) => Ok::<Layer, ConfigError>(fresh_activation(a)),
            None => Err::<Layer, ConfigError>(ConfigError::UnknownActivation),
        },
{
    match activation_kind(name) {
        Ok(a) => Ok(new_activation(a)),
        Err(e) => Err(e),
    }
}

/// A fresh layer of the given activation.
pub fn new_activation(act: Activation) -> (layer: Layer)
    ensures
        layer == fresh_activation(act),
{
    match act {
        Activation::Relu => Layer::Relu(Relu::new()),
        Activation::Sigmoid => Layer::Sigmoid(Sigmoid::new()),
    }
}

/// The scale that a scheme gives a weight with `fan_in` inputs.
pub fn weight_scale(init: WeightInit, fan_in: usize) -> (s: WeightScale)
    ensures
        s == scale_of(init, fan_in),
{
    match init {
        WeightInit::He => WeightScale::SqrtOver { numerator: 2, fan_in },
        WeightInit::Xavier => WeightScale::SqrtOver { numerator: 1, fan_in },
        WeightInit::Fixed => WeightScale::Fixed,
    }
}

} // verus!
