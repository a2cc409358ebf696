//! A feed-forward network engine whose tensor shapes, layer wiring and
//! bookkeeping are verified, for use beside a numeric backend.
//!
//! Tensors of real numbers are represented here by their [`shape::Shape`]; small
//! matrices of bytes (one-hot targets, pixels) are real `nalgebra` matrices.

pub mod accuracy;
pub mod byte_matrix;
pub mod config;
pub mod grads;
pub mod grads_extended;
pub mod layers;
pub mod mnist;
pub mod multi_layer_net;
pub mod multi_layer_net_extended;
pub mod optimiser;
pub mod params;
pub mod params_extended;
pub mod pipeline;
pub mod shape;
pub mod train;
pub mod two_layer_net;
pub mod wiring;
