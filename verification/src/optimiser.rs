//! Update rules that turn gradients into new parameters.
//!
//! A rule here decides whether an update can be made and keeps the shapes of
//! its own state; the arithmetic on the entries is the numeric backend's.

pub mod ada_grad;
pub mod momentum;
pub mod sgd;
pub mod sgd_ext;
