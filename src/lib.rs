//! Rolling-phase curves: exact curve generation, sampling, and the
//! interactive controller that drives them.
pub mod curve;
pub mod sampler;
pub mod controller;
pub mod frame;
