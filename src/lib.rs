//! Numeric values that can only be built when they satisfy a policy.

pub mod floco;

pub use crate::floco::{Constrained, Floco};
