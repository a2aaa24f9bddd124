//! Helper extensions of standard containers that separate reserving storage
//! from writing the value that ends up in it.

pub mod boxed;
pub mod vec;

pub use crate::boxed::{BoxAllocation, BoxHelper};
pub use crate::vec::{VecAllocation, VecArrayAllocation, VecEntry, VecHelper};
