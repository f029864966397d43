//! A frictionless pendulum advanced one frame at a time.
//!
//! The scalar type is a parameter: every quantity is a `T` that can be
//! negated, added, multiplied and divided. Sine and cosine are not asked of
//! `T`: a step takes them from its caller.
//!
//! The contracts are stated over the meaning that vstd gives to the four
//! operators (`neg_spec`, `add_spec`, `mul_spec`, `div_spec`). For a scalar
//! whose operators obey that meaning they fix which operation is applied to
//! which values, and in which order. vstd says so of the integer types. Of
//! floating-point types it does not, since it leaves their results open; the
//! same code runs on them, with nothing proved of the values.

use vstd::prelude::*;

pub mod simulation;
pub mod vector;

pub use simulation::{Pendulum, Scalar};
pub use vector::Vector;
