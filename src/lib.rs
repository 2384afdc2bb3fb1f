//! Conversion of values that may borrow from an outer scope into fully owned
//! values, and a generator that writes such conversions for composite types
//! from their declared shape.

mod convert;
pub mod markers;
pub mod meaning;
pub mod shape;
pub mod synth;
pub mod text;

pub use convert::Ownit;
pub use convert::Ownit as Burrow;
pub use synth::{derive_burrow, derive_ownit};
