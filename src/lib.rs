//! Lenient decoding of an unsigned 64-bit field: the value may arrive as a
//! signed or unsigned integer of any width, or as a decimal string.

pub mod decimal;
pub mod laws;
pub mod numberish;
pub mod record;

pub use decimal::parse_u64;
pub use numberish::{DecodeError, Numberish, NumberishVisitor, Scalar};
pub use record::{ObjectData, ObjectData2};
