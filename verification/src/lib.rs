//! Structural reflection for composite data types.
//!
//! Given the declared layout of a record or variant type (a descriptor), this
//! crate builds a canonical generic encoding of its shape, order-preserving
//! conversions between values of the type and that encoding, per-item
//! serialization metadata parsed from a directive language, and a
//! parameter-erased ("mocked") form of the type. Every piece is produced by a
//! verified function with a contract describing the result exactly.

pub mod attr;
pub mod case;
pub mod contract;
pub mod descriptor;
pub mod directive;
pub mod hlist;
pub mod meta;
pub mod position;
pub mod repr;
pub mod shape;
pub mod ty;
