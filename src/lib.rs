//! Comparison capabilities that identify a value by where it is stored.
//!
//! The library reads a type declaration and writes the source of an
//! implementation of equality, hashing or ordering for it, in which two
//! values are compared by their addresses and never by their fields.

pub mod declaration;
pub mod generate;
pub mod identity;

pub use declaration::{Declaration, DeriveError};
pub use generate::{
    address_eq, address_hash, address_ord, equivalence_impl, hashing_impl, ordering_impl,
};
