//! A value-marshaling bridge between Rust and C++.
//!
//! Two pieces carry the weight: the table of scalar types that both
//! languages spell ([`syntax::atom`]), and the capsule in which a growable
//! array changes hands between them ([`rust_vec`], [`vector`]).

pub mod rust_vec;
pub mod syntax;
mod text;
pub mod vector;
