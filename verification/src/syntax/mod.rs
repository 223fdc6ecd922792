//! What the code generator knows about the types in a bridge definition.

pub mod atom;
