//! Generators of foreign-language bindings, one module per language.

pub mod swift;
pub mod udl;
