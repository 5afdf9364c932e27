//! The component interface: its types, its FFI layer and the naming rules
//! that tie the two together.

pub mod attributes;
pub mod builder;
pub mod built_names;
pub mod built_types;
pub mod cistring;
pub mod component;
pub mod enum_;
pub mod syntax;
pub mod exclude;
pub mod ffi;
pub mod ffi_names;
pub mod ir;
pub mod languages;
pub mod literal;
pub mod pointer_ffi;
pub mod rename;
pub mod types;
pub mod universe;
