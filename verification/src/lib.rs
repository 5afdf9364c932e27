//! Bindings generation support for UniFFI components: the interface model,
//! its FFI layer and naming conventions, and the Swift and UDL renderers.

pub mod bindings;
pub mod casing;
pub mod codegen;
pub mod context;
pub mod crate_metadata;
pub mod crate_mode;
pub mod global_config;
pub mod text;
pub mod interface;
pub mod merge;
pub mod toml_table;

pub use merge::MergeWith;
