//! # Code generation tools
//!
//! Tools that the bindings code generators share: the language-agnostic
//! behaviour of types, and a set of rendered templates without duplicates.

pub mod codetype;
pub mod template;

pub use codetype::NewCodeType;
pub use template::TemplateRenderSet;
