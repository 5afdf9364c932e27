//! The bindings IR: a flattened form of the component interface that the
//! language backends render.

pub mod from_ci;
pub mod nodes;
pub mod sort;

pub use nodes::{
    AsFfiType, AsyncData, CallableType, ChecksumCheck, ExternalFfiMetadata, FfiArgument,
    FfiDefinition, FfiField, FfiFunction, FfiFunctionRef, FfiFunctionType, FfiStruct, FfiType,
};
pub use sort::{sort_ffi_definitions, sort_types};
