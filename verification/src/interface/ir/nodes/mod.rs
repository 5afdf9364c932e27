//! Nodes of the bindings IR.

pub mod ffi;
pub mod functions;
pub mod traits;
pub mod types;

pub use ffi::{
    ChecksumCheck, ExternalFfiMetadata, FfiArgument, FfiDefinition, FfiField, FfiFunction,
    FfiFunctionRef, FfiFunctionType, FfiStruct, FfiType,
};
pub use functions::AsyncData;
pub use traits::{AsFfiType, CallableType, FfiCallable};
pub use types::{
    Argument, CallbackInterface, Constructor, Enum, Field, Function, Interface, MapType, Method, OptionalType,
    Record, SequenceType, Type, TypeDefinition, Variant,
};
