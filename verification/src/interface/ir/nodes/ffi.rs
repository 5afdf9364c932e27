//! FFI-level nodes of the bindings IR.

use vstd::prelude::*;

verus! {

/// Represents an Ffi definition
#[derive(Debug, Clone)]
pub enum FfiDefinition {
    /// Scaffolding function exported in the library
    Function(FfiFunction),
    /// Function type, for function pointers
    FunctionType(FfiFunctionType),
    /// FFI struct definition
    Struct(FfiStruct),
}

/// Represents an "extern C"-style function that will be part of the FFI.
#[derive(Debug, Clone)]
pub struct FfiFunction {
    pub name: String,
    pub is_async: bool,
    pub arguments: Vec<FfiArgument>,
    pub return_type: Option<FfiType>,
    pub has_rust_call_status_arg: bool,
    /// Used by C# generator to differentiate the free function and call it with void*
    /// instead of C# `SafeHandle` type.
    pub is_object_free_function: bool,
}

/// Represents an "extern C"-style callback function, defined in the foreign
/// code and passed to Rust as a function pointer.
#[derive(Debug, Clone)]
pub struct FfiFunctionType {
    /// Name for this function type. This matches the value inside `FfiType::FunctionPointer`
    pub name: String,
    pub arguments: Vec<FfiArgument>,
    pub return_type: Option<FfiType>,
    pub has_rust_call_status_arg: bool,
}

/// Represents a repr(C) struct
#[derive(Debug, Clone)]
pub struct FfiStruct {
    pub name: String,
    pub fields: Vec<FfiField>,
}

/// Represents a field of an [FfiStruct]
#[derive(Debug, Clone)]
pub struct FfiField {
    pub name: String,
    pub ty: FfiType,
}

/// Represents an argument to an FFI function.
#[derive(Debug, Clone)]
pub struct FfiArgument {
    pub name: String,
    pub ty: FfiType,
}

/// Represents an FFI type
#[derive(Debug)]
pub enum FfiType {
    UInt8,
    Int8,
    UInt16,
    Int16,
    UInt32,
    Int32,
    UInt64,
    Int64,
    Float32,
    Float64,
    /// A `*const c_void` pointer to a rust-owned `Arc<T>`; the string names `T`.
    RustArcPtr(String),
    /// A byte buffer allocated by rust, and owned by whoever currently holds it.
    RustBuffer(Option<ExternalFfiMetadata>),
    /// A borrowed reference to some raw bytes owned by foreign language code.
    ForeignBytes,
    /// Function pointer; the name of one of the `FfiFunctionType` definitions.
    FunctionPointer(String),
    /// Pointer to a FFI struct; the name of one of the struct definitions.
    Struct(String),
    /// Opaque 64-bit handle
    Handle,
    RustCallStatus,
    /// Const pointer to an FfiType.
    Reference(Box<FfiType>),
    /// Mutable pointer to an FfiType.
    MutReference(Box<FfiType>),
    /// Opaque pointer
    VoidPointer,
}

impl Clone for FfiType {
    fn clone(&self) -> (res: Self)
        ensures
            res == *self,
        decreases self,
    {
        match self {
            FfiType::UInt8 => FfiType::UInt8,
            FfiType::Int8 => FfiType::Int8,
            FfiType::UInt16 => FfiType::UInt16,
            FfiType::Int16 => FfiType::Int16,
            FfiType::UInt32 => FfiType::UInt32,
            FfiType::Int32 => FfiType::Int32,
            FfiType::UInt64 => FfiType::UInt64,
            FfiType::Int64 => FfiType::Int64,
            FfiType::Float32 => FfiType::Float32,
            FfiType::Float64 => FfiType::Float64,
            FfiType::RustArcPtr(name) => FfiType::RustArcPtr(name.clone()),
            FfiType::RustBuffer(meta) => FfiType::RustBuffer(
                match meta {
                    Some(m) => Some(m.clone()),
                    None => None,
                },
            ),
            FfiType::ForeignBytes => FfiType::ForeignBytes,
            FfiType::FunctionPointer(name) => FfiType::FunctionPointer(name.clone()),
            FfiType::Struct(name) => FfiType::Struct(name.clone()),
            FfiType::Handle => FfiType::Handle,
            FfiType::RustCallStatus => FfiType::RustCallStatus,
            FfiType::Reference(inner) => FfiType::Reference(Box::new((**inner).clone())),
            FfiType::MutReference(inner) => FfiType::MutReference(Box::new((**inner).clone())),
            FfiType::VoidPointer => FfiType::VoidPointer,
        }
    }
}

/// Set for RustBuffers for external types.
#[derive(Debug)]
pub struct ExternalFfiMetadata {
    pub module: String,
    pub namespace: String,
}

impl Clone for ExternalFfiMetadata {
    fn clone(&self) -> (res: Self)
        ensures
            res == *self,
    {
        ExternalFfiMetadata { module: self.module.clone(), namespace: self.namespace.clone() }
    }
}

/// Ffi function to check a checksum for an item in the interface
#[derive(Debug, Clone)]
pub struct ChecksumCheck {
    pub func: FfiFunctionRef,
    pub checksum: u16,
}

/// Reference to an scaffolding function
#[derive(Debug, Clone)]
pub struct FfiFunctionRef {
    pub name: String,
    pub is_object_free_function: bool,
}

impl FfiDefinition {
    /// The name of the definition, as characters.
    pub open spec fn name_view(self) -> Seq<char> {
        match self {
            FfiDefinition::Function(f) => f.name@,
            FfiDefinition::FunctionType(f) => f.name@,
            FfiDefinition::Struct(s) => s.name@,
        }
    }

    pub fn name(&self) -> (res: &str)
        ensures
            res@ == self.name_view(),
    {
        match self {
            Self::Function(f) => f.name.as_str(),
            Self::FunctionType(f) => f.name.as_str(),
            Self::Struct(s) => s.name.as_str(),
        }
    }
}

} // verus!
