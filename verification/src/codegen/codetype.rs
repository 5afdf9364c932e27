//! Language-agnostic behaviour of the types of a component interface.

use vstd::prelude::*;

use crate::interface::types::dispatch::{
    simple_type_handler, CallbackInterfaceTypeHandler, DurationTypeHandler, EnumTypeHandler,
    ErrorTypeHandler, ExternalTypeHandler, MapTypeHandler, ObjectTypeHandler, OptionalTypeHandler,
    RecordTypeHandler, SequenceTypeHandler, SimpleTypeHandler, TimestampTypeHandler,
    WrapperTypeHandler,
};
use crate::interface::types::{FFIType, Type};
use crate::text::{owned, push_str};

verus! {

/// Type behavior for generated code.
///
/// This trait handles the language-agnostic behavior; each language has its own
/// version in its bindings code.
pub trait NewCodeType {
    /// Whether the type has an FFI type that it is lowered to.
    spec fn has_ffi_type(&self) -> bool;

    /// Get the canonical, unique-within-this-component name for a type.
    ///
    /// When generating helper code for foreign language bindings, this is used to generate
    /// class and function names for the type (for example `FFIConverter{canonical_name}`).
    /// Each type gets a name constructed recursively from the names of its component types
    /// (if any).
    fn canonical_name(&self) -> String;

    /// FFI type that this type is lowered to
    fn ffi_type(&self) -> FFIType
        requires
            self.has_ffi_type(),
    ;
}

/// The canonical name of a simple type.
pub open spec fn simple_code_name(h: SimpleTypeHandler) -> Seq<char> {
    match h {
        SimpleTypeHandler::Int8 => "I8"@,
        SimpleTypeHandler::UInt8 => "U8"@,
        SimpleTypeHandler::Int16 => "I16"@,
        SimpleTypeHandler::UInt16 => "U16"@,
        SimpleTypeHandler::Int32 => "I32"@,
        SimpleTypeHandler::UInt32 => "U32"@,
        SimpleTypeHandler::Int64 => "I64"@,
        SimpleTypeHandler::UInt64 => "U64"@,
        SimpleTypeHandler::Float32 => "F32"@,
        SimpleTypeHandler::Float64 => "F64"@,
        SimpleTypeHandler::String => "String"@,
        SimpleTypeHandler::Boolean => "Bool"@,
    }
}

/// The FFI type of a simple type.
pub open spec fn simple_ffi_type(h: SimpleTypeHandler) -> FFIType {
    match h {
        SimpleTypeHandler::UInt8 => FFIType::UInt8,
        SimpleTypeHandler::Int8 => FFIType::Int8,
        SimpleTypeHandler::UInt16 => FFIType::UInt16,
        SimpleTypeHandler::Int16 => FFIType::Int16,
        SimpleTypeHandler::UInt32 => FFIType::UInt32,
        SimpleTypeHandler::Int32 => FFIType::Int32,
        SimpleTypeHandler::UInt64 => FFIType::UInt64,
        SimpleTypeHandler::Int64 => FFIType::Int64,
        SimpleTypeHandler::Float32 => FFIType::Float32,
        SimpleTypeHandler::Float64 => FFIType::Float64,
        SimpleTypeHandler::Boolean => FFIType::Int8,
        SimpleTypeHandler::String => FFIType::RustBuffer,
    }
}

/// The canonical name that code generation gives a type: simple types have
/// short names of their own, named types `Type` and the name, and recursive
/// types prefix the name of their inner type.
pub open spec fn code_name(t: Type) -> Seq<char>
    decreases t,
{
    match t {
        Type::Object(nm) => "Type"@ + nm@,
        Type::Record(nm) => "Type"@ + nm@,
        Type::Enum(nm) => "Type"@ + nm@,
        Type::Error(nm) => "Type"@ + nm@,
        Type::CallbackInterface(nm) => "CallbackInterface"@ + nm@,
        Type::Timestamp => "Timestamp"@,
        Type::Duration => "Duration"@,
        Type::Optional(inner) => "Optional"@ + code_name(*inner),
        Type::Sequence(inner) => "Sequence"@ + code_name(*inner),
        Type::MapOf(inner) => "Map"@ + code_name(*inner),
        _ => simple_code_name(crate::interface::types::dispatch::simple_handler(t)->0),
    }
}

/// The FFI type that code generation lowers a type to.
pub open spec fn code_ffi_type(t: Type) -> FFIType {
    match crate::interface::types::dispatch::simple_handler(t) {
        Some(h) => simple_ffi_type(h),
        None => if t is CallbackInterface {
            FFIType::UInt64
        } else {
            FFIType::RustBuffer
        },
    }
}

fn type_prefixed(prefix: &str, name: &str) -> (res: String)
    ensures
        res@ == prefix@ + name@,
{
    let mut s = owned(prefix);
    push_str(&mut s, name);
    s
}

/// The canonical name that code generation gives a type.
pub fn type_code_name(t: &Type) -> (res: String)
    ensures
        res@ == code_name(*t),
    decreases t,
{
    match t {
        Type::Object(nm) | Type::Record(nm) | Type::Enum(nm) | Type::Error(nm) => type_prefixed(
            "Type",
            nm.as_str(),
        ),
        Type::Optional(inner) => type_prefixed("Optional", type_code_name(inner).as_str()),
        Type::Sequence(inner) => type_prefixed("Sequence", type_code_name(inner).as_str()),
        Type::MapOf(inner) => type_prefixed("Map", type_code_name(inner).as_str()),
        Type::CallbackInterface(nm) => CallbackInterfaceTypeHandler { name: nm.as_str() }.canonical_name(),
        Type::Timestamp => TimestampTypeHandler.canonical_name(),
        Type::Duration => DurationTypeHandler.canonical_name(),
        _ => match simple_type_handler(t) {
            Some(h) => h.canonical_name(),
            None => vstd::pervasive::unreached(),
        },
    }
}

impl NewCodeType for SimpleTypeHandler {
    open spec fn has_ffi_type(&self) -> bool {
        true
    }

    fn canonical_name(&self) -> (res: String)
        ensures
            res@ == simple_code_name(*self),
    {
        match self {
            Self::Int8 => owned("I8"),
            Self::UInt8 => owned("U8"),
            Self::Int16 => owned("I16"),
            Self::UInt16 => owned("U16"),
            Self::Int32 => owned("I32"),
            Self::UInt32 => owned("U32"),
            Self::Int64 => owned("I64"),
            Self::UInt64 => owned("U64"),
            Self::Float32 => owned("F32"),
            Self::Float64 => owned("F64"),
            Self::String => owned("String"),
            Self::Boolean => owned("Bool"),
        }
    }

    fn ffi_type(&self) -> (res: FFIType)
        ensures
            res == simple_ffi_type(*self),
    {
        match self {
            // Types that are the same map to themselves, naturally.
            Self::UInt8 => FFIType::UInt8,
            Self::Int8 => FFIType::Int8,
            Self::UInt16 => FFIType::UInt16,
            Self::Int16 => FFIType::Int16,
            Self::UInt32 => FFIType::UInt32,
            Self::Int32 => FFIType::Int32,
            Self::UInt64 => FFIType::UInt64,
            Self::Int64 => FFIType::Int64,
            Self::Float32 => FFIType::Float32,
            Self::Float64 => FFIType::Float64,
            // Booleans lower into an Int8, to work around a bug in JNA.
            Self::Boolean => FFIType::Int8,
            // Strings are always owned rust values.
            Self::String => FFIType::RustBuffer,
        }
    }
}

impl NewCodeType for RecordTypeHandler<'_> {
    open spec fn has_ffi_type(&self) -> bool {
        true
    }

    fn canonical_name(&self) -> (res: String)
        ensures
            res@ == "Type"@ + self.name@,
    {
        type_prefixed("Type", self.name)
    }

    fn ffi_type(&self) -> (res: FFIType)
        ensures
            res == FFIType::RustBuffer,
    {
        FFIType::RustBuffer
    }
}

impl NewCodeType for EnumTypeHandler<'_> {
    open spec fn has_ffi_type(&self) -> bool {
        true
    }

    fn canonical_name(&self) -> (res: String)
        ensures
            res@ == "Type"@ + self.name@,
    {
        type_prefixed("Type", self.name)
    }

    fn ffi_type(&self) -> (res: FFIType)
        ensures
            res == FFIType::RustBuffer,
    {
        FFIType::RustBuffer
    }
}

impl NewCodeType for ErrorTypeHandler<'_> {
    open spec fn has_ffi_type(&self) -> bool {
        true
    }

    fn canonical_name(&self) -> (res: String)
        ensures
            res@ == "Type"@ + self.name@,
    {
        type_prefixed("Type", self.name)
    }

    fn ffi_type(&self) -> (res: FFIType)
        ensures
            res == FFIType::RustBuffer,
    {
        FFIType::RustBuffer
    }
}

impl NewCodeType for ObjectTypeHandler<'_> {
    open spec fn has_ffi_type(&self) -> bool {
        true
    }

    fn canonical_name(&self) -> (res: String)
        ensures
            res@ == "Type"@ + self.name@,
    {
        type_prefixed("Type", self.name)
    }

    fn ffi_type(&self) -> (res: FFIType)
        ensures
            res == FFIType::RustBuffer,
    {
        FFIType::RustBuffer
    }
}

impl NewCodeType for CallbackInterfaceTypeHandler<'_> {
    open spec fn has_ffi_type(&self) -> bool {
        true
    }

    fn canonical_name(&self) -> (res: String)
        ensures
            res@ == "CallbackInterface"@ + self.name@,
    {
        type_prefixed("CallbackInterface", self.name)
    }

    fn ffi_type(&self) -> (res: FFIType)
        ensures
            res == FFIType::UInt64,
    {
        FFIType::UInt64
    }
}

impl NewCodeType for TimestampTypeHandler {
    open spec fn has_ffi_type(&self) -> bool {
        true
    }

    fn canonical_name(&self) -> (res: String)
        ensures
            res@ == "Timestamp"@,
    {
        owned("Timestamp")
    }

    fn ffi_type(&self) -> (res: FFIType)
        ensures
            res == FFIType::RustBuffer,
    {
        FFIType::RustBuffer
    }
}

impl NewCodeType for DurationTypeHandler {
    open spec fn has_ffi_type(&self) -> bool {
        true
    }

    fn canonical_name(&self) -> (res: String)
        ensures
            res@ == "Duration"@,
    {
        owned("Duration")
    }

    fn ffi_type(&self) -> (res: FFIType)
        ensures
            res == FFIType::RustBuffer,
    {
        FFIType::RustBuffer
    }
}

impl NewCodeType for OptionalTypeHandler<'_> {
    open spec fn has_ffi_type(&self) -> bool {
        true
    }

    fn canonical_name(&self) -> (res: String)
        ensures
            res@ == "Optional"@ + code_name(*self.inner),
    {
        type_prefixed("Optional", type_code_name(self.inner).as_str())
    }

    fn ffi_type(&self) -> (res: FFIType)
        ensures
            res == FFIType::RustBuffer,
    {
        FFIType::RustBuffer
    }
}

impl NewCodeType for SequenceTypeHandler<'_> {
    open spec fn has_ffi_type(&self) -> bool {
        true
    }

    fn canonical_name(&self) -> (res: String)
        ensures
            res@ == "Sequence"@ + code_name(*self.inner),
    {
        type_prefixed("Sequence", type_code_name(self.inner).as_str())
    }

    fn ffi_type(&self) -> (res: FFIType)
        ensures
            res == FFIType::RustBuffer,
    {
        FFIType::RustBuffer
    }
}

impl NewCodeType for MapTypeHandler<'_> {
    open spec fn has_ffi_type(&self) -> bool {
        true
    }

    fn canonical_name(&self) -> (res: String)
        ensures
            res@ == "Map"@ + code_name(*self.inner),
    {
        type_prefixed("Map", type_code_name(self.inner).as_str())
    }

    fn ffi_type(&self) -> (res: FFIType)
        ensures
            res == FFIType::RustBuffer,
    {
        FFIType::RustBuffer
    }
}

impl NewCodeType for ExternalTypeHandler<'_> {
    /// External types are not handled yet: they have no FFI type.
    open spec fn has_ffi_type(&self) -> bool {
        false
    }

    fn canonical_name(&self) -> (res: String)
        ensures
            res@ == "Type"@ + self.name@,
    {
        type_prefixed("Type", self.name)
    }

    fn ffi_type(&self) -> (res: FFIType) {
        vstd::pervasive::unreached()
    }
}

impl NewCodeType for WrapperTypeHandler<'_> {
    open spec fn has_ffi_type(&self) -> bool {
        true
    }

    fn canonical_name(&self) -> (res: String)
        ensures
            res@ == "Type"@ + self.name@,
    {
        type_prefixed("Type", self.name)
    }

    fn ffi_type(&self) -> (res: FFIType)
        ensures
            res == code_ffi_type(*self.wrapped),
    {
        self.wrapped.ffi_type()
    }
}

impl NewCodeType for Type {
    open spec fn has_ffi_type(&self) -> bool {
        true
    }

    fn canonical_name(&self) -> (res: String)
        ensures
            res@ == code_name(*self),
    {
        type_code_name(self)
    }

    fn ffi_type(&self) -> (res: FFIType)
        ensures
            res == code_ffi_type(*self),
    {
        match simple_type_handler(self) {
            Some(h) => h.ffi_type(),
            None => match self {
                Type::CallbackInterface(nm) => CallbackInterfaceTypeHandler { name: nm.as_str() }.ffi_type(),
                _ => FFIType::RustBuffer,
            },
        }
    }
}

} // verus!
