//! Type behaviour by the dispatch pattern.
//!
//! Each handler handles some of the variants of [`Type`] (usually one), and a
//! trait's methods for `Type` dispatch to the handler of the type's variant. See
//! `NewCodeType` for an example.

use vstd::prelude::*;

use super::Type;

verus! {

/// Dispatch handler for simple types that correspond to standard types on the target language.
#[derive(Debug, Clone, Copy, PartialEq, Eq, Structural)]
pub enum SimpleTypeHandler {
    UInt8,
    Int8,
    UInt16,
    Int16,
    UInt32,
    Int32,
    UInt64,
    Int64,
    Float32,
    Float64,
    Boolean,
    String,
}

// Other variants map one to one to handler structs, which borrow the names and
// inner types of the `Type` instance for the dispatched call.
pub struct RecordTypeHandler<'d> {
    pub name: &'d str,
}

pub struct EnumTypeHandler<'d> {
    pub name: &'d str,
}

pub struct ErrorTypeHandler<'d> {
    pub name: &'d str,
}

pub struct ObjectTypeHandler<'d> {
    pub name: &'d str,
}

pub struct CallbackInterfaceTypeHandler<'d> {
    pub name: &'d str,
}

pub struct TimestampTypeHandler;

pub struct DurationTypeHandler;

pub struct OptionalTypeHandler<'d> {
    pub inner: &'d Type,
}

pub struct SequenceTypeHandler<'d> {
    pub inner: &'d Type,
}

pub struct MapTypeHandler<'d> {
    pub inner: &'d Type,
}

pub struct ExternalTypeHandler<'d> {
    pub name: &'d str,
    pub crate_name: &'d str,
}

pub struct WrapperTypeHandler<'d> {
    pub name: &'d str,
    pub wrapped: &'d Type,
}

/// The handler for a simple type, if the type is one.
pub open spec fn simple_handler(t: Type) -> Option<SimpleTypeHandler> {
    match t {
        Type::UInt8 => Some(SimpleTypeHandler::UInt8),
        Type::Int8 => Some(SimpleTypeHandler::Int8),
        Type::UInt16 => Some(SimpleTypeHandler::UInt16),
        Type::Int16 => Some(SimpleTypeHandler::Int16),
        Type::UInt32 => Some(SimpleTypeHandler::UInt32),
        Type::Int32 => Some(SimpleTypeHandler::Int32),
        Type::UInt64 => Some(SimpleTypeHandler::UInt64),
        Type::Int64 => Some(SimpleTypeHandler::Int64),
        Type::Float32 => Some(SimpleTypeHandler::Float32),
        Type::Float64 => Some(SimpleTypeHandler::Float64),
        Type::Boolean => Some(SimpleTypeHandler::Boolean),
        Type::String => Some(SimpleTypeHandler::String),
        _ => None,
    }
}

/// The handler for a simple type, if the type is one.
pub fn simple_type_handler(t: &Type) -> (res: Option<SimpleTypeHandler>)
    ensures
        res == simple_handler(*t),
{
    match t {
        Type::UInt8 => Some(SimpleTypeHandler::UInt8),
        Type::Int8 => Some(SimpleTypeHandler::Int8),
        Type::UInt16 => Some(SimpleTypeHandler::UInt16),
        Type::Int16 => Some(SimpleTypeHandler::Int16),
        Type::UInt32 => Some(SimpleTypeHandler::UInt32),
        Type::Int32 => Some(SimpleTypeHandler::Int32),
        Type::UInt64 => Some(SimpleTypeHandler::UInt64),
        Type::Int64 => Some(SimpleTypeHandler::Int64),
        Type::Float32 => Some(SimpleTypeHandler::Float32),
        Type::Float64 => Some(SimpleTypeHandler::Float64),
        Type::Boolean => Some(SimpleTypeHandler::Boolean),
        Type::String => Some(SimpleTypeHandler::String),
        _ => None,
    }
}

} // verus!
