//! Filters that render names, types and literals of the component interface
//! as C (for the bridging header) and Swift (for the library itself).

use vstd::prelude::*;

use crate::casing::{lower_camel_case, to_lower_camel_case, to_upper_camel_case, upper_camel_case};
use crate::interface::literal::{int_text, render_int, render_uint, uint_text, Literal};
use crate::interface::types::{FFIType, Type};
use crate::text::{owned, push_str};

verus! {

/// The Swift spelling of a type of the public interface.
pub open spec fn swift_type(t: Type) -> Seq<char>
    decreases t,
{
    match t {
        Type::Int8 => "Int8"@,
        Type::UInt8 => "UInt8"@,
        Type::Int16 => "Int16"@,
        Type::UInt16 => "UInt16"@,
        Type::Int32 => "Int32"@,
        Type::UInt32 => "UInt32"@,
        Type::Int64 => "Int64"@,
        Type::UInt64 => "UInt64"@,
        Type::Float32 => "Float"@,
        Type::Float64 => "Double"@,
        Type::Boolean => "Bool"@,
        Type::String => "String"@,
        Type::Timestamp => "Date"@,
        Type::Duration => "TimeInterval"@,
        Type::CallbackInterface(name) => upper_camel_case(name@),
        Type::Enum(name) => upper_camel_case(name@),
        Type::Record(name) => upper_camel_case(name@),
        Type::Object(name) => upper_camel_case(name@),
        Type::Error(name) => upper_camel_case(name@),
        Type::Optional(inner) => swift_type(*inner) + "?"@,
        Type::Sequence(inner) => "["@ + swift_type(*inner) + "]"@,
        Type::MapOf(inner) => "[String:"@ + swift_type(*inner) + "]"@,
    }
}

/// The Swift type of every named type (enum, record, object, error, callback
/// interface) is the Swift class name of its name: its upper camel case,
/// whatever kind of type the name names.
pub proof fn lemma_named_types_are_class_names(name: String)
    ensures
        swift_type(Type::Object(name)) == upper_camel_case(name@),
        swift_type(Type::Record(name)) == upper_camel_case(name@),
        swift_type(Type::Enum(name)) == upper_camel_case(name@),
        swift_type(Type::Error(name)) == upper_camel_case(name@),
        swift_type(Type::CallbackInterface(name)) == upper_camel_case(name@),
{
}

/// Declares a Swift type in the public interface for the library.
pub fn type_swift(type_: &Type) -> (res: String)
    ensures
        res@ == swift_type(*type_),
    decreases type_,
{
    match type_ {
        Type::Int8 => owned("Int8"),
        Type::UInt8 => owned("UInt8"),
        Type::Int16 => owned("Int16"),
        Type::UInt16 => owned("UInt16"),
        Type::Int32 => owned("Int32"),
        Type::UInt32 => owned("UInt32"),
        Type::Int64 => owned("Int64"),
        Type::UInt64 => owned("UInt64"),
        Type::Float32 => owned("Float"),
        Type::Float64 => owned("Double"),
        Type::Boolean => owned("Bool"),
        Type::String => owned("String"),
        Type::Timestamp => owned("Date"),
        Type::Duration => owned("TimeInterval"),
        Type::Enum(name)
        | Type::Record(name)
        | Type::Object(name)
        | Type::Error(name)
        | Type::CallbackInterface(name) => {
            class_name_swift(name.as_str())
        },
        Type::Optional(inner) => {
            let mut s = type_swift(inner);
            push_str(&mut s, "?");
            s
        },
        Type::Sequence(inner) => {
            let mut s = owned("[");
            push_str(&mut s, type_swift(inner).as_str());
            push_str(&mut s, "]");
            s
        },
        Type::MapOf(inner) => {
            let mut s = owned("[String:");
            push_str(&mut s, type_swift(inner).as_str());
            push_str(&mut s, "]");
            s
        },
    }
}

/// The FFI types that have a C spelling in the bridging header.
pub open spec fn has_c_type(t: FFIType) -> bool {
    !(t is ForeignCallback || t is RustCString || t is RustError)
}

/// The C spelling of an FFI type.
pub open spec fn c_type(t: FFIType) -> Seq<char> {
    match t {
        FFIType::Int8 => "int8_t"@,
        FFIType::UInt8 => "uint8_t"@,
        FFIType::Int16 => "int16_t"@,
        FFIType::UInt16 => "uint16_t"@,
        FFIType::Int32 => "int32_t"@,
        FFIType::UInt32 => "uint32_t"@,
        FFIType::Int64 => "int64_t"@,
        FFIType::UInt64 => "uint64_t"@,
        FFIType::Float32 => "float"@,
        FFIType::Float64 => "double"@,
        FFIType::RustArcPtr => "void*_Nonnull"@,
        FFIType::RustBuffer => "RustBuffer"@,
        FFIType::ForeignBytes => "ForeignBytes"@,
        _ => Seq::empty(),
    }
}

/// Declares a C type in the bridging header.
///
/// Callback interfaces are not implemented, so a foreign callback has no C
/// type here; neither have the error types, which this header does not use.
pub fn type_ffi(type_: &FFIType) -> (res: String)
    requires
        has_c_type(*type_),
    ensures
        res@ == c_type(*type_),
{
    match type_ {
        // These native types map nicely to the FFI without conversion.
        FFIType::Int8 => owned("int8_t"),
        FFIType::UInt8 => owned("uint8_t"),
        FFIType::Int16 => owned("int16_t"),
        FFIType::UInt16 => owned("uint16_t"),
        FFIType::Int32 => owned("int32_t"),
        FFIType::UInt32 => owned("uint32_t"),
        FFIType::Int64 => owned("int64_t"),
        FFIType::UInt64 => owned("uint64_t"),
        FFIType::Float32 => owned("float"),
        FFIType::Float64 => owned("double"),
        FFIType::RustArcPtr => owned("void*_Nonnull"),
        FFIType::RustBuffer => owned("RustBuffer"),
        FFIType::ForeignBytes => owned("ForeignBytes"),
        _ => vstd::pervasive::unreached(),
    }
}

/// The number types, whose literals are written with their type.
pub open spec fn is_number_type(t: Type) -> bool {
    t is Int8 || t is UInt8 || t is Int16 || t is UInt16 || t is Int32 || t is UInt32
        || t is Int64 || t is UInt64 || t is Float32 || t is Float64
}

/// A number written as a value of the given number type: as it is for an
/// `Int32`, which is what Swift takes an integer literal for, else wrapped in
/// the type's constructor, such as `UInt8(x)`.
pub open spec fn typed_number_text(t: Type, num: Seq<char>) -> Seq<char> {
    if t is Int32 {
        num
    } else {
        swift_type(t) + "("@ + num + ")"@
    }
}

/// The literals that Swift can render: numbers must be of a number type.
pub open spec fn renderable_literal(l: Literal) -> bool {
    match l {
        Literal::Int(_, _, t) => is_number_type(t),
        Literal::UInt(_, _, t) => is_number_type(t),
        Literal::Float(_, t) => is_number_type(t),
        _ => true,
    }
}

/// A literal written as Swift.
pub open spec fn swift_literal(l: Literal) -> Seq<char> {
    match l {
        Literal::Boolean(v) => if v {
            "true"@
        } else {
            "false"@
        },
        Literal::String(s) => "\""@ + s@ + "\""@,
        Literal::Null => "nil"@,
        Literal::EmptySequence => "[]"@,
        Literal::EmptyMap => "[:]"@,
        Literal::Enum(v, _) => "."@ + lower_camel_case(v@),
        Literal::Int(i, radix, t) => typed_number_text(t, int_text(i as int, radix)),
        Literal::UInt(u, radix, t) => typed_number_text(t, uint_text(u as nat, radix)),
        Literal::Float(text, t) => typed_number_text(t, text@),
    }
}

/// Writes a number as a value of the given number type.
pub fn typed_number(type_: &Type, num_str: String) -> (res: String)
    requires
        is_number_type(*type_),
    ensures
        res@ == typed_number_text(*type_, num_str@),
{
    match type_ {
        // special case Int32.
        Type::Int32 => num_str,
        // otherwise use constructor e.g. UInt8(x)
        _ => {
            let mut s = type_swift(type_);
            push_str(&mut s, "(");
            push_str(&mut s, num_str.as_str());
            push_str(&mut s, ")");
            s
        },
    }
}

/// Render a literal value for Swift code.
pub fn literal_swift(literal: &Literal) -> (res: String)
    requires
        renderable_literal(*literal),
    ensures
        res@ == swift_literal(*literal),
{
    match literal {
        Literal::Boolean(v) => if *v {
            owned("true")
        } else {
            owned("false")
        },
        Literal::String(s) => {
            let mut r = owned("\"");
            push_str(&mut r, s.as_str());
            push_str(&mut r, "\"");
            r
        },
        Literal::Null => owned("nil"),
        Literal::EmptySequence => owned("[]"),
        Literal::EmptyMap => owned("[:]"),
        Literal::Enum(v, _) => {
            let mut r = owned(".");
            push_str(&mut r, enum_variant_swift(v.as_str()).as_str());
            r
        },
        Literal::Int(i, radix, type_) => typed_number(type_, render_int(*i, *radix)),
        Literal::UInt(u, radix, type_) => typed_number(type_, render_uint(*u, *radix)),
        Literal::Float(string, type_) => typed_number(type_, string.clone()),
    }
}

/// Lower a Swift value into an FFI value.
///
/// This is used to pass arguments over the FFI, from Swift to Rust.
pub fn lower_swift(name: &str, type_: &Type) -> (res: String)
    ensures
        res@ == lower_camel_case(name@) + ".lower()"@,
{
    let mut s = var_name_swift(name);
    push_str(&mut s, ".lower()");
    s
}

/// Lift a Swift value from an FFI value.
///
/// This is used to receive values over the FFI, from Rust to Swift.
pub fn lift_swift(name: &str, type_: &Type) -> (res: String)
    ensures
        res@ == swift_type(*type_) + ".lift("@ + name@ + ")"@,
{
    let mut s = type_swift(type_);
    push_str(&mut s, ".lift(");
    push_str(&mut s, name);
    push_str(&mut s, ")");
    s
}

/// Read a Swift value from a byte buffer.
///
/// This is used to receive values over the FFI, when they're part of a complex type
/// that is passed by serializing into bytes.
pub fn read_swift(name: &str, type_: &Type) -> (res: String)
    ensures
        res@ == swift_type(*type_) + ".read(from: "@ + name@ + ")"@,
{
    let mut s = type_swift(type_);
    push_str(&mut s, ".read(from: ");
    push_str(&mut s, name);
    push_str(&mut s, ")");
    s
}

/// Render the idiomatic Swift casing for the name of an enum variant.
pub fn enum_variant_swift(nm: &str) -> (res: String)
    ensures
        res@ == lower_camel_case(nm@),
{
    to_lower_camel_case(nm)
}

/// Render the idiomatic Swift casing for the name of a class.
pub fn class_name_swift(nm: &str) -> (res: String)
    ensures
        res@ == upper_camel_case(nm@),
{
    to_upper_camel_case(nm)
}

/// Render the idiomatic Swift casing for the name of a function.
pub fn fn_name_swift(nm: &str) -> (res: String)
    ensures
        res@ == lower_camel_case(nm@),
{
    to_lower_camel_case(nm)
}

/// Render the idiomatic Swift casing for the name of a variable.
pub fn var_name_swift(nm: &str) -> (res: String)
    ensures
        res@ == lower_camel_case(nm@),
{
    to_lower_camel_case(nm)
}

} // verus!
