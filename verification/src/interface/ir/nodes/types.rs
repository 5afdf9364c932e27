//! Type definitions of the bindings IR.
//!
//! Foreign bindings will typically define an FFI converter for these and a class for types like
//! Record, Enum, and Object.

use vstd::prelude::*;

use super::ffi::FfiFunctionRef;
use crate::interface::types::{defined_name, same_type, FFIType, Type as MetaType};
use crate::text::{owned, push_str};

verus! {

/// A type as the IR stores it: the type itself, the FFI type it is lowered
/// to, and whether it is used as the error half of a result.
#[derive(Debug)]
pub struct Type {
    pub kind: MetaType,
    /// FFI type for this type
    pub ffi_type: FFIType,
    /// Was this type used as the error half of a result for any function/method?
    pub is_used_as_error: bool,
}

impl Type {
    /// Unique name for this type, used as a key and as a base name for helpers.
    pub fn canonical_name(&self) -> (res: String)
        ensures
            res@ == ir_name(self.kind),
    {
        ir_type_name(&self.kind)
    }
}

/// An individual field of a record or of an enum variant.
#[derive(Debug)]
pub struct Field {
    pub name: String,
    pub ty: Type,
    pub docstring: Option<String>,
}

/// An argument of a callable.
#[derive(Debug)]
pub struct Argument {
    pub name: String,
    pub ty: Type,
}

/// A method of an interface or of a callback interface.
#[derive(Debug)]
pub struct Method {
    pub name: String,
    /// The type of the interface the method belongs to.
    pub interface: Type,
    pub arguments: Vec<Argument>,
    pub return_type: Option<Type>,
    pub throws_type: Option<Type>,
    pub docstring: Option<String>,
}

/// A constructor of an interface; the primary one is named `new`.
#[derive(Debug)]
pub struct Constructor {
    pub name: String,
    pub primary: bool,
    /// The type of the interface the constructor builds.
    pub interface: Type,
    pub arguments: Vec<Argument>,
    pub throws_type: Option<Type>,
    pub docstring: Option<String>,
}

/// A top-level function.
#[derive(Debug)]
pub struct Function {
    pub name: String,
    pub module: String,
    pub arguments: Vec<Argument>,
    pub return_type: Option<Type>,
    pub throws_type: Option<Type>,
    pub docstring: Option<String>,
}

/// A "data class" style object, passed by value.
#[derive(Debug)]
pub struct Record {
    pub name: String,
    pub module: String,
    pub remote: bool,
    pub fields: Vec<Field>,
    pub docstring: Option<String>,
    pub self_type: Type,
}

/// An individual variant of an enum.
#[derive(Debug)]
pub struct Variant {
    pub name: String,
    pub fields: Vec<Field>,
    pub docstring: Option<String>,
}

/// An enum with named variants, each of which may have named and typed fields.
#[derive(Debug)]
pub struct Enum {
    pub name: String,
    pub module: String,
    pub remote: bool,
    pub variants: Vec<Variant>,
    pub non_exhaustive: bool,
    pub docstring: Option<String>,
    pub self_type: Type,
}

/// An exported interface, passed by reference.
#[derive(Debug)]
pub struct Interface {
    pub name: String,
    pub module: String,
    pub remote: bool,
    pub constructors: Vec<Constructor>,
    pub methods: Vec<Method>,
    /// The traits which this object has declared it implements.
    pub trait_impls: Vec<String>,
    /// FFI function to clone a pointer for this object
    pub ffi_clone: FfiFunctionRef,
    /// FFI function to free a pointer for this object
    pub ffi_free: FfiFunctionRef,
    pub docstring: Option<String>,
    pub self_type: Type,
}

/// An interface implemented on the foreign side of the FFI.
#[derive(Debug)]
pub struct CallbackInterface {
    pub name: String,
    pub module: String,
    pub methods: Vec<Method>,
    pub docstring: Option<String>,
    pub self_type: Type,
}

/// Optional type.
#[derive(Debug)]
pub struct OptionalType {
    pub inner: Type,
    pub self_type: Type,
}

/// Sequence type.
#[derive(Debug)]
pub struct SequenceType {
    pub inner: Type,
    pub self_type: Type,
}

/// Map type: its keys are strings.
#[derive(Debug)]
pub struct MapType {
    pub key: Type,
    pub value: Type,
    pub self_type: Type,
}

/// Type definitions.
#[derive(Debug)]
pub enum TypeDefinition {
    /// Builtin types that don't contain other types
    Simple(Type),
    Optional(OptionalType),
    Sequence(SequenceType),
    MapOf(MapType),
    Record(Record),
    Enum(Enum),
    Interface(Interface),
    CallbackInterface(CallbackInterface),
}

impl TypeDefinition {
    /// The type that the definition defines.
    pub open spec fn self_kind(&self) -> MetaType {
        match self {
            TypeDefinition::Simple(t) => t.kind,
            TypeDefinition::Optional(o) => o.self_type.kind,
            TypeDefinition::Sequence(s) => s.self_type.kind,
            TypeDefinition::MapOf(m) => m.self_type.kind,
            TypeDefinition::Record(r) => r.self_type.kind,
            TypeDefinition::Enum(e) => e.self_type.kind,
            TypeDefinition::Interface(i) => i.self_type.kind,
            TypeDefinition::CallbackInterface(c) => c.self_type.kind,
        }
    }

    /// The definition's name: the IR name of the type it defines.
    pub open spec fn name_view(&self) -> Seq<char> {
        ir_name(self.self_kind())
    }

    pub fn canonical_name(&self) -> (res: String)
        ensures
            res@ == self.name_view(),
    {
        match self {
            TypeDefinition::Simple(t) => t.canonical_name(),
            TypeDefinition::Optional(o) => o.self_type.canonical_name(),
            TypeDefinition::Sequence(s) => s.self_type.canonical_name(),
            TypeDefinition::MapOf(m) => m.self_type.canonical_name(),
            TypeDefinition::Record(r) => r.self_type.canonical_name(),
            TypeDefinition::Enum(e) => e.self_type.canonical_name(),
            TypeDefinition::Interface(i) => i.self_type.canonical_name(),
            TypeDefinition::CallbackInterface(c) => c.self_type.canonical_name(),
        }
    }
}


/// The name that the IR gives a type: builtin types by their plain names,
/// named types `Type` and the name, and recursive types prefixing the names of
/// their inner types; a map's key type is always `String`.
pub open spec fn ir_name(t: MetaType) -> Seq<char>
    decreases t,
{
    match t {
        MetaType::UInt8 => "UInt8"@,
        MetaType::Int8 => "Int8"@,
        MetaType::UInt16 => "UInt16"@,
        MetaType::Int16 => "Int16"@,
        MetaType::UInt32 => "UInt32"@,
        MetaType::Int32 => "Int32"@,
        MetaType::UInt64 => "UInt64"@,
        MetaType::Int64 => "Int64"@,
        MetaType::Float32 => "Float32"@,
        MetaType::Float64 => "Float64"@,
        MetaType::Boolean => "Boolean"@,
        MetaType::String => "String"@,
        MetaType::Timestamp => "Timestamp"@,
        MetaType::Duration => "Duration"@,
        MetaType::Object(n) => "Type"@ + n@,
        MetaType::Record(n) => "Type"@ + n@,
        MetaType::Enum(n) => "Type"@ + n@,
        MetaType::Error(n) => "Type"@ + n@,
        MetaType::CallbackInterface(n) => "Type"@ + n@,
        MetaType::Optional(inner) => "Optional"@ + ir_name(*inner),
        MetaType::Sequence(inner) => "Sequence"@ + ir_name(*inner),
        MetaType::MapOf(value) => "MapString"@ + ir_name(*value),
    }
}

fn prefixed(prefix: &str, name: &str) -> (res: String)
    ensures
        res@ == prefix@ + name@,
{
    let mut s = owned(prefix);
    push_str(&mut s, name);
    s
}

/// The name that the IR gives a type.
pub fn ir_type_name(t: &MetaType) -> (res: String)
    ensures
        res@ == ir_name(*t),
    decreases t,
{
    match t {
        MetaType::UInt8 => owned("UInt8"),
        MetaType::Int8 => owned("Int8"),
        MetaType::UInt16 => owned("UInt16"),
        MetaType::Int16 => owned("Int16"),
        MetaType::UInt32 => owned("UInt32"),
        MetaType::Int32 => owned("Int32"),
        MetaType::UInt64 => owned("UInt64"),
        MetaType::Int64 => owned("Int64"),
        MetaType::Float32 => owned("Float32"),
        MetaType::Float64 => owned("Float64"),
        MetaType::Boolean => owned("Boolean"),
        MetaType::String => owned("String"),
        MetaType::Timestamp => owned("Timestamp"),
        MetaType::Duration => owned("Duration"),
        MetaType::Object(n)
        | MetaType::Record(n)
        | MetaType::Enum(n)
        | MetaType::Error(n)
        | MetaType::CallbackInterface(n) => prefixed("Type", n.as_str()),
        MetaType::Optional(inner) => prefixed("Optional", ir_type_name(inner).as_str()),
        MetaType::Sequence(inner) => prefixed("Sequence", ir_type_name(inner).as_str()),
        MetaType::MapOf(value) => prefixed("MapString", ir_type_name(value).as_str()),
    }
}

/// Two types that the IR cannot tell apart: of the same shape, named types
/// having the same names, whatever their kinds.
pub open spec fn named_alike(a: MetaType, b: MetaType) -> bool
    decreases a,
{
    match (a, b) {
        (MetaType::Optional(x), MetaType::Optional(y)) => named_alike(*x, *y),
        (MetaType::Sequence(x), MetaType::Sequence(y)) => named_alike(*x, *y),
        (MetaType::MapOf(x), MetaType::MapOf(y)) => named_alike(*x, *y),
        _ => match (defined_name(a), defined_name(b)) {
            (Some(x), Some(y)) => x == y,
            (None, None) => same_type(a, b),
            _ => false,
        },
    }
}

proof fn reveal_ir_name_literals()
    ensures
        "UInt8"@ == seq!['U', 'I', 'n', 't', '8'],
        "Int8"@ == seq!['I', 'n', 't', '8'],
        "UInt16"@ == seq!['U', 'I', 'n', 't', '1', '6'],
        "Int16"@ == seq!['I', 'n', 't', '1', '6'],
        "UInt32"@ == seq!['U', 'I', 'n', 't', '3', '2'],
        "Int32"@ == seq!['I', 'n', 't', '3', '2'],
        "UInt64"@ == seq!['U', 'I', 'n', 't', '6', '4'],
        "Int64"@ == seq!['I', 'n', 't', '6', '4'],
        "Float32"@ == seq!['F', 'l', 'o', 'a', 't', '3', '2'],
        "Float64"@ == seq!['F', 'l', 'o', 'a', 't', '6', '4'],
        "Boolean"@ == seq!['B', 'o', 'o', 'l', 'e', 'a', 'n'],
        "String"@ == seq!['S', 't', 'r', 'i', 'n', 'g'],
        "Timestamp"@ == seq!['T', 'i', 'm', 'e', 's', 't', 'a', 'm', 'p'],
        "Duration"@ == seq!['D', 'u', 'r', 'a', 't', 'i', 'o', 'n'],
        "Type"@ == seq!['T', 'y', 'p', 'e'],
        "Optional"@ == seq!['O', 'p', 't', 'i', 'o', 'n', 'a', 'l'],
        "Sequence"@ == seq!['S', 'e', 'q', 'u', 'e', 'n', 'c', 'e'],
        "MapString"@ == seq!['M', 'a', 'p', 'S', 't', 'r', 'i', 'n', 'g'],
{
    reveal_strlit("UInt8");
    reveal_strlit("Int8");
    reveal_strlit("UInt16");
    reveal_strlit("Int16");
    reveal_strlit("UInt32");
    reveal_strlit("Int32");
    reveal_strlit("UInt64");
    reveal_strlit("Int64");
    reveal_strlit("Float32");
    reveal_strlit("Float64");
    reveal_strlit("Boolean");
    reveal_strlit("String");
    reveal_strlit("Timestamp");
    reveal_strlit("Duration");
    reveal_strlit("Type");
    reveal_strlit("Optional");
    reveal_strlit("Sequence");
    reveal_strlit("MapString");
    assert("UInt8"@ =~= seq!['U', 'I', 'n', 't', '8']);
    assert("Int8"@ =~= seq!['I', 'n', 't', '8']);
    assert("UInt16"@ =~= seq!['U', 'I', 'n', 't', '1', '6']);
    assert("Int16"@ =~= seq!['I', 'n', 't', '1', '6']);
    assert("UInt32"@ =~= seq!['U', 'I', 'n', 't', '3', '2']);
    assert("Int32"@ =~= seq!['I', 'n', 't', '3', '2']);
    assert("UInt64"@ =~= seq!['U', 'I', 'n', 't', '6', '4']);
    assert("Int64"@ =~= seq!['I', 'n', 't', '6', '4']);
    assert("Float32"@ =~= seq!['F', 'l', 'o', 'a', 't', '3', '2']);
    assert("Float64"@ =~= seq!['F', 'l', 'o', 'a', 't', '6', '4']);
    assert("Boolean"@ =~= seq!['B', 'o', 'o', 'l', 'e', 'a', 'n']);
    assert("String"@ =~= seq!['S', 't', 'r', 'i', 'n', 'g']);
    assert("Timestamp"@ =~= seq!['T', 'i', 'm', 'e', 's', 't', 'a', 'm', 'p']);
    assert("Duration"@ =~= seq!['D', 'u', 'r', 'a', 't', 'i', 'o', 'n']);
    assert("Type"@ =~= seq!['T', 'y', 'p', 'e']);
    assert("Optional"@ =~= seq!['O', 'p', 't', 'i', 'o', 'n', 'a', 'l']);
    assert("Sequence"@ =~= seq!['S', 'e', 'q', 'u', 'e', 'n', 'c', 'e']);
    assert("MapString"@ =~= seq!['M', 'a', 'p', 'S', 't', 'r', 'i', 'n', 'g']);
}

/// The first two characters of an IR name, which tell a kind apart.
proof fn lemma_ir_name_head(t: MetaType)
    ensures
        ir_name(t).len() >= 4,
        ir_name(t)[0] == match t {
            MetaType::UInt8 | MetaType::UInt16 | MetaType::UInt32 | MetaType::UInt64 => 'U',
            MetaType::Int8 | MetaType::Int16 | MetaType::Int32 | MetaType::Int64 => 'I',
            MetaType::Float32 | MetaType::Float64 => 'F',
            MetaType::Boolean => 'B',
            MetaType::String | MetaType::Sequence(_) => 'S',
            MetaType::Timestamp => 'T',
            MetaType::Duration => 'D',
            MetaType::Optional(_) => 'O',
            MetaType::MapOf(_) => 'M',
            _ => 'T',
        },
        t is String ==> ir_name(t)[1] == 't',
        t is Sequence ==> ir_name(t)[1] == 'e',
        t is Timestamp ==> ir_name(t)[1] == 'i',
        defined_name(t) is Some ==> ir_name(t)[1] == 'y',
    decreases t,
{
    reveal_ir_name_literals();
    match t {
        MetaType::Optional(x) => lemma_ir_name_head(*x),
        MetaType::Sequence(x) => lemma_ir_name_head(*x),
        MetaType::MapOf(x) => lemma_ir_name_head(*x),
        _ => {},
    }
}

/// The IR names types apart, but for named types of one name and different kinds.
pub proof fn lemma_ir_name_unique(a: MetaType, b: MetaType)
    requires
        ir_name(a) == ir_name(b),
    ensures
        named_alike(a, b),
    decreases a,
{
    reveal_ir_name_literals();
    lemma_ir_name_head(a);
    lemma_ir_name_head(b);
    let na = ir_name(a);
    let nb = ir_name(b);
    assert(na[0] == nb[0] && na[1] == nb[1] && na.len() == nb.len());
    match (a, b) {
        (MetaType::Optional(x), MetaType::Optional(y)) => {
            assert(ir_name(*x) =~= na.subrange(8, na.len() as int));
            assert(ir_name(*y) =~= na.subrange(8, na.len() as int));
            lemma_ir_name_unique(*x, *y);
        },
        (MetaType::Sequence(x), MetaType::Sequence(y)) => {
            assert(ir_name(*x) =~= na.subrange(8, na.len() as int));
            assert(ir_name(*y) =~= na.subrange(8, na.len() as int));
            lemma_ir_name_unique(*x, *y);
        },
        (MetaType::MapOf(x), MetaType::MapOf(y)) => {
            assert(ir_name(*x) =~= na.subrange(9, na.len() as int));
            assert(ir_name(*y) =~= na.subrange(9, na.len() as int));
            lemma_ir_name_unique(*x, *y);
        },
        _ => {
            if defined_name(a) is Some && defined_name(b) is Some {
                assert(defined_name(a)->0 =~= na.subrange(4, na.len() as int));
                assert(defined_name(b)->0 =~= na.subrange(4, na.len() as int));
            } else {
                assert(na[2] == nb[2] && na[3] == nb[3]);
                if na.len() > 4 {
                    assert(na[4] == nb[4]);
                }
                if na.len() > 5 {
                    assert(na[5] == nb[5]);
                }
            }
        },
    }
}

} // verus!
