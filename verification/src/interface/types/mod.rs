//! # Basic typesystem for defining a component interface.
//!
//! Our typesystem operates at two distinct levels: "API-level types" and "FFI-level types".
//!
//! The [Type] enum represents high-level types that would appear in the public API of
//! a component, such as enums and records as well as primitives like ints and strings.
//!
//! The [FFIType] enum represents low-level types that are used internally by our generated
//! code for passing data back and forth across the C-style FFI between rust and the foreign
//! language.
//!
//! The set of all [Type]s used in a component interface is represented by a [TypeUniverse],
//! which can be used by the bindings generator code to determine what type-related helper
//! functions to emit for a given component.

use vstd::prelude::*;

use crate::text::{owned, push_str, str_eq};

pub mod dispatch;
pub mod finder;
pub mod resolver;

verus! {

/// Represents the restricted set of low-level types that can be used to construct
/// the C-style FFI layer between a rust component and its foreign language bindings.
#[derive(Debug, Clone, Copy, PartialEq, Eq, Structural, Hash)]
pub enum FFIType {
    // N.B. there are no booleans at this layer, since they cause problems for JNA.
    UInt8,
    Int8,
    UInt16,
    Int16,
    UInt32,
    Int32,
    UInt64,
    Int64,
    Float32,
    Float64,
    /// A pointer to a rust-owned `Arc<T>`.
    RustArcPtr,
    /// A `char*` pointer belonging to a rust-owned CString.
    RustCString,
    /// A byte buffer allocated by rust, and owned by whoever currently holds it.
    RustBuffer,
    /// A borrowed reference to some raw bytes owned by foreign language code.
    ForeignBytes,
    /// Pointer to a callback function that handles all callbacks on the foreign language side.
    ForeignCallback,
    /// An error struct, containing a numberic error code and char* pointer to error string.
    RustError,
}

/// Represents all the different high-level types that can be used in a component interface.
/// At this level we identify user-defined types by name, without knowing any details
/// of their internal structure apart from what type of thing they are (record, enum, etc).
#[derive(Debug)]
pub enum Type {
    // Primitive types.
    UInt8,
    Int8,
    UInt16,
    Int16,
    UInt32,
    Int32,
    UInt64,
    Int64,
    Float32,
    Float64,
    Boolean,
    String,
    Timestamp,
    Duration,
    // Types defined in the component API, each of which has a string name.
    Object(String),
    Record(String),
    Enum(String),
    Error(String),
    CallbackInterface(String),
    // Structurally recursive types.
    Optional(Box<Type>),
    Sequence(Box<Type>),
    MapOf(Box<Type>),
}

/// Two types are the same: same kind, same names, same inner types.
pub open spec fn same_type(a: Type, b: Type) -> bool
    decreases a,
{
    match (a, b) {
        (Type::UInt8, Type::UInt8) => true,
        (Type::Int8, Type::Int8) => true,
        (Type::UInt16, Type::UInt16) => true,
        (Type::Int16, Type::Int16) => true,
        (Type::UInt32, Type::UInt32) => true,
        (Type::Int32, Type::Int32) => true,
        (Type::UInt64, Type::UInt64) => true,
        (Type::Int64, Type::Int64) => true,
        (Type::Float32, Type::Float32) => true,
        (Type::Float64, Type::Float64) => true,
        (Type::Boolean, Type::Boolean) => true,
        (Type::String, Type::String) => true,
        (Type::Timestamp, Type::Timestamp) => true,
        (Type::Duration, Type::Duration) => true,
        (Type::CallbackInterface(x), Type::CallbackInterface(y)) => x@ == y@,
        (Type::Object(x), Type::Object(y)) => x@ == y@,
        (Type::Record(x), Type::Record(y)) => x@ == y@,
        (Type::Enum(x), Type::Enum(y)) => x@ == y@,
        (Type::Error(x), Type::Error(y)) => x@ == y@,
        (Type::Optional(x), Type::Optional(y)) => same_type(*x, *y),
        (Type::Sequence(x), Type::Sequence(y)) => same_type(*x, *y),
        (Type::MapOf(x), Type::MapOf(y)) => same_type(*x, *y),
        _ => false,
    }
}

/// Structural equality of types.
pub fn types_equal(a: &Type, b: &Type) -> (res: bool)
    ensures
        res == same_type(*a, *b),
    decreases a,
{
    match (a, b) {
        (Type::UInt8, Type::UInt8) => true,
        (Type::Int8, Type::Int8) => true,
        (Type::UInt16, Type::UInt16) => true,
        (Type::Int16, Type::Int16) => true,
        (Type::UInt32, Type::UInt32) => true,
        (Type::Int32, Type::Int32) => true,
        (Type::UInt64, Type::UInt64) => true,
        (Type::Int64, Type::Int64) => true,
        (Type::Float32, Type::Float32) => true,
        (Type::Float64, Type::Float64) => true,
        (Type::Boolean, Type::Boolean) => true,
        (Type::String, Type::String) => true,
        (Type::Timestamp, Type::Timestamp) => true,
        (Type::Duration, Type::Duration) => true,
        (Type::CallbackInterface(x), Type::CallbackInterface(y)) => str_eq(x.as_str(), y.as_str()),
        (Type::Object(x), Type::Object(y)) => str_eq(x.as_str(), y.as_str()),
        (Type::Record(x), Type::Record(y)) => str_eq(x.as_str(), y.as_str()),
        (Type::Enum(x), Type::Enum(y)) => str_eq(x.as_str(), y.as_str()),
        (Type::Error(x), Type::Error(y)) => str_eq(x.as_str(), y.as_str()),
        (Type::Optional(x), Type::Optional(y)) => types_equal(x, y),
        (Type::Sequence(x), Type::Sequence(y)) => types_equal(x, y),
        (Type::MapOf(x), Type::MapOf(y)) => types_equal(x, y),
        _ => false,
    }
}

impl Clone for Type {
    fn clone(&self) -> (res: Self)
        ensures
            res == *self,
        decreases self,
    {
        match self {
            Type::UInt8 => Type::UInt8,
            Type::Int8 => Type::Int8,
            Type::UInt16 => Type::UInt16,
            Type::Int16 => Type::Int16,
            Type::UInt32 => Type::UInt32,
            Type::Int32 => Type::Int32,
            Type::UInt64 => Type::UInt64,
            Type::Int64 => Type::Int64,
            Type::Float32 => Type::Float32,
            Type::Float64 => Type::Float64,
            Type::Boolean => Type::Boolean,
            Type::String => Type::String,
            Type::Timestamp => Type::Timestamp,
            Type::Duration => Type::Duration,
            Type::CallbackInterface(nm) => Type::CallbackInterface(nm.clone()),
            Type::Object(nm) => Type::Object(nm.clone()),
            Type::Record(nm) => Type::Record(nm.clone()),
            Type::Enum(nm) => Type::Enum(nm.clone()),
            Type::Error(nm) => Type::Error(nm.clone()),
            Type::Optional(t) => Type::Optional(Box::new((**t).clone())),
            Type::Sequence(t) => Type::Sequence(Box::new((**t).clone())),
            Type::MapOf(t) => Type::MapOf(Box::new((**t).clone())),
        }
    }
}

impl PartialEq for Type {
    fn eq(&self, other: &Self) -> (res: bool) {
        types_equal(self, other)
    }
}

impl vstd::std_specs::cmp::PartialEqSpecImpl for Type {
    open spec fn obeys_eq_spec() -> bool {
        true
    }

    open spec fn eq_spec(&self, other: &Self) -> bool {
        same_type(*self, *other)
    }
}

/// The FFI type that a value of the given type is lowered into when passed
/// across the FFI.
pub open spec fn lowered(t: Type) -> FFIType {
    match t {
        Type::UInt8 => FFIType::UInt8,
        Type::Int8 => FFIType::Int8,
        Type::UInt16 => FFIType::UInt16,
        Type::Int16 => FFIType::Int16,
        Type::UInt32 => FFIType::UInt32,
        Type::Int32 => FFIType::Int32,
        Type::UInt64 => FFIType::UInt64,
        Type::Int64 => FFIType::Int64,
        Type::Float32 => FFIType::Float32,
        Type::Float64 => FFIType::Float64,
        Type::Boolean => FFIType::Int8,
        Type::String => FFIType::RustBuffer,
        Type::Timestamp => FFIType::RustBuffer,
        Type::Duration => FFIType::RustBuffer,
        Type::CallbackInterface(_) => FFIType::UInt64,
        Type::Object(_) => FFIType::UInt64,
        Type::Enum(_) => FFIType::UInt32,
        Type::Error(_) => FFIType::RustError,
        Type::Record(_) => FFIType::RustBuffer,
        Type::Optional(_) => FFIType::RustBuffer,
        Type::Sequence(_) => FFIType::RustBuffer,
        Type::MapOf(_) => FFIType::RustBuffer,
    }
}

/// Records are serialized across the FFI: they lower to a `RustBuffer`, as
/// strings, optionals, sequences and maps do.
pub proof fn lemma_serialized_types_lower_to_buffers(name: String, inner: Type)
    ensures
        lowered(Type::Record(name)) == FFIType::RustBuffer,
        lowered(Type::Record(name)) == lowered(Type::String),
        lowered(Type::Record(name)) == lowered(Type::Optional(Box::new(inner))),
        lowered(Type::Record(name)) == lowered(Type::Sequence(Box::new(inner))),
        lowered(Type::Record(name)) == lowered(Type::MapOf(Box::new(inner))),
{
}

/// Only objects and callback interfaces lower to `UInt64` handles, besides
/// `u64` itself.
pub proof fn lemma_only_handles_lower_to_u64(t: Type)
    ensures
        lowered(t) == FFIType::UInt64 <==> (t is UInt64 || t is Object || t is CallbackInterface),
{
}

/// The canonical, unique-within-this-component name for a type: builtin
/// types keep their plain names, named types get a prefix for their kind, and
/// recursive types prefix the name of their inner type.
pub open spec fn canonical(t: Type) -> Seq<char>
    decreases t,
{
    match t {
        Type::Int8 => "i8"@,
        Type::UInt8 => "u8"@,
        Type::Int16 => "i16"@,
        Type::UInt16 => "u16"@,
        Type::Int32 => "i32"@,
        Type::UInt32 => "u32"@,
        Type::Int64 => "i64"@,
        Type::UInt64 => "u64"@,
        Type::Float32 => "f32"@,
        Type::Float64 => "f64"@,
        Type::String => "string"@,
        Type::Boolean => "bool"@,
        Type::Timestamp => "Timestamp"@,
        Type::Duration => "Duration"@,
        Type::CallbackInterface(nm) => "CallbackInterface"@ + nm@,
        Type::Object(nm) => "Object"@ + nm@,
        Type::Error(nm) => "Error"@ + nm@,
        Type::Enum(nm) => "Enum"@ + nm@,
        Type::Record(nm) => "Record"@ + nm@,
        Type::Optional(inner) => "Optional"@ + canonical(*inner),
        Type::Sequence(inner) => "Sequence"@ + canonical(*inner),
        Type::MapOf(inner) => "Map"@ + canonical(*inner),
    }
}

fn prefixed(prefix: &str, name: &str) -> (res: String)
    ensures
        res@ == prefix@ + name@,
{
    let mut s = owned(prefix);
    push_str(&mut s, name);
    s
}

impl Type {
    pub fn to_ffi(&self) -> (res: FFIType)
        ensures
            res == lowered(*self),
    {
        match self {
            Type::UInt8 => FFIType::UInt8,
            Type::Int8 => FFIType::Int8,
            Type::UInt16 => FFIType::UInt16,
            Type::Int16 => FFIType::Int16,
            Type::UInt32 => FFIType::UInt32,
            Type::Int32 => FFIType::Int32,
            Type::UInt64 => FFIType::UInt64,
            Type::Int64 => FFIType::Int64,
            Type::Float32 => FFIType::Float32,
            Type::Float64 => FFIType::Float64,
            // Booleans lower into an Int8, to work around a bug in JNA.
            Type::Boolean => FFIType::Int8,
            // Strings are always owned rust values.
            Type::String => FFIType::RustBuffer,
            // Times are serialized into a bytebuffer.
            Type::Timestamp | Type::Duration => FFIType::RustBuffer,
            // Objects and callback interfaces are passed as opaque integer handles.
            Type::Object(_) | Type::CallbackInterface(_) => FFIType::UInt64,
            // Enums are passed as integers.
            Type::Enum(_) => FFIType::UInt32,
            // Errors have their own special type.
            Type::Error(_) => FFIType::RustError,
            // Other types are serialized into a bytebuffer and deserialized on the other side.
            Type::Record(_) | Type::Optional(_) | Type::Sequence(_) | Type::MapOf(_) => {
                FFIType::RustBuffer
            },
        }
    }

    /// Get the canonical, unique-within-this-component name for a type.
    pub fn canonical_name(&self) -> (res: String)
        ensures
            res@ == canonical(*self),
        decreases self,
    {
        match self {
            Type::Int8 => owned("i8"),
            Type::UInt8 => owned("u8"),
            Type::Int16 => owned("i16"),
            Type::UInt16 => owned("u16"),
            Type::Int32 => owned("i32"),
            Type::UInt32 => owned("u32"),
            Type::Int64 => owned("i64"),
            Type::UInt64 => owned("u64"),
            Type::Float32 => owned("f32"),
            Type::Float64 => owned("f64"),
            Type::String => owned("string"),
            Type::Boolean => owned("bool"),
            Type::Timestamp => owned("Timestamp"),
            Type::Duration => owned("Duration"),
            Type::CallbackInterface(nm) => prefixed("CallbackInterface", nm.as_str()),
            Type::Object(nm) => prefixed("Object", nm.as_str()),
            Type::Error(nm) => prefixed("Error", nm.as_str()),
            Type::Enum(nm) => prefixed("Enum", nm.as_str()),
            Type::Record(nm) => prefixed("Record", nm.as_str()),
            Type::Optional(t) => prefixed("Optional", t.canonical_name().as_str()),
            Type::Sequence(t) => prefixed("Sequence", t.canonical_name().as_str()),
            Type::MapOf(t) => prefixed("Map", t.canonical_name().as_str()),
        }
    }
}


proof fn reveal_type_name_literals()
    ensures
        "i8"@ == seq!['i', '8'],
        "u8"@ == seq!['u', '8'],
        "i16"@ == seq!['i', '1', '6'],
        "u16"@ == seq!['u', '1', '6'],
        "i32"@ == seq!['i', '3', '2'],
        "u32"@ == seq!['u', '3', '2'],
        "i64"@ == seq!['i', '6', '4'],
        "u64"@ == seq!['u', '6', '4'],
        "f32"@ == seq!['f', '3', '2'],
        "f64"@ == seq!['f', '6', '4'],
        "string"@ == seq!['s', 't', 'r', 'i', 'n', 'g'],
        "bool"@ == seq!['b', 'o', 'o', 'l'],
        "Object"@ == seq!['O', 'b', 'j', 'e', 'c', 't'],
        "Error"@ == seq!['E', 'r', 'r', 'o', 'r'],
        "Enum"@ == seq!['E', 'n', 'u', 'm'],
        "Record"@ == seq!['R', 'e', 'c', 'o', 'r', 'd'],
        "Optional"@ == seq!['O', 'p', 't', 'i', 'o', 'n', 'a', 'l'],
        "Sequence"@ == seq!['S', 'e', 'q', 'u', 'e', 'n', 'c', 'e'],
        "Map"@ == seq!['M', 'a', 'p'],
        "Timestamp"@ == seq!['T', 'i', 'm', 'e', 's', 't', 'a', 'm', 'p'],
        "Duration"@ == seq!['D', 'u', 'r', 'a', 't', 'i', 'o', 'n'],
        "CallbackInterface"@ == seq!['C', 'a', 'l', 'l', 'b', 'a', 'c', 'k', 'I', 'n', 't', 'e', 'r', 'f', 'a', 'c', 'e'],
{
    reveal_strlit("i8");
    reveal_strlit("u8");
    reveal_strlit("i16");
    reveal_strlit("u16");
    reveal_strlit("i32");
    reveal_strlit("u32");
    reveal_strlit("i64");
    reveal_strlit("u64");
    reveal_strlit("f32");
    reveal_strlit("f64");
    reveal_strlit("string");
    reveal_strlit("bool");
    reveal_strlit("Object");
    reveal_strlit("Error");
    reveal_strlit("Enum");
    reveal_strlit("Record");
    reveal_strlit("Optional");
    reveal_strlit("Sequence");
    reveal_strlit("Map");
    reveal_strlit("Timestamp");
    reveal_strlit("Duration");
    reveal_strlit("CallbackInterface");
    assert("i8"@ =~= seq!['i', '8']);
    assert("u8"@ =~= seq!['u', '8']);
    assert("i16"@ =~= seq!['i', '1', '6']);
    assert("u16"@ =~= seq!['u', '1', '6']);
    assert("i32"@ =~= seq!['i', '3', '2']);
    assert("u32"@ =~= seq!['u', '3', '2']);
    assert("i64"@ =~= seq!['i', '6', '4']);
    assert("u64"@ =~= seq!['u', '6', '4']);
    assert("f32"@ =~= seq!['f', '3', '2']);
    assert("f64"@ =~= seq!['f', '6', '4']);
    assert("string"@ =~= seq!['s', 't', 'r', 'i', 'n', 'g']);
    assert("bool"@ =~= seq!['b', 'o', 'o', 'l']);
    assert("Object"@ =~= seq!['O', 'b', 'j', 'e', 'c', 't']);
    assert("Error"@ =~= seq!['E', 'r', 'r', 'o', 'r']);
    assert("Enum"@ =~= seq!['E', 'n', 'u', 'm']);
    assert("Record"@ =~= seq!['R', 'e', 'c', 'o', 'r', 'd']);
    assert("Optional"@ =~= seq!['O', 'p', 't', 'i', 'o', 'n', 'a', 'l']);
    assert("Sequence"@ =~= seq!['S', 'e', 'q', 'u', 'e', 'n', 'c', 'e']);
    assert("Map"@ =~= seq!['M', 'a', 'p']);
    assert("Timestamp"@ =~= seq!['T', 'i', 'm', 'e', 's', 't', 'a', 'm', 'p']);
    assert("Duration"@ =~= seq!['D', 'u', 'r', 'a', 't', 'i', 'o', 'n']);
    assert("CallbackInterface"@ =~= seq!['C', 'a', 'l', 'l', 'b', 'a', 'c', 'k', 'I', 'n', 't', 'e', 'r', 'f', 'a', 'c', 'e']);
}

/// The first two characters of a canonical name, which tell its kind apart
/// from every other kind.
proof fn lemma_canonical_head(t: Type)
    ensures
        canonical(t).len() >= 2,
        canonical(t)[0] == match t {
            Type::Int8 | Type::Int16 | Type::Int32 | Type::Int64 => 'i',
            Type::UInt8 | Type::UInt16 | Type::UInt32 | Type::UInt64 => 'u',
            Type::Float32 | Type::Float64 => 'f',
            Type::String => 's',
            Type::Boolean => 'b',
            Type::Object(_) | Type::Optional(_) => 'O',
            Type::Error(_) | Type::Enum(_) => 'E',
            Type::Record(_) => 'R',
            Type::Sequence(_) => 'S',
            Type::MapOf(_) => 'M',
            Type::Timestamp => 'T',
            Type::Duration => 'D',
            Type::CallbackInterface(_) => 'C',
        },
        t is Object ==> canonical(t)[1] == 'b',
        t is Optional ==> canonical(t)[1] == 'p',
        t is Error ==> canonical(t)[1] == 'r',
        t is Enum ==> canonical(t)[1] == 'n',
{
    reveal_type_name_literals();
}

/// Distinct types have distinct canonical names.
pub proof fn lemma_canonical_name_unique(a: Type, b: Type)
    requires
        canonical(a) == canonical(b),
    ensures
        same_type(a, b),
    decreases a,
{
    reveal_type_name_literals();
    lemma_canonical_head(a);
    lemma_canonical_head(b);
    let ca = canonical(a);
    match (a, b) {
        (Type::Object(x), Type::Object(y)) => {
            assert(x@ =~= ca.subrange(6, ca.len() as int));
            assert(y@ =~= ca.subrange(6, ca.len() as int));
        },
        (Type::Error(x), Type::Error(y)) => {
            assert(x@ =~= ca.subrange(5, ca.len() as int));
            assert(y@ =~= ca.subrange(5, ca.len() as int));
        },
        (Type::Enum(x), Type::Enum(y)) => {
            assert(x@ =~= ca.subrange(4, ca.len() as int));
            assert(y@ =~= ca.subrange(4, ca.len() as int));
        },
        (Type::Record(x), Type::Record(y)) => {
            assert(x@ =~= ca.subrange(6, ca.len() as int));
            assert(y@ =~= ca.subrange(6, ca.len() as int));
        },
        (Type::CallbackInterface(x), Type::CallbackInterface(y)) => {
            assert(x@ =~= ca.subrange(17, ca.len() as int));
            assert(y@ =~= ca.subrange(17, ca.len() as int));
        },
        (Type::Optional(x), Type::Optional(y)) => {
            assert(canonical(*x) =~= ca.subrange(8, ca.len() as int));
            assert(canonical(*y) =~= ca.subrange(8, ca.len() as int));
            lemma_canonical_name_unique(*x, *y);
        },
        (Type::Sequence(x), Type::Sequence(y)) => {
            assert(canonical(*x) =~= ca.subrange(8, ca.len() as int));
            assert(canonical(*y) =~= ca.subrange(8, ca.len() as int));
            lemma_canonical_name_unique(*x, *y);
        },
        (Type::MapOf(x), Type::MapOf(y)) => {
            assert(canonical(*x) =~= ca.subrange(3, ca.len() as int));
            assert(canonical(*y) =~= ca.subrange(3, ca.len() as int));
            lemma_canonical_name_unique(*x, *y);
        },
        _ => {
            assert(ca[0] == canonical(b)[0]);
            assert(ca[1] == canonical(b)[1]);
            assert(ca.len() == canonical(b).len());
            if ca.len() > 2 {
                assert(ca[2] == canonical(b)[2]);
            }
        },
    }
}


pub(crate) proof fn lemma_builtin_literals()
    ensures
        builtin_type("u8"@) == Some(Type::UInt8),
        builtin_type("u16"@) == Some(Type::UInt16),
        builtin_type("u32"@) == Some(Type::UInt32),
        builtin_type("u64"@) == Some(Type::UInt64),
        builtin_type("i8"@) == Some(Type::Int8),
        builtin_type("i16"@) == Some(Type::Int16),
        builtin_type("i32"@) == Some(Type::Int32),
        builtin_type("i64"@) == Some(Type::Int64),
        builtin_type("f32"@) == Some(Type::Float32),
        builtin_type("f64"@) == Some(Type::Float64),
        builtin_type("string"@) == Some(Type::String),
{
    reveal_type_name_literals();
}

/// The builtin type that a UDL identifier names, if any.
pub open spec fn builtin_type(name: Seq<char>) -> Option<Type> {
    if name == "string"@ {
        Some(Type::String)
    } else if name == "u8"@ {
        Some(Type::UInt8)
    } else if name == "i8"@ {
        Some(Type::Int8)
    } else if name == "u16"@ {
        Some(Type::UInt16)
    } else if name == "i16"@ {
        Some(Type::Int16)
    } else if name == "u32"@ {
        Some(Type::UInt32)
    } else if name == "i32"@ {
        Some(Type::Int32)
    } else if name == "u64"@ {
        Some(Type::UInt64)
    } else if name == "i64"@ {
        Some(Type::Int64)
    } else if name == "f32"@ {
        Some(Type::Float32)
    } else if name == "f64"@ {
        Some(Type::Float64)
    } else {
        None
    }
}

/// Resolve built-in API types by name.
///
/// Given an identifier from the UDL, this will return `Some(Type)` if it names one of the
/// built-in primitive types or `None` if it names something else.
pub fn resolve_builtin_type(name: &str) -> (res: Option<Type>)
    ensures
        res == builtin_type(name@),
{
    if str_eq(name, "string") {
        Some(Type::String)
    } else if str_eq(name, "u8") {
        Some(Type::UInt8)
    } else if str_eq(name, "i8") {
        Some(Type::Int8)
    } else if str_eq(name, "u16") {
        Some(Type::UInt16)
    } else if str_eq(name, "i16") {
        Some(Type::Int16)
    } else if str_eq(name, "u32") {
        Some(Type::UInt32)
    } else if str_eq(name, "i32") {
        Some(Type::Int32)
    } else if str_eq(name, "u64") {
        Some(Type::UInt64)
    } else if str_eq(name, "i64") {
        Some(Type::Int64)
    } else if str_eq(name, "f32") {
        Some(Type::Float32)
    } else if str_eq(name, "f64") {
        Some(Type::Float64)
    } else {
        None
    }
}

/// Why a type could not be added to a [TypeUniverse].
#[derive(Debug)]
pub enum TypeUniverseError {
    /// The name is that of a builtin type; the canonical name of the type
    /// that was to be defined under it comes second.
    ShadowsBuiltin { name: String, canonical_name: String },
    /// The name is already defined.
    Conflicting { name: String },
}

impl TypeUniverseError {
    pub open spec fn message_view(&self) -> Seq<char> {
        match self {
            TypeUniverseError::ShadowsBuiltin { name, canonical_name } => "please don't shadow builtin types ("@
                + name@ + ", "@ + canonical_name@ + ")"@,
            TypeUniverseError::Conflicting { name } => "Conflicting type definition for \""@ + name@
                + "\""@,
        }
    }

    /// The error's message.
    pub fn message(&self) -> (res: String)
        ensures
            res@ == self.message_view(),
    {
        match self {
            TypeUniverseError::ShadowsBuiltin { name, canonical_name } => {
                let mut s = owned("please don't shadow builtin types (");
                push_str(&mut s, name.as_str());
                push_str(&mut s, ", ");
                push_str(&mut s, canonical_name.as_str());
                push_str(&mut s, ")");
                s
            },
            TypeUniverseError::Conflicting { name } => {
                let mut s = owned("Conflicting type definition for \"");
                push_str(&mut s, name.as_str());
                push_str(&mut s, "\"");
                s
            },
        }
    }
}

/// Named definitions, in order of definition, as a map from name to type.
pub open spec fn definitions_of(defs: Seq<(String, Type)>) -> Map<Seq<char>, Type>
    decreases defs.len(),
{
    if defs.len() == 0 {
        Map::empty()
    } else {
        definitions_of(defs.drop_last()).insert(defs.last().0@, defs.last().1)
    }
}

pub open spec fn names_distinct(defs: Seq<(String, Type)>) -> bool {
    forall|i: int, j: int| 0 <= i < j < defs.len() ==> defs[i].0@ != defs[j].0@
}

/// No two of the types are the same.
pub open spec fn types_distinct(ts: Seq<Type>) -> bool {
    forall|i: int, j: int| 0 <= i < j < ts.len() ==> !same_type(ts[i], ts[j])
}

/// Some type of `ts` is the same as `t`.
pub open spec fn has_type(ts: Seq<Type>, t: Type) -> bool {
    exists|i: int| 0 <= i < ts.len() && same_type(ts[i], t)
}

/// The known types after `t` became known: unchanged where a type the same as
/// `t` was known already, else with `t` last.
pub open spec fn with_known(ts: Seq<Type>, t: Type) -> Seq<Type> {
    if has_type(ts, t) {
        ts
    } else {
        ts.push(t)
    }
}

proof fn lemma_definitions_of(defs: Seq<(String, Type)>)
    requires
        names_distinct(defs),
    ensures
        forall|i: int|
            0 <= i < defs.len() ==> definitions_of(defs).contains_key(#[trigger] defs[i].0@)
                && definitions_of(defs)[defs[i].0@] == defs[i].1,
        forall|k: Seq<char>|
            #[trigger] definitions_of(defs).contains_key(k) ==> exists|i: int|
                0 <= i < defs.len() && defs[i].0@ == k,
    decreases defs.len(),
{
    if defs.len() > 0 {
        let init = defs.drop_last();
        let last = defs.last();
        lemma_definitions_of(init);
        assert(definitions_of(defs) == definitions_of(init).insert(last.0@, last.1));
        assert forall|i: int|
            0 <= i < defs.len() implies definitions_of(defs).contains_key(#[trigger] defs[i].0@)
            && definitions_of(defs)[defs[i].0@] == defs[i].1 by {
            if i < defs.len() - 1 {
                assert(init[i] == defs[i]);
                assert(defs[i].0@ != last.0@);
            }
        }
        assert forall|k: Seq<char>| #[trigger]
            definitions_of(defs).contains_key(k) implies exists|i: int|
            0 <= i < defs.len() && defs[i].0@ == k by {
            if k == last.0@ {
                assert(defs[defs.len() - 1].0@ == k);
            } else {
                assert(definitions_of(init).contains_key(k));
                let i = choose|i: int| 0 <= i < init.len() && init[i].0@ == k;
                assert(init[i] == defs[i]);
                assert(defs[i].0@ == k);
            }
        }
    }
}


/// The name of a type that the component interface defines, if it is one.
pub open spec fn defined_name(t: Type) -> Option<Seq<char>> {
    match t {
        Type::Object(nm) => Some(nm@),
        Type::Record(nm) => Some(nm@),
        Type::Enum(nm) => Some(nm@),
        Type::Error(nm) => Some(nm@),
        Type::CallbackInterface(nm) => Some(nm@),
        _ => None,
    }
}

impl Type {
    /// The name of a type that the component interface defines, if it is one.
    pub fn name(&self) -> (res: Option<&str>)
        ensures
            match res {
                Some(n) => defined_name(*self) == Some(n@),
                None => defined_name(*self) is None,
            },
    {
        match self {
            Type::Object(nm)
            | Type::Record(nm)
            | Type::Enum(nm)
            | Type::Error(nm)
            | Type::CallbackInterface(nm) => Some(nm.as_str()),
            _ => None,
        }
    }
}

/// Whether a name is one of the names.
pub open spec fn named_in(names: Seq<String>, n: Seq<char>) -> bool {
    exists|i: int| 0 <= i < names.len() && #[trigger] names[i]@ == n
}

fn is_named_in(names: &[String], n: &str) -> (res: bool)
    ensures
        res == named_in(names@, n@),
{
    let mut i: usize = 0;
    while i < names.len()
        invariant
            i <= names@.len(),
            forall|j: int| 0 <= j < i ==> #[trigger] names@[j]@ != n@,
        decreases names.len() - i,
    {
        if str_eq(names[i].as_str(), n) {
            return true;
        }
        i = i + 1;
    }
    false
}

/// Whether a known type survives the removal of the names: it is not a
/// defined type of one of them.
pub open spec fn survives(names: Seq<String>, t: Type) -> bool {
    match defined_name(t) {
        Some(n) => !named_in(names, n),
        None => true,
    }
}

/// The set of all possible types used in a particular component interface,
/// with the named type definitions (including aliases).
pub struct TypeUniverse {
    // Named type definitions (including aliases).
    type_definitions: Vec<(String, Type)>,
    // All the types in the universe.
    all_known_types: Vec<Type>,
}

impl TypeUniverse {
    /// Named definitions: from name to type.
    pub closed spec fn definitions(&self) -> Map<Seq<char>, Type> {
        definitions_of(self.type_definitions@)
    }

    /// All known types, each once, in the order they became known.
    pub closed spec fn known_types(&self) -> Seq<Type> {
        self.all_known_types@
    }

    pub closed spec fn wf(&self) -> bool {
        &&& names_distinct(self.type_definitions@)
        &&& types_distinct(self.all_known_types@)
        &&& forall|i: int|
            0 <= i < self.type_definitions@.len() ==> builtin_type(
                #[trigger] self.type_definitions@[i].0@,
            ) is None
    }

    /// No builtin type's name is defined.
    pub proof fn lemma_no_builtin_definitions(&self)
        requires
            self.wf(),
        ensures
            forall|k: Seq<char>| #[trigger] self.definitions().contains_key(k) ==> builtin_type(k) is None,
    {
        lemma_definitions_of(self.type_definitions@);
        assert forall|k: Seq<char>| #[trigger] self.definitions().contains_key(k) implies builtin_type(k) is None by {
            let i = choose|i: int| 0 <= i < self.type_definitions@.len() && self.type_definitions@[i].0@ == k;
            assert(builtin_type(self.type_definitions@[i].0@) is None);
        }
    }

    pub fn new() -> (res: Self)
        ensures
            res.wf(),
            res.definitions() == Map::<Seq<char>, Type>::empty(),
            res.known_types() == Seq::<Type>::empty(),
    {
        TypeUniverse { type_definitions: Vec::new(), all_known_types: Vec::new() }
    }

    /// Add the definition of a named [Type].
    ///
    /// This will fail if you try to shadow a builtin type, or to add a name for which an
    /// existing type definition exists. Unless the name shadows a builtin
    /// type, the type becomes known, even where the name conflicts.
    pub fn add_type_definition(&mut self, name: &str, type_: Type) -> (res: Result<
        (),
        TypeUniverseError,
    >)
        requires
            old(self).wf(),
        ensures
            final(self).wf(),
            builtin_type(name@) is Some ==> {
                &&& res matches Err(TypeUniverseError::ShadowsBuiltin { name: n, canonical_name: c })
                &&& n@ == name@
                &&& c@ == canonical(type_)
                &&& final(self).definitions() == old(self).definitions()
                &&& final(self).known_types() == old(self).known_types()
            },
            builtin_type(name@) is None ==> {
                &&& has_type(final(self).known_types(), type_)
                &&& (has_type(old(self).known_types(), type_) ==> final(self).known_types()
                    == old(self).known_types())
                &&& (!has_type(old(self).known_types(), type_) ==> final(self).known_types()
                    == old(self).known_types().push(type_))
                &&& old(self).definitions().contains_key(name@) ==> {
                    &&& res matches Err(TypeUniverseError::Conflicting { name: n })
                    &&& n@ == name@
                    &&& final(self).definitions() == old(self).definitions()
                }
                &&& !old(self).definitions().contains_key(name@) ==> {
                    &&& res is Ok
                    &&& final(self).definitions() == old(self).definitions().insert(name@, type_)
                }
            },
    {
        if resolve_builtin_type(name).is_some() {
            return Err(
                TypeUniverseError::ShadowsBuiltin {
                    name: owned(name),
                    canonical_name: type_.canonical_name(),
                },
            );
        }
        let type_ = match self.add_known_type(type_) {
            Ok(t) => t,
            Err(e) => {
                return Err(e);
            },
        };
        proof {
            lemma_definitions_of(self.type_definitions@);
        }
        if let Some(i) = self.find_definition(name) {
            assert(self.type_definitions@[i as int].0@ == name@);
            return Err(TypeUniverseError::Conflicting { name: owned(name) });
        }
        let ghost before = self.type_definitions@;
        self.type_definitions.push((owned(name), type_));
        proof {
            assert(self.type_definitions@.drop_last() =~= before);
        }
        Ok(())
    }

    /// Get the [Type] corresponding to a given name, if any.
    pub fn get_type_definition(&self, name: &str) -> (res: Option<Type>)
        requires
            self.wf(),
        ensures
            match res {
                Some(t) => self.definitions().contains_key(name@) && self.definitions()[name@]
                    == t,
                None => !self.definitions().contains_key(name@),
            },
    {
        proof {
            lemma_definitions_of(self.type_definitions@);
        }
        match self.find_definition(name) {
            Some(i) => {
                assert(self.type_definitions@[i as int].0@ == name@);
                Some(self.type_definitions[i].1.clone())
            },
            None => None,
        }
    }

    /// The position of the definition of the given name, if there is one.
    fn find_definition(&self, name: &str) -> (res: Option<usize>)
        ensures
            match res {
                Some(i) => i < self.type_definitions@.len() && self.type_definitions@[i as int].0@
                    == name@,
                None => forall|j: int|
                    0 <= j < self.type_definitions@.len() ==> self.type_definitions@[j].0@ != name@,
            },
    {
        let mut i: usize = 0;
        while i < self.type_definitions.len()
            invariant
                i <= self.type_definitions@.len(),
                forall|j: int| 0 <= j < i ==> self.type_definitions@[j].0@ != name@,
            decreases self.type_definitions.len() - i,
        {
            if str_eq(self.type_definitions[i].0.as_str(), name) {
                return Some(i);
            }
            i = i + 1;
        }
        None
    }

    /// Check if a [Type] is present
    pub fn contains(&self, type_: &Type) -> (res: bool)
        ensures
            res == has_type(self.known_types(), *type_),
    {
        let mut i: usize = 0;
        while i < self.all_known_types.len()
            invariant
                i <= self.all_known_types@.len(),
                forall|j: int| 0 <= j < i ==> !same_type(self.all_known_types@[j], *type_),
            decreases self.all_known_types.len() - i,
        {
            if types_equal(&self.all_known_types[i], type_) {
                return true;
            }
            i = i + 1;
        }
        false
    }

    /// Add a [Type] to the set of all types seen in the component interface.
    ///
    /// This returns the type it was given, so that it can be chained in with
    /// other methods during the type resolution process.
    pub fn add_known_type(&mut self, type_: Type) -> (res: Result<Type, TypeUniverseError>)
        requires
            old(self).wf(),
        ensures
            final(self).wf(),
            res == Ok::<Type, TypeUniverseError>(type_),
            final(self).definitions() == old(self).definitions(),
            has_type(final(self).known_types(), type_),
            has_type(old(self).known_types(), type_) ==> final(self).known_types() == old(
                self,
            ).known_types(),
            !has_type(old(self).known_types(), type_) ==> final(self).known_types() == old(
                self,
            ).known_types().push(type_),
    {
        if !self.contains(&type_) {
            let ghost before = self.all_known_types@;
            self.all_known_types.push(type_.clone());
            proof {
                let after = self.all_known_types@;
                assert(same_type(after[before.len() as int], type_)) by {
                    lemma_same_type_refl(type_);
                }
                assert forall|i: int, j: int| 0 <= i < j < after.len() implies !same_type(
                    after[i],
                    after[j],
                ) by {
                    if j == before.len() {
                        if same_type(after[i], after[j]) {
                            assert(same_type(before[i], type_));
                        }
                    }
                }
            }
        }
        Ok(type_)
    }

    /// Removes the definitions of the given names, and the known types that
    /// are defined types of one of them; all else stays, in order.
    pub fn remove_type_definitions(&mut self, names: &[String])
        requires
            old(self).wf(),
        ensures
            final(self).wf(),
            forall|k: Seq<char>|
                #[trigger] final(self).definitions().contains_key(k) <==> (old(
                    self,
                ).definitions().contains_key(k) && !named_in(names@, k)),
            forall|k: Seq<char>|
                #[trigger] final(self).definitions().contains_key(k) ==> final(self).definitions()[k]
                    == old(self).definitions()[k],
            final(self).known_types() == old(self).known_types().filter(
                |t: Type| survives(names@, t),
            ),
    {
        let ghost pd = |d: (String, Type)| !named_in(names@, d.0@);
        let ghost old_defs = self.type_definitions@;
        let defs = filter_definitions(&self.type_definitions, names);
        let known = filter_known(&self.all_known_types, names);
        proof {
            lemma_filter_names_distinct(old_defs, pd);
            lemma_filter_distinct(self.all_known_types@, |t: Type| survives(names@, t));
            lemma_definitions_of(old_defs);
            lemma_definitions_of(defs@);
        }
        let ghost old_map = definitions_of(old_defs);
        self.type_definitions = defs;
        self.all_known_types = known;
        proof {
            broadcast use vstd::seq_lib::group_filter_ensures;

            let new_defs = self.type_definitions@;
            let new_map = definitions_of(new_defs);
            assert forall|k: Seq<char>| #[trigger] new_map.contains_key(k) <==> (old_map.contains_key(k) && !named_in(names@, k)) by {
                if new_map.contains_key(k) {
                    let j = choose|j: int| 0 <= j < new_defs.len() && new_defs[j].0@ == k;
                    assert(pd(new_defs[j]));
                    old_defs.lemma_filter_contains_rev(pd, new_defs[j]);
                    let m = choose|m: int| 0 <= m < old_defs.len() && old_defs[m] == new_defs[j];
                    assert(old_map.contains_key(old_defs[m].0@));
                }
                if old_map.contains_key(k) && !named_in(names@, k) {
                    let m = choose|m: int| 0 <= m < old_defs.len() && old_defs[m].0@ == k;
                    assert(pd(old_defs[m]));
                    assert(new_defs.contains(old_defs[m]));
                    let j = choose|j: int| 0 <= j < new_defs.len() && new_defs[j] == old_defs[m];
                    assert(new_map.contains_key(new_defs[j].0@));
                }
            }
            assert forall|k: Seq<char>| #[trigger] new_map.contains_key(k) implies new_map[k] == old_map[k] by {
                let j = choose|j: int| 0 <= j < new_defs.len() && new_defs[j].0@ == k;
                old_defs.lemma_filter_contains_rev(pd, new_defs[j]);
                let m = choose|m: int| 0 <= m < old_defs.len() && old_defs[m] == new_defs[j];
                assert(new_map[new_defs[j].0@] == new_defs[j].1);
                assert(old_map[old_defs[m].0@] == old_defs[m].1);
            }
        }
    }

    /// Whether some known type is an optional type.
    pub fn contains_optional_types(&self) -> (res: bool)
        ensures
            res == exists|i: int| 0 <= i < self.known_types().len() && #[trigger] self.known_types()[i] is Optional,
    {
        let mut i: usize = 0;
        while i < self.all_known_types.len()
            invariant
                i <= self.all_known_types@.len(),
                forall|j: int| 0 <= j < i ==> !(#[trigger] self.all_known_types@[j] is Optional),
            decreases self.all_known_types.len() - i,
        {
            if matches!(self.all_known_types[i], Type::Optional(_)) {
                return true;
            }
            i = i + 1;
        }
        false
    }

    /// Whether some known type is a sequence type.
    pub fn contains_sequence_types(&self) -> (res: bool)
        ensures
            res == exists|i: int| 0 <= i < self.known_types().len() && #[trigger] self.known_types()[i] is Sequence,
    {
        let mut i: usize = 0;
        while i < self.all_known_types.len()
            invariant
                i <= self.all_known_types@.len(),
                forall|j: int| 0 <= j < i ==> !(#[trigger] self.all_known_types@[j] is Sequence),
            decreases self.all_known_types.len() - i,
        {
            if matches!(self.all_known_types[i], Type::Sequence(_)) {
                return true;
            }
            i = i + 1;
        }
        false
    }

    /// Whether some known type is a map type.
    pub fn contains_map_types(&self) -> (res: bool)
        ensures
            res == exists|i: int| 0 <= i < self.known_types().len() && #[trigger] self.known_types()[i] is MapOf,
    {
        let mut i: usize = 0;
        while i < self.all_known_types.len()
            invariant
                i <= self.all_known_types@.len(),
                forall|j: int| 0 <= j < i ==> !(#[trigger] self.all_known_types@[j] is MapOf),
            decreases self.all_known_types.len() - i,
        {
            if matches!(self.all_known_types[i], Type::MapOf(_)) {
                return true;
            }
            i = i + 1;
        }
        false
    }

    /// All the known types in this universe.
    pub fn iter_known_types(&self) -> (res: Vec<Type>)
        ensures
            res@ == self.known_types(),
    {
        let mut res: Vec<Type> = Vec::new();
        let mut i: usize = 0;
        while i < self.all_known_types.len()
            invariant
                i <= self.all_known_types@.len(),
                res@ == self.all_known_types@.take(i as int),
            decreases self.all_known_types.len() - i,
        {
            res.push(self.all_known_types[i].clone());
            assert(res@ =~= self.all_known_types@.take(i + 1));
            i = i + 1;
        }
        assert(self.all_known_types@.take(i as int) =~= self.all_known_types@);
        res
    }
}

/// The definitions of names other than the given ones, in order.
fn filter_definitions(defs: &Vec<(String, Type)>, names: &[String]) -> (res: Vec<(String, Type)>)
    ensures
        res@ == defs@.filter(|d: (String, Type)| !named_in(names@, d.0@)),
{
    let ghost p = |d: (String, Type)| !named_in(names@, d.0@);
    let mut res: Vec<(String, Type)> = Vec::new();
    let mut i: usize = 0;
    proof {
        reveal(Seq::filter);
        assert(defs@.take(0) =~= Seq::<(String, Type)>::empty());
    }
    while i < defs.len()
        invariant
            i <= defs@.len(),
            p == (|d: (String, Type)| !named_in(names@, d.0@)),
            res@ == defs@.take(i as int).filter(p),
        decreases defs.len() - i,
    {
        proof {
            reveal(Seq::filter);
            assert(defs@.take(i + 1).drop_last() =~= defs@.take(i as int));
        }
        if !is_named_in(names, defs[i].0.as_str()) {
            res.push((defs[i].0.clone(), defs[i].1.clone()));
        }
        i = i + 1;
    }
    assert(defs@.take(defs@.len() as int) =~= defs@);
    res
}

/// The known types that survive the removal of the names, in order.
fn filter_known(known: &Vec<Type>, names: &[String]) -> (res: Vec<Type>)
    ensures
        res@ == known@.filter(|t: Type| survives(names@, t)),
{
    let ghost p = |t: Type| survives(names@, t);
    let mut res: Vec<Type> = Vec::new();
    let mut i: usize = 0;
    proof {
        reveal(Seq::filter);
        assert(known@.take(0) =~= Seq::<Type>::empty());
    }
    while i < known.len()
        invariant
            i <= known@.len(),
            p == (|t: Type| survives(names@, t)),
            res@ == known@.take(i as int).filter(p),
        decreases known.len() - i,
    {
        proof {
            reveal(Seq::filter);
            assert(known@.take(i + 1).drop_last() =~= known@.take(i as int));
        }
        let keep = match known[i].name() {
            Some(n) => !is_named_in(names, n),
            None => true,
        };
        if keep {
            res.push(known[i].clone());
        }
        i = i + 1;
    }
    assert(known@.take(known@.len() as int) =~= known@);
    res
}

/// Filtering keeps distinct names distinct.
proof fn lemma_filter_names_distinct(s: Seq<(String, Type)>, p: spec_fn((String, Type)) -> bool)
    requires
        names_distinct(s),
    ensures
        names_distinct(s.filter(p)),
    decreases s.len(),
{
    reveal(Seq::filter);
    broadcast use vstd::seq_lib::group_filter_ensures;

    if s.len() > 0 {
        let init = s.drop_last();
        assert forall|i: int, j: int| 0 <= i < j < init.len() implies init[i].0@ != init[j].0@ by {
            assert(init[i] == s[i] && init[j] == s[j]);
        }
        lemma_filter_names_distinct(init, p);
        let f = init.filter(p);
        if p(s.last()) {
            let g = f.push(s.last());
            assert forall|i: int, j: int| 0 <= i < j < g.len() implies g[i].0@ != g[j].0@ by {
                if j == f.len() {
                    assert(g[i] == f[i]);
                    init.lemma_filter_contains_rev(p, f[i]);
                    let k = choose|k: int| 0 <= k < init.len() && init[k] == f[i];
                    assert(s[k] == init[k]);
                } else {
                    assert(g[i] == f[i] && g[j] == f[j]);
                }
            }
        }
    }
}

/// Filtering keeps distinct types distinct.
proof fn lemma_filter_distinct(s: Seq<Type>, p: spec_fn(Type) -> bool)
    requires
        types_distinct(s),
    ensures
        types_distinct(s.filter(p)),
        forall|j: int| 0 <= j < s.filter(p).len() ==> s.contains(#[trigger] s.filter(p)[j]),
    decreases s.len(),
{
    reveal(Seq::filter);
    if s.len() > 0 {
        let init = s.drop_last();
        assert forall|i: int, j: int| 0 <= i < j < init.len() implies !same_type(init[i], init[j]) by {
            assert(init[i] == s[i] && init[j] == s[j]);
        }
        lemma_filter_distinct(init, p);
        let f = init.filter(p);
        if p(s.last()) {
            let g = f.push(s.last());
            assert forall|i: int, j: int| 0 <= i < j < g.len() implies !same_type(g[i], g[j]) by {
                if j == f.len() {
                    assert(g[i] == f[i]);
                    assert(init.contains(f[i]));
                    let k = choose|k: int| 0 <= k < init.len() && init[k] == f[i];
                    assert(s[k] == init[k]);
                    assert(!same_type(s[k], s[s.len() - 1]));
                } else {
                    assert(g[i] == f[i] && g[j] == f[j]);
                }
            }
            assert forall|j: int| 0 <= j < g.len() implies s.contains(#[trigger] g[j]) by {
                if j < f.len() {
                    assert(g[j] == f[j]);
                    assert(init.contains(f[j]));
                    let k = choose|k: int| 0 <= k < init.len() && init[k] == f[j];
                    assert(s[k] == init[k]);
                } else {
                    assert(s[s.len() - 1] == g[j]);
                }
            }
        } else {
            assert forall|j: int| 0 <= j < f.len() implies s.contains(#[trigger] f[j]) by {
                assert(init.contains(f[j]));
                let k = choose|k: int| 0 <= k < init.len() && init[k] == f[j];
                assert(s[k] == init[k]);
            }
        }
    }
}

/// Every type is the same as itself.
pub proof fn lemma_same_type_refl(t: Type)
    ensures
        same_type(t, t),
    decreases t,
{
    match t {
        Type::Optional(x) => lemma_same_type_refl(*x),
        Type::Sequence(x) => lemma_same_type_refl(*x),
        Type::MapOf(x) => lemma_same_type_refl(*x),
        _ => {},
    }
}

} // verus!
