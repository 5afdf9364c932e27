//! Resolving UDL type expressions into concrete types.
//!
//! A type expression, as written in the UDL, is resolved against a
//! [`TypeUniverse`]: builtin names and the names of the universe's type
//! definitions become [`Type`]s, the type constructors (`sequence<..>`,
//! `record<DOMString, ..>`, `?`) build on them, and every type seen on the way
//! becomes known to the universe. Resolving the expression `sequence<TestRecord>?`
//! for example makes `Sequence<TestRecord>` and `Optional<Sequence<TestRecord>>`
//! known, and fails if the name `TestRecord` is not defined.
//!
//! Many WebIDL type expressions are not supported, and resolving them fails.

use vstd::prelude::*;

use weedle::types::Type as WebIdlType;
use weedle::types::{FloatingPointType, NonAnyType, SingleType};
use weedle::Parse;

use super::{
    builtin_type, has_type, resolve_builtin_type, same_type, with_known, Type, TypeUniverse,
    lemma_same_type_refl,
};
use crate::text::{owned, push_str};

verus! {

/// A parsed UDL type expression: what resolving it reads of the syntax tree.
#[derive(Debug)]
pub enum TypeExpr {
    /// `any`.
    Any,
    /// A union of types, such as `(A or B)`.
    Union,
    Boolean { nullable: bool },
    /// A name: that of a builtin type or of a type definition.
    Identifier { name: String, nullable: bool },
    /// A WebIDL integer type such as `long`, with the text of its syntax tree.
    Integer { syntax: String, nullable: bool },
    Float { unrestricted: bool, nullable: bool },
    Double { unrestricted: bool, nullable: bool },
    Sequence { inner: Box<TypeExpr>, nullable: bool },
    /// `record<K, V>`, with the type of its values.
    Record { value: Box<TypeExpr>, nullable: bool },
    /// Any other type, with the text of its syntax tree.
    Unsupported { syntax: String },
}

/// The type expression that weedle parses from the text, if it parses one.
pub uninterp spec fn parsed_type_expression(text: Seq<char>) -> Option<TypeExpr>;

#[verifier::external_type_specification]
#[verifier::external_body]
pub struct ExWebIdlType<'a>(WebIdlType<'a>);

#[verifier::external_type_specification]
#[verifier::external_body]
pub struct ExNonAnyType<'a>(NonAnyType<'a>);

/// `weedle::types::Type::parse`: parses a WebIDL type from the start of the
/// text. The type expression is that of the syntax tree, and depends on the
/// text alone; what it is is named, not stated.
#[verifier::external_body]
fn parse_type_expression(text: &str) -> (res: Option<TypeExpr>)
    ensures
        res == parsed_type_expression(text@),
{
    match WebIdlType::parse(text) {
        Ok((_, t)) => Some(type_expr_of(&t)),
        Err(_) => None,
    }
}

/// Converts a weedle type, variant for variant.
#[verifier::external_body]
pub(crate) fn type_expr_of(t: &WebIdlType) -> TypeExpr {
    match t {
        WebIdlType::Single(SingleType::Any(_)) => TypeExpr::Any,
        WebIdlType::Single(SingleType::NonAny(n)) => non_any_expr_of(n),
        WebIdlType::Union(_) => TypeExpr::Union,
    }
}

/// Converts a weedle non-`any` type built from other types, variant for variant.
#[verifier::external_body]
fn non_any_expr_of(n: &NonAnyType) -> TypeExpr {
    match n {
        NonAnyType::Sequence(m) => TypeExpr::Sequence {
            inner: Box::new(type_expr_of(&m.type_.generics.body)),
            nullable: m.q_mark.is_some(),
        },
        NonAnyType::RecordType(m) => TypeExpr::Record {
            value: Box::new(type_expr_of(&m.type_.generics.body.2)),
            nullable: m.q_mark.is_some(),
        },
        _ => leaf_expr_of(n),
    }
}

/// Converts a weedle non-`any` type that holds no other type, variant for variant.
#[verifier::external_body]
fn leaf_expr_of(n: &NonAnyType) -> TypeExpr {
    match n {
        NonAnyType::Boolean(m) => TypeExpr::Boolean { nullable: m.q_mark.is_some() },
        NonAnyType::Identifier(m) => TypeExpr::Identifier { name: m.type_.0.to_string(), nullable: m.q_mark.is_some() },
        NonAnyType::Integer(m) => TypeExpr::Integer { syntax: format!("{:?}", m.type_), nullable: m.q_mark.is_some() },
        NonAnyType::FloatingPoint(m) => match m.type_ {
            FloatingPointType::Float(f) => TypeExpr::Float { unrestricted: f.unrestricted.is_some(), nullable: m.q_mark.is_some() },
            FloatingPointType::Double(d) => TypeExpr::Double { unrestricted: d.unrestricted.is_some(), nullable: m.q_mark.is_some() },
        },
        _ => TypeExpr::Unsupported { syntax: format!("{:?}", n) },
    }
}

/// The outcome of a resolution, with the error's text.
pub open spec fn outcome(r: Result<Type, String>) -> Result<Type, Seq<char>> {
    match r {
        Ok(t) => Ok(t),
        Err(e) => Err(e@),
    }
}

/// A base type, made optional where the expression is nullable, with the
/// known types after each became known.
pub open spec fn resolved_base(known: Seq<Type>, t: Type, nullable: bool) -> (
    Result<Type, Seq<char>>,
    Seq<Type>,
) {
    let k = with_known(known, t);
    if nullable {
        (Ok(Type::Optional(Box::new(t))), with_known(k, Type::Optional(Box::new(t))))
    } else {
        (Ok(t), k)
    }
}

/// What resolving a type expression gives, against the named definitions and
/// the types known before: the type or the error, and the types known after.
pub open spec fn resolved(defs: Map<Seq<char>, Type>, known: Seq<Type>, e: TypeExpr) -> (
    Result<Type, Seq<char>>,
    Seq<Type>,
)
    decreases e,
{
    match e {
        TypeExpr::Any => (Err("no support for `any` types"@), known),
        TypeExpr::Union => (Err("no support for union types yet"@), known),
        TypeExpr::Boolean { nullable } => resolved_base(known, Type::Boolean, nullable),
        TypeExpr::Identifier { name, nullable } => match builtin_type(name@) {
            Some(t) => resolved_base(known, t, nullable),
            None => if defs.contains_key(name@) {
                resolved_base(known, defs[name@], nullable)
            } else {
                (Err("unknown type reference: "@ + name@), known)
            },
        },
        TypeExpr::Integer { syntax, nullable } => (
            Err(
                "WebIDL integer types not implemented ("@ + syntax@
                    + "); consider using u8, u16, u32 or u64"@,
            ),
            known,
        ),
        TypeExpr::Float { unrestricted, nullable } => if unrestricted {
            (Err("we don't support `unrestricted float`"@), known)
        } else {
            resolved_base(known, Type::Float32, nullable)
        },
        TypeExpr::Double { unrestricted, nullable } => if unrestricted {
            (Err("we don't support `unrestricted double`"@), known)
        } else {
            resolved_base(known, Type::Float64, nullable)
        },
        TypeExpr::Sequence { inner, nullable } => {
            let (r, k) = resolved(defs, known, *inner);
            match r {
                Ok(t) => resolved_base(k, Type::Sequence(Box::new(t)), nullable),
                Err(m) => (Err(m), k),
            }
        },
        TypeExpr::Record { value, nullable } => {
            let (r, k) = resolved(defs, known, *value);
            match r {
                // Maps always have string keys, so strings become known too.
                Ok(t) => resolved_base(with_known(k, Type::String), Type::MapOf(Box::new(t)), nullable),
                Err(m) => (Err(m), k),
            }
        },
        TypeExpr::Unsupported { syntax } => (Err("no support for type "@ + syntax@), known),
    }
}

/// The builtin name that a type is written with in UDL, if it has one.
pub open spec fn builtin_udl_name(t: Type) -> Option<Seq<char>> {
    match t {
        Type::UInt8 => Some("u8"@),
        Type::UInt16 => Some("u16"@),
        Type::UInt32 => Some("u32"@),
        Type::UInt64 => Some("u64"@),
        Type::Int8 => Some("i8"@),
        Type::Int16 => Some("i16"@),
        Type::Int32 => Some("i32"@),
        Type::Int64 => Some("i64"@),
        Type::Float32 => Some("f32"@),
        Type::Float64 => Some("f64"@),
        Type::String => Some("string"@),
        _ => None,
    }
}

/// Whether the expression, its nullability aside, is the one that a type that
/// is not optional is written as in UDL.
pub open spec fn denotes_plain(e: TypeExpr, t: Type) -> bool
    decreases t, 0nat,
{
    match t {
        Type::Boolean => e is Boolean,
        Type::Enum(n) => e matches TypeExpr::Identifier { name, .. } && name@ == n@,
        Type::Record(n) => e matches TypeExpr::Identifier { name, .. } && name@ == n@,
        Type::Object(n) => e matches TypeExpr::Identifier { name, .. } && name@ == n@,
        Type::Error(n) => e matches TypeExpr::Identifier { name, .. } && name@ == n@,
        Type::CallbackInterface(n) => e matches TypeExpr::Identifier { name, .. } && name@ == n@,
        Type::Optional(_) => false,
        Type::Sequence(inner) => e matches TypeExpr::Sequence { inner: ie, .. } && denotes(*ie, *inner),
        Type::MapOf(inner) => e matches TypeExpr::Record { value, .. } && denotes(*value, *inner),
        _ => e matches TypeExpr::Identifier { name, .. } && builtin_udl_name(t) == Some(name@),
    }
}

/// Whether an expression parsed from UDL is the one that the type is written
/// as: an optional type is its inner type made nullable.
pub open spec fn denotes(e: TypeExpr, t: Type) -> bool
    decreases t, 1nat,
{
    match t {
        Type::Optional(inner) => nullable(e) && denotes_plain(e, *inner),
        _ => !nullable(e) && denotes_plain(e, t),
    }
}

/// Whether the expression is marked nullable, with `?`.
pub open spec fn nullable(e: TypeExpr) -> bool {
    match e {
        TypeExpr::Boolean { nullable } => nullable,
        TypeExpr::Identifier { nullable, .. } => nullable,
        TypeExpr::Integer { nullable, .. } => nullable,
        TypeExpr::Float { nullable, .. } => nullable,
        TypeExpr::Double { nullable, .. } => nullable,
        TypeExpr::Sequence { nullable, .. } => nullable,
        TypeExpr::Record { nullable, .. } => nullable,
        _ => false,
    }
}

/// Whether every type that the type names is defined, under its own name, as itself.
pub open spec fn names_defined(defs: Map<Seq<char>, Type>, t: Type) -> bool
    decreases t,
{
    match t {
        Type::Enum(n) => defs.contains_key(n@) && defs[n@] == t,
        Type::Record(n) => defs.contains_key(n@) && defs[n@] == t,
        Type::Object(n) => defs.contains_key(n@) && defs[n@] == t,
        Type::Error(n) => defs.contains_key(n@) && defs[n@] == t,
        Type::CallbackInterface(n) => defs.contains_key(n@) && defs[n@] == t,
        Type::Optional(inner) => names_defined(defs, *inner),
        Type::Sequence(inner) => names_defined(defs, *inner),
        Type::MapOf(inner) => names_defined(defs, *inner),
        _ => true,
    }
}

proof fn lemma_builtin_names()
    ensures
        builtin_type("u8"@) == Some(Type::UInt8),
        builtin_type("u16"@) == Some(Type::UInt16),
        builtin_type("u32"@) == Some(Type::UInt32),
        builtin_type("u64"@) == Some(Type::UInt64),
        builtin_type("i8"@) == Some(Type::Int8),
        builtin_type("i16"@) == Some(Type::Int16),
        builtin_type("i32"@) == Some(Type::Int32),
        builtin_type("i64"@) == Some(Type::Int64),
        builtin_type("f32"@) == Some(Type::Float32),
        builtin_type("f64"@) == Some(Type::Float64),
        builtin_type("string"@) == Some(Type::String),
{
    super::lemma_builtin_literals();
}

/// Resolving an expression gives back the type that it is written for, where
/// the types it names are defined as themselves: resolution undoes writing a
/// type as UDL.
proof fn lemma_resolve_denoted(defs: Map<Seq<char>, Type>, known: Seq<Type>, e: TypeExpr, t: Type)
    requires
        denotes(e, t),
        names_defined(defs, t),
        forall|n: Seq<char>| #[trigger] defs.contains_key(n) ==> builtin_type(n) is None,
    ensures
        resolved(defs, known, e).0 == Ok::<Type, Seq<char>>(t),
    decreases t, 1nat,
{
    lemma_builtin_names();
    match t {
        Type::Optional(inner) => {
            lemma_resolve_plain(defs, known, e, *inner);
        },
        _ => {
            lemma_resolve_plain(defs, known, e, t);
        },
    }
}

/// In a type universe where the types that a type names are defined as
/// themselves, resolving the expression that the type is written as gives the
/// type back.
pub proof fn lemma_universe_resolves_written_types(u: TypeUniverse, e: TypeExpr, t: Type)
    requires
        u.wf(),
        denotes(e, t),
        names_defined(u.definitions(), t),
    ensures
        resolved(u.definitions(), u.known_types(), e).0 == Ok::<Type, Seq<char>>(t),
{
    u.lemma_no_builtin_definitions();
    lemma_resolve_denoted(u.definitions(), u.known_types(), e, t);
}

proof fn lemma_resolve_plain(defs: Map<Seq<char>, Type>, known: Seq<Type>, e: TypeExpr, t: Type)
    requires
        denotes_plain(e, t),
        names_defined(defs, t),
        forall|n: Seq<char>| #[trigger] defs.contains_key(n) ==> builtin_type(n) is None,
    ensures
        resolved(defs, known, e).0 == (if nullable(e) {
            Ok::<Type, Seq<char>>(Type::Optional(Box::new(t)))
        } else {
            Ok::<Type, Seq<char>>(t)
        }),
    decreases t, 0nat,
{
    lemma_builtin_names();
    match t {
        Type::Sequence(inner) => {
            if let TypeExpr::Sequence { inner: ie, .. } = e {
                lemma_resolve_denoted(defs, known, *ie, *inner);
            }
        },
        Type::MapOf(inner) => {
            if let TypeExpr::Record { value, .. } = e {
                lemma_resolve_denoted(defs, known, *value, *inner);
            }
        },
        Type::Enum(n) => {
            assert(builtin_type(n@) is None);
        },
        Type::Record(n) => {
            assert(builtin_type(n@) is None);
        },
        Type::Object(n) => {
            assert(builtin_type(n@) is None);
        },
        Type::Error(n) => {
            assert(builtin_type(n@) is None);
        },
        Type::CallbackInterface(n) => {
            assert(builtin_type(n@) is None);
        },
        _ => {},
    }
}

/// Once known, a type stays known.
pub(crate) proof fn lemma_with_known(ts: Seq<Type>, t: Type)
    ensures
        ts.is_prefix_of(with_known(ts, t)),
        has_type(with_known(ts, t), t),
        forall|u: Type| has_type(ts, u) ==> has_type(with_known(ts, t), u),
{
    let k = with_known(ts, t);
    if !has_type(ts, t) {
        lemma_same_type_refl(t);
        assert(same_type(k[ts.len() as int], t));
        assert forall|u: Type| has_type(ts, u) implies has_type(k, u) by {
            let i = choose|i: int| 0 <= i < ts.len() && same_type(ts[i], u);
            assert(k[i] == ts[i]);
        }
    }
}

proof fn lemma_resolved_base(known: Seq<Type>, t: Type, nullable: bool)
    ensures
        known.is_prefix_of(resolved_base(known, t, nullable).1),
        resolved_base(known, t, nullable).0 matches Ok(r) && has_type(
            resolved_base(known, t, nullable).1,
            r,
        ),
{
    lemma_with_known(known, t);
    let k = with_known(known, t);
    lemma_with_known(k, Type::Optional(Box::new(t)));
}

/// Resolving only adds known types, and a type it resolves to is known.
pub proof fn lemma_resolved_grows(defs: Map<Seq<char>, Type>, known: Seq<Type>, e: TypeExpr)
    ensures
        known.is_prefix_of(resolved(defs, known, e).1),
        resolved(defs, known, e).0 matches Ok(t) ==> has_type(resolved(defs, known, e).1, t),
    decreases e,
{
    match e {
        TypeExpr::Boolean { nullable } => lemma_resolved_base(known, Type::Boolean, nullable),
        TypeExpr::Identifier { name, nullable } => match builtin_type(name@) {
            Some(t) => lemma_resolved_base(known, t, nullable),
            None => if defs.contains_key(name@) {
                lemma_resolved_base(known, defs[name@], nullable)
            },
        },
        TypeExpr::Float { unrestricted, nullable } => lemma_resolved_base(known, Type::Float32, nullable),
        TypeExpr::Double { unrestricted, nullable } => lemma_resolved_base(known, Type::Float64, nullable),
        TypeExpr::Sequence { inner, nullable } => {
            lemma_resolved_grows(defs, known, *inner);
            let (r, k) = resolved(defs, known, *inner);
            if let Ok(t) = r {
                lemma_resolved_base(k, Type::Sequence(Box::new(t)), nullable);
            }
        },
        TypeExpr::Record { value, nullable } => {
            lemma_resolved_grows(defs, known, *value);
            let (r, k) = resolved(defs, known, *value);
            if let Ok(t) = r {
                lemma_with_known(k, Type::String);
                lemma_resolved_base(with_known(k, Type::String), Type::MapOf(Box::new(t)), nullable);
            }
        },
        _ => {},
    }
}

impl TypeUniverse {
    /// Makes the type known, and its optional too where the expression is nullable.
    fn resolve_base(&mut self, t: Type, nullable: bool) -> (res: Result<Type, String>)
        requires
            old(self).wf(),
        ensures
            final(self).wf(),
            final(self).definitions() == old(self).definitions(),
            (outcome(res), final(self).known_types()) == resolved_base(
                old(self).known_types(),
                t,
                nullable,
            ),
    {
        let t = match self.add_known_type(t) {
            Ok(t) => t,
            Err(e) => {
                return Err(e.message());
            },
        };
        if nullable {
            match self.add_known_type(Type::Optional(Box::new(t))) {
                Ok(t) => Ok(t),
                Err(e) => Err(e.message()),
            }
        } else {
            Ok(t)
        }
    }

    /// Get the [Type] corresponding to a type expression.
    ///
    /// Every type seen while resolving it becomes known, as the expression's own
    /// type does; resolving fails if it names an undefined type or uses a type
    /// construct that is not supported.
    pub fn resolve_type_expression(&mut self, expr: &TypeExpr) -> (res: Result<Type, String>)
        requires
            old(self).wf(),
        ensures
            final(self).wf(),
            final(self).definitions() == old(self).definitions(),
            (outcome(res), final(self).known_types()) == resolved(
                old(self).definitions(),
                old(self).known_types(),
                *expr,
            ),
            old(self).known_types().is_prefix_of(final(self).known_types()),
            res matches Ok(t) ==> has_type(final(self).known_types(), t),
        decreases expr,
    {
        proof {
            lemma_resolved_grows(self.definitions(), self.known_types(), *expr);
        }
        match expr {
            TypeExpr::Any => Err(owned("no support for `any` types")),
            TypeExpr::Union => Err(owned("no support for union types yet")),
            TypeExpr::Boolean { nullable } => self.resolve_base(Type::Boolean, *nullable),
            TypeExpr::Identifier { name, nullable } => match resolve_builtin_type(name.as_str()) {
                Some(t) => self.resolve_base(t, *nullable),
                None => match self.get_type_definition(name.as_str()) {
                    Some(t) => self.resolve_base(t, *nullable),
                    None => {
                        let mut m = owned("unknown type reference: ");
                        push_str(&mut m, name.as_str());
                        Err(m)
                    },
                },
            },
            TypeExpr::Integer { syntax, .. } => {
                let mut m = owned("WebIDL integer types not implemented (");
                push_str(&mut m, syntax.as_str());
                push_str(&mut m, "); consider using u8, u16, u32 or u64");
                Err(m)
            },
            TypeExpr::Float { unrestricted, nullable } => if *unrestricted {
                Err(owned("we don't support `unrestricted float`"))
            } else {
                self.resolve_base(Type::Float32, *nullable)
            },
            TypeExpr::Double { unrestricted, nullable } => if *unrestricted {
                Err(owned("we don't support `unrestricted double`"))
            } else {
                self.resolve_base(Type::Float64, *nullable)
            },
            TypeExpr::Sequence { inner, nullable } => match self.resolve_type_expression(inner) {
                Ok(t) => self.resolve_base(Type::Sequence(Box::new(t)), *nullable),
                Err(m) => Err(m),
            },
            TypeExpr::Record { value, nullable } => match self.resolve_type_expression(value) {
                Ok(t) => {
                    // Maps always have string keys, make sure the `String` type is known.
                    match self.add_known_type(Type::String) {
                        Ok(_) => {},
                        Err(e) => {
                            return Err(e.message());
                        },
                    }
                    self.resolve_base(Type::MapOf(Box::new(t)), *nullable)
                },
                Err(m) => Err(m),
            },
            TypeExpr::Unsupported { syntax } => {
                let mut m = owned("no support for type ");
                push_str(&mut m, syntax.as_str());
                Err(m)
            },
        }
    }

    /// Parses a UDL type expression and resolves it, as
    /// [`TypeUniverse::resolve_type_expression`] does; `None`, with the universe
    /// unchanged, where the text holds no type expression.
    pub fn resolve_type_text(&mut self, text: &str) -> (res: Option<Result<Type, String>>)
        requires
            old(self).wf(),
        ensures
            final(self).wf(),
            final(self).definitions() == old(self).definitions(),
            match parsed_type_expression(text@) {
                None => res is None && final(self).known_types() == old(self).known_types(),
                Some(e) => res matches Some(r) && (outcome(r), final(self).known_types())
                    == resolved(old(self).definitions(), old(self).known_types(), e),
            },
    {
        match parse_type_expression(text) {
            Some(e) => Some(self.resolve_type_expression(&e)),
            None => None,
        }
    }
}

} // verus!
