//! Rendering parts of a component interface back as UDL.

use vstd::prelude::*;

use crate::interface::types::Type;
use crate::text::{owned, push_char, push_str};

verus! {

/// The UDL syntax for a type of the public interface.
pub open spec fn udl_type(t: Type) -> Seq<char>
    decreases t,
{
    match t {
        Type::UInt8 => "u8"@,
        Type::UInt16 => "u16"@,
        Type::UInt32 => "u32"@,
        Type::UInt64 => "u64"@,
        Type::Int8 => "i8"@,
        Type::Int16 => "i16"@,
        Type::Int32 => "i32"@,
        Type::Int64 => "i64"@,
        Type::Float32 => "f32"@,
        Type::Float64 => "f64"@,
        Type::Boolean => "boolean"@,
        Type::String => "string"@,
        Type::Enum(name) => name@,
        Type::Record(name) => name@,
        Type::Object(name) => name@,
        Type::Error(name) => name@,
        Type::CallbackInterface(name) => name@,
        Type::Timestamp => "timestamp"@,
        Type::Duration => "duration"@,
        Type::Optional(t) => udl_type(*t) + "?"@,
        Type::Sequence(t) => "sequence<"@ + udl_type(*t) + ">"@,
        Type::MapOf(t) => "record<DOMString, "@ + udl_type(*t) + ">"@,
    }
}

/// Get the UDL syntax for representing a given api-level `Type`.
pub fn type_udl(type_: &Type) -> (res: String)
    ensures
        res@ == udl_type(*type_),
    decreases type_,
{
    match type_ {
        Type::UInt8 => owned("u8"),
        Type::UInt16 => owned("u16"),
        Type::UInt32 => owned("u32"),
        Type::UInt64 => owned("u64"),
        Type::Int8 => owned("i8"),
        Type::Int16 => owned("i16"),
        Type::Int32 => owned("i32"),
        Type::Int64 => owned("i64"),
        Type::Float32 => owned("f32"),
        Type::Float64 => owned("f64"),
        Type::Boolean => owned("boolean"),
        Type::String => owned("string"),
        Type::Timestamp => owned("timestamp"),
        Type::Duration => owned("duration"),
        Type::Enum(name)
        | Type::Record(name)
        | Type::Object(name)
        | Type::Error(name)
        | Type::CallbackInterface(name) => name.clone(),
        Type::Optional(t) => {
            let mut s = type_udl(t);
            push_str(&mut s, "?");
            s
        },
        Type::Sequence(t) => {
            let mut s = owned("sequence<");
            push_str(&mut s, type_udl(t).as_str());
            push_str(&mut s, ">");
            s
        },
        Type::MapOf(t) => {
            let mut s = owned("record<DOMString, ");
            push_str(&mut s, type_udl(t).as_str());
            push_str(&mut s, ">");
            s
        },
    }
}

/// The UDL syntax for a return type: `void` where there is none.
pub fn return_type_udl(type_: &Option<&Type>) -> (res: String)
    ensures
        res@ == match *type_ {
            None => "void"@,
            Some(t) => udl_type(*t),
        },
{
    match type_ {
        None => owned("void"),
        Some(t) => type_udl(t),
    }
}

/// The lines of a docstring as UDL comments: each on a line of its own, after
/// the indentation and `//`.
pub open spec fn docstring_text(docs: Seq<Seq<char>>, indent: nat) -> Seq<char>
    decreases docs.len(),
{
    if docs.len() == 0 {
        Seq::empty()
    } else {
        docstring_text(docs.drop_last(), indent) + seq!['\n'] + Seq::new(indent, |i: int| ' ')
            + "//"@ + docs.last()
    }
}

/// Renders the lines of a docstring as UDL comments, indented by the given
/// number of spaces.
pub fn docstring(docs: &Vec<&str>, indent: &usize) -> (res: String)
    ensures
        res@ == docstring_text(docs@.map_values(|d: &str| d@), *indent as nat),
{
    let ghost views = docs@.map_values(|d: &str| d@);
    let ghost spaces = Seq::new(*indent as nat, |i: int| ' ');
    let mut pad = String::new();
    let mut k: usize = 0;
    while k < *indent
        invariant
            k <= *indent,
            pad@ == Seq::new(k as nat, |i: int| ' '),
        decreases *indent - k,
    {
        push_char(&mut pad, ' ');
        assert(pad@ =~= Seq::new((k + 1) as nat, |i: int| ' '));
        k = k + 1;
    }
    let mut docstr = String::new();
    let mut i: usize = 0;
    while i < docs.len()
        invariant
            i <= docs@.len(),
            views == docs@.map_values(|d: &str| d@),
            pad@ == spaces,
            spaces == Seq::new(*indent as nat, |i: int| ' '),
            docstr@ == docstring_text(views.take(i as int), *indent as nat),
        decreases docs.len() - i,
    {
        push_char(&mut docstr, '\n');
        push_str(&mut docstr, pad.as_str());
        push_str(&mut docstr, "//");
        push_str(&mut docstr, docs[i]);
        proof {
            assert(views.take(i + 1).drop_last() =~= views.take(i as int));
            assert(docstr@ =~= docstring_text(views.take(i + 1), *indent as nat));
        }
        i = i + 1;
    }
    assert(views.take(docs@.len() as int) =~= views);
    docstr
}

} // verus!
