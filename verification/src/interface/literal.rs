//! Literal values that can appear in a component interface, such as the
//! default value of a field or argument.

use vstd::prelude::*;

use super::types::Type;
use crate::text::{decimal_i64, digits, i64_bits, owned, push_digits, push_i64_decimal, push_str, twos_complement};

verus! {

/// The radix in which an integer literal was written.
#[derive(Debug, Clone, Copy, PartialEq, Eq, Structural)]
pub enum Radix {
    Decimal,
    Octal,
    Hexadecimal,
}

/// A literal value, together with the type it is a value of where that is
/// not evident from the literal itself.
#[derive(Debug)]
pub enum Literal {
    Boolean(bool),
    String(String),
    /// The `null` of an optional type.
    Null,
    EmptySequence,
    EmptyMap,
    /// A variant of the named enum.
    Enum(String, Type),
    Int(i64, Radix, Type),
    UInt(u64, Radix, Type),
    /// A floating-point number, kept as the text it was written in.
    Float(String, Type),
}

/// A signed integer written in the given radix: decimal with its sign; octal
/// and hexadecimal as the digits of its two's complement, after `0o` or `0x`.
pub open spec fn int_text(i: int, radix: Radix) -> Seq<char> {
    match radix {
        Radix::Decimal => decimal_i64(i),
        Radix::Octal => "0o"@ + digits(twos_complement(i), 8),
        Radix::Hexadecimal => "0x"@ + digits(twos_complement(i), 16),
    }
}

/// An unsigned integer written in the given radix, after `0o` or `0x` where
/// it is octal or hexadecimal.
pub open spec fn uint_text(u: nat, radix: Radix) -> Seq<char> {
    match radix {
        Radix::Decimal => digits(u, 10),
        Radix::Octal => "0o"@ + digits(u, 8),
        Radix::Hexadecimal => "0x"@ + digits(u, 16),
    }
}

/// Writes a signed integer in the given radix.
pub fn render_int(i: i64, radix: Radix) -> (res: String)
    ensures
        res@ == int_text(i as int, radix),
{
    match radix {
        Radix::Decimal => {
            let mut s = String::new();
            push_i64_decimal(&mut s, i);
            assert(s@ =~= decimal_i64(i as int));
            s
        },
        Radix::Octal => {
            let mut s = owned("0o");
            push_digits(&mut s, i64_bits(i), 8);
            s
        },
        Radix::Hexadecimal => {
            let mut s = owned("0x");
            push_digits(&mut s, i64_bits(i), 16);
            s
        },
    }
}

/// Writes an unsigned integer in the given radix.
pub fn render_uint(u: u64, radix: Radix) -> (res: String)
    ensures
        res@ == uint_text(u as nat, radix),
{
    let mut s = match radix {
        Radix::Decimal => String::new(),
        Radix::Octal => owned("0o"),
        Radix::Hexadecimal => owned("0x"),
    };
    let base: u64 = match radix {
        Radix::Decimal => 10,
        Radix::Octal => 8,
        Radix::Hexadecimal => 16,
    };
    push_digits(&mut s, u, base);
    s
}

} // verus!
