//! Literals of the Swift code types of primitive types.

use vstd::prelude::*;

use super::filters::{literal_swift, renderable_literal, swift_literal};
use crate::interface::literal::Literal;

verus! {

/// The literals that a primitive type has: booleans, strings and numbers.
pub open spec fn primitive_literal(l: Literal) -> bool {
    &&& renderable_literal(l)
    &&& (l is Boolean || l is String || l is Int || l is UInt || l is Float)
}

/// Render a literal of a primitive type for Swift code: numbers of a type
/// other than `Int32` are wrapped in their type's constructor.
pub fn render_literal(literal: &Literal) -> (res: String)
    requires
        primitive_literal(*literal),
    ensures
        res@ == swift_literal(*literal),
{
    literal_swift(literal)
}

} // verus!
