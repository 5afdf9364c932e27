//! The Swift code types of optionals, sequences and maps.

use vstd::prelude::*;

use super::filters::{literal_swift, renderable_literal, swift_literal, swift_type, type_swift};
use super::CodeType;
use crate::interface::literal::Literal;
use crate::interface::types::{canonical, Type};
use crate::text::{owned, push_str};

verus! {

/// Render a literal of a compound type for Swift code: `nil` for an optional,
/// the empty sequence and the empty map; other literals as a literal of the
/// inner type.
pub fn render_literal(literal: &Literal, inner: &Type) -> (res: String)
    requires
        renderable_literal(*literal),
    ensures
        res@ == swift_literal(*literal),
{
    match literal {
        Literal::Null => owned("nil"),
        Literal::EmptySequence => owned("[]"),
        Literal::EmptyMap => owned("[:]"),
        // For optionals
        _ => literal_swift(literal),
    }
}

fn wrapped(before: &str, middle: &str, after: &str) -> (res: String)
    ensures
        res@ == before@ + middle@ + after@,
{
    let mut s = owned(before);
    push_str(&mut s, middle);
    push_str(&mut s, after);
    s
}

/// The Swift code type of an optional type.
pub struct OptionalCodeType {
    pub inner: Type,
}

/// The Swift code type of a sequence type.
pub struct SequenceCodeType {
    pub inner: Type,
}

/// The Swift code type of a map type, whose keys are strings.
pub struct MapCodeType {
    pub inner: Type,
}

impl OptionalCodeType {
    pub fn new(inner: Type, _outer: Type) -> (res: Self)
        ensures
            res.inner == inner,
    {
        Self { inner }
    }

    pub fn literal(&self, literal: &Literal) -> (res: String)
        requires
            renderable_literal(*literal),
        ensures
            res@ == swift_literal(*literal),
    {
        render_literal(literal, &self.inner)
    }
}

impl CodeType for OptionalCodeType {
    open spec fn label(&self) -> Seq<char> {
        swift_type(self.inner) + "?"@
    }

    fn type_label(&self) -> (res: String)
        ensures
            res@ == swift_type(self.inner) + "?"@,
    {
        let mut s = type_swift(&self.inner);
        push_str(&mut s, "?");
        s
    }

    fn canonical_name(&self) -> (res: String)
        ensures
            res@ == "Option"@ + canonical(self.inner),
    {
        let mut s = owned("Option");
        push_str(&mut s, self.inner.canonical_name().as_str());
        s
    }

    fn helper_code(&self) -> (res: Option<String>)
        ensures
            res matches Some(h) && h@ == "// Helper code for "@ + swift_type(self.inner) + "?"@
                + " is found in RustBufferHelper.swift"@,
    {
        Some(wrapped("// Helper code for ", self.type_label().as_str(), " is found in RustBufferHelper.swift"))
    }
}

impl SequenceCodeType {
    pub fn new(inner: Type, _outer: Type) -> (res: Self)
        ensures
            res.inner == inner,
    {
        Self { inner }
    }

    pub fn literal(&self, literal: &Literal) -> (res: String)
        requires
            renderable_literal(*literal),
        ensures
            res@ == swift_literal(*literal),
    {
        render_literal(literal, &self.inner)
    }
}

impl CodeType for SequenceCodeType {
    open spec fn label(&self) -> Seq<char> {
        "["@ + swift_type(self.inner) + "]"@
    }

    fn type_label(&self) -> (res: String)
        ensures
            res@ == "["@ + swift_type(self.inner) + "]"@,
    {
        wrapped("[", type_swift(&self.inner).as_str(), "]")
    }

    fn canonical_name(&self) -> (res: String)
        ensures
            res@ == "Sequence"@ + canonical(self.inner),
    {
        let mut s = owned("Sequence");
        push_str(&mut s, self.inner.canonical_name().as_str());
        s
    }

    fn helper_code(&self) -> (res: Option<String>)
        ensures
            res matches Some(h) && h@ == "// Helper code for "@ + "["@ + swift_type(self.inner) + "]"@
                + " is found in RustBufferHelper.swift"@,
    {
        Some(wrapped("// Helper code for ", self.type_label().as_str(), " is found in RustBufferHelper.swift"))
    }
}

impl MapCodeType {
    pub fn new(inner: Type, _outer: Type) -> (res: Self)
        ensures
            res.inner == inner,
    {
        Self { inner }
    }

    pub fn literal(&self, literal: &Literal) -> (res: String)
        requires
            renderable_literal(*literal),
        ensures
            res@ == swift_literal(*literal),
    {
        render_literal(literal, &self.inner)
    }
}

impl CodeType for MapCodeType {
    open spec fn label(&self) -> Seq<char> {
        "[String: "@ + swift_type(self.inner) + "]"@
    }

    fn type_label(&self) -> (res: String)
        ensures
            res@ == "[String: "@ + swift_type(self.inner) + "]"@,
    {
        wrapped("[String: ", type_swift(&self.inner).as_str(), "]")
    }

    fn canonical_name(&self) -> (res: String)
        ensures
            res@ == "Map"@ + canonical(self.inner),
    {
        let mut s = owned("Map");
        push_str(&mut s, self.inner.canonical_name().as_str());
        s
    }

    fn helper_code(&self) -> (res: Option<String>)
        ensures
            res matches Some(h) && h@ == "// Helper code for "@ + "[String: "@ + swift_type(self.inner)
                + "]"@ + " is found in RustBufferHelper.swift"@,
    {
        Some(wrapped("// Helper code for ", self.type_label().as_str(), " is found in RustBufferHelper.swift"))
    }
}

} // verus!
