//! # Attribute definitions for a component interface.
//!
//! UDL attributes such as `[ByRef]` or `[Throws=Error]` are parsed by weedle;
//! [`Attribute::try_from`] turns one into an [`Attribute`] representing one of the
//! attributes that we support, and [`parse_attributes`] turns a list of them into
//! a vec of same, for one kind of definition, erroring out on duplicates and on
//! attributes that the definition does not support.

use vstd::prelude::*;

use weedle::attribute::{ExtendedAttribute, ExtendedAttributeList, IdentifierOrString};
use weedle::Parse;

use crate::text::{owned, push_str, str_eq};

verus! {

/// A parsed UDL attribute: what turning it into an [`Attribute`] reads of the
/// syntax tree, and the text of the tree, which tells two attributes apart.
#[derive(Debug)]
pub enum AttributeSyntax {
    /// A plain name, such as `[ByRef]`.
    NoArgs { name: String, syntax: String },
    /// An assignment, such as `[Throws=Error]`; the value is an identifier or a string.
    Ident { lhs: String, rhs: String, syntax: String },
    /// Any other form of attribute.
    Other { syntax: String },
}

impl AttributeSyntax {
    /// The text of the syntax tree.
    pub open spec fn syntax(&self) -> Seq<char> {
        match self {
            AttributeSyntax::NoArgs { syntax, .. } => syntax@,
            AttributeSyntax::Ident { syntax, .. } => syntax@,
            AttributeSyntax::Other { syntax } => syntax@,
        }
    }

    fn syntax_str(&self) -> (res: &str)
        ensures
            res@ == self.syntax(),
    {
        match self {
            AttributeSyntax::NoArgs { syntax, .. } => syntax.as_str(),
            AttributeSyntax::Ident { syntax, .. } => syntax.as_str(),
            AttributeSyntax::Other { syntax } => syntax.as_str(),
        }
    }
}

/// The attribute that weedle parses from the text, if it parses one.
pub uninterp spec fn parsed_attribute(text: Seq<char>) -> Option<AttributeSyntax>;

/// The attribute list that weedle parses from the text, if it parses one.
pub uninterp spec fn parsed_attribute_list(text: Seq<char>) -> Option<Seq<AttributeSyntax>>;

/// How the `Debug` format of `str` writes the string: in double quotes, with
/// the characters that need it escaped.
pub uninterp spec fn debug_quoted(s: Seq<char>) -> Seq<char>;

#[verifier::external_type_specification]
#[verifier::external_body]
pub struct ExExtendedAttribute<'a>(ExtendedAttribute<'a>);

/// `weedle::attribute::ExtendedAttribute::parse`: parses a UDL attribute from the
/// start of the text. What it gives depends on the text alone, and is named,
/// not stated.
#[verifier::external_body]
fn parse_attribute_syntax(text: &str) -> (res: Option<AttributeSyntax>)
    ensures
        res == parsed_attribute(text@),
{
    match ExtendedAttribute::parse(text) {
        Ok((_, a)) => Some(attribute_syntax_of(&a)),
        Err(_) => None,
    }
}

/// `weedle::attribute::ExtendedAttributeList::parse`: parses a bracketed UDL
/// attribute list from the start of the text. What it gives depends on the
/// text alone, and is named, not stated.
#[verifier::external_body]
fn parse_attribute_list_syntax(text: &str) -> (res: Option<Vec<AttributeSyntax>>)
    ensures
        res matches Some(v) ==> parsed_attribute_list(text@) == Some(v@),
        res is None ==> parsed_attribute_list(text@) is None,
{
    match ExtendedAttributeList::parse(text) {
        Ok((_, l)) => Some(attribute_list_syntax_of(&l.body.list)),
        Err(_) => None,
    }
}

/// Converts the attributes of a weedle attribute list, one for one, in order.
#[verifier::external_body]
pub(crate) fn attribute_list_syntax_of(list: &[ExtendedAttribute]) -> Vec<AttributeSyntax> {
    list.iter().map(attribute_syntax_of).collect()
}

/// Converts a weedle attribute, variant for variant, with the text of its tree.
#[verifier::external_body]
pub(crate) fn attribute_syntax_of(a: &ExtendedAttribute) -> AttributeSyntax {
    let syntax = format!("{:?}", a);
    match a {
        ExtendedAttribute::NoArgs(x) => AttributeSyntax::NoArgs { name: x.0.0.to_string(), syntax },
        ExtendedAttribute::Ident(x) => AttributeSyntax::Ident {
            lhs: x.lhs_identifier.0.to_string(),
            rhs: match x.rhs { IdentifierOrString::Identifier(i) => i.0, IdentifierOrString::String(s) => s.0 }.to_string(),
            syntax,
        },
        _ => AttributeSyntax::Other { syntax },
    }
}

/// The `Debug` format of a string slice (`<str as Debug>::fmt`).
#[verifier::external_body]
fn debug_str(s: &str) -> (res: String)
    ensures
        res@ == debug_quoted(s@),
{
    format!("{:?}", s)
}

/// Represents an attribute parsed from UDL, like `[ByRef]` or `[Throws]`.
///
/// These don't convert directly into parts of a component interface, but may
/// influence the properties of things like functions and arguments.
#[derive(Debug)]
pub enum Attribute {
    ByRef,
    Enum,
    Error,
    Name(String),
    Threadsafe,
    Throws(String),
}

/// The `Debug` format of an attribute.
pub open spec fn attribute_text(a: Attribute) -> Seq<char> {
    match a {
        Attribute::ByRef => "ByRef"@,
        Attribute::Enum => "Enum"@,
        Attribute::Error => "Error"@,
        Attribute::Name(s) => "Name("@ + debug_quoted(s@) + ")"@,
        Attribute::Threadsafe => "Threadsafe"@,
        Attribute::Throws(s) => "Throws("@ + debug_quoted(s@) + ")"@,
    }
}

/// The attribute that a parsed UDL attribute stands for, or why it stands for none.
pub open spec fn attribute_of(s: AttributeSyntax) -> Result<Attribute, Seq<char>> {
    match s {
        AttributeSyntax::NoArgs { name, .. } => if name@ == "ByRef"@ {
            Ok(Attribute::ByRef)
        } else if name@ == "Enum"@ {
            Ok(Attribute::Enum)
        } else if name@ == "Error"@ {
            Ok(Attribute::Error)
        } else if name@ == "Threadsafe"@ {
            Ok(Attribute::Threadsafe)
        } else {
            Err("ExtendedAttributeNoArgs not supported: "@ + debug_quoted(name@))
        },
        AttributeSyntax::Ident { lhs, rhs, .. } => if lhs@ == "Name"@ {
            Ok(Attribute::Name(rhs))
        } else if lhs@ == "Throws"@ {
            Ok(Attribute::Throws(rhs))
        } else {
            Err("Attribute identity Identifier not supported: "@ + debug_quoted(lhs@))
        },
        AttributeSyntax::Other { syntax } => Err("Attribute not supported: "@ + syntax@),
    }
}

/// An outcome with the error's text.
pub open spec fn text_outcome<T>(r: Result<T, String>) -> Result<T, Seq<char>> {
    match r {
        Ok(t) => Ok(t),
        Err(e) => Err(e@),
    }
}

impl Attribute {
    pub fn is_error(&self) -> (res: bool)
        ensures
            res == (*self is Error),
    {
        matches!(self, Attribute::Error)
    }

    pub fn is_enum(&self) -> (res: bool)
        ensures
            res == (*self is Enum),
    {
        matches!(self, Attribute::Enum)
    }

    /// Convert a parsed UDL attribute into an `Attribute`, or error out if the
    /// attribute is not supported.
    pub fn try_from(attr: &AttributeSyntax) -> (res: Result<Attribute, String>)
        ensures
            text_outcome(res) == attribute_of(*attr),
    {
        match attr {
            // Matches plain named attributes like "[ByRef"].
            AttributeSyntax::NoArgs { name, .. } => {
                if str_eq(name.as_str(), "ByRef") {
                    Ok(Attribute::ByRef)
                } else if str_eq(name.as_str(), "Enum") {
                    Ok(Attribute::Enum)
                } else if str_eq(name.as_str(), "Error") {
                    Ok(Attribute::Error)
                } else if str_eq(name.as_str(), "Threadsafe") {
                    Ok(Attribute::Threadsafe)
                } else {
                    let mut m = owned("ExtendedAttributeNoArgs not supported: ");
                    push_str(&mut m, debug_str(name.as_str()).as_str());
                    Err(m)
                }
            },
            // Matches assignment-style attributes like ["Throws=Error"]
            AttributeSyntax::Ident { lhs, rhs, .. } => {
                if str_eq(lhs.as_str(), "Name") {
                    Ok(Attribute::Name(rhs.clone()))
                } else if str_eq(lhs.as_str(), "Throws") {
                    Ok(Attribute::Throws(rhs.clone()))
                } else {
                    let mut m = owned("Attribute identity Identifier not supported: ");
                    push_str(&mut m, debug_str(lhs.as_str()).as_str());
                    Err(m)
                }
            },
            AttributeSyntax::Other { syntax } => {
                let mut m = owned("Attribute not supported: ");
                push_str(&mut m, syntax.as_str());
                Err(m)
            },
        }
    }

    /// Parses a UDL attribute and converts it, as [`Attribute::try_from`] does;
    /// `None` where the text holds no attribute.
    pub fn from_udl(text: &str) -> (res: Option<Result<Attribute, String>>)
        ensures
            match parsed_attribute(text@) {
                None => res is None,
                Some(s) => res matches Some(r) && text_outcome(r) == attribute_of(s),
            },
    {
        match parse_attribute_syntax(text) {
            Some(s) => Some(Attribute::try_from(&s)),
            None => None,
        }
    }

    /// The `Debug` format of the attribute.
    fn text(&self) -> (res: String)
        ensures
            res@ == attribute_text(*self),
    {
        match self {
            Attribute::ByRef => owned("ByRef"),
            Attribute::Enum => owned("Enum"),
            Attribute::Error => owned("Error"),
            Attribute::Threadsafe => owned("Threadsafe"),
            Attribute::Name(s) => {
                let mut m = owned("Name(");
                push_str(&mut m, debug_str(s.as_str()).as_str());
                push_str(&mut m, ")");
                m
            },
            Attribute::Throws(s) => {
                let mut m = owned("Throws(");
                push_str(&mut m, debug_str(s.as_str()).as_str());
                push_str(&mut m, ")");
                m
            },
        }
    }
}

/// The kinds of definition that attributes can be attached to, each of which
/// supports some of them.
#[derive(Debug, Clone, Copy, PartialEq, Eq, Structural)]
pub enum AttributeTarget {
    Enum,
    Function,
    Argument,
    Interface,
    Constructor,
}

/// Whether a definition of the kind supports the attribute.
pub open spec fn supports(target: AttributeTarget, a: Attribute) -> bool {
    match target {
        AttributeTarget::Enum => a is Error,
        AttributeTarget::Function => a is Throws,
        AttributeTarget::Argument => a is ByRef,
        AttributeTarget::Interface => a is Enum || a is Threadsafe,
        AttributeTarget::Constructor => a is Throws || a is Name,
    }
}

/// How the kind of definition is named in errors.
pub open spec fn target_text(target: AttributeTarget) -> Seq<char> {
    match target {
        AttributeTarget::Enum => "enums"@,
        AttributeTarget::Function => "functions or methods"@,
        AttributeTarget::Argument => "arguments"@,
        AttributeTarget::Interface => "interface definition"@,
        AttributeTarget::Constructor => "constructors"@,
    }
}

/// Whether an attribute before position `k` has the same syntax as the one at `k`.
pub open spec fn duplicated_at(list: Seq<AttributeSyntax>, k: int) -> bool {
    exists|i: int| 0 <= i < k && #[trigger] list[i].syntax() == list[k].syntax()
}

/// The first position, from `k` on, that duplicates an earlier attribute.
pub open spec fn first_duplicate_from(list: Seq<AttributeSyntax>, k: int) -> Option<int>
    decreases list.len() - k,
{
    if k < 0 || k >= list.len() {
        None
    } else if duplicated_at(list, k) {
        Some(k)
    } else {
        first_duplicate_from(list, k + 1)
    }
}

/// Converts the attributes from position `k` on, stopping at the first failure.
pub open spec fn attributes_from(list: Seq<AttributeSyntax>, k: int) -> Result<
    Seq<Attribute>,
    Seq<char>,
>
    decreases list.len() - k,
{
    if k < 0 || k >= list.len() {
        Ok(Seq::empty())
    } else {
        match attribute_of(list[k]) {
            Err(e) => Err(e),
            Ok(a) => match attributes_from(list, k + 1) {
                Ok(rest) => Ok(seq![a] + rest),
                Err(e) => Err(e),
            },
        }
    }
}

/// The first attribute, from position `k` on, that the definition does not support.
pub open spec fn first_unsupported_from(
    attrs: Seq<Attribute>,
    target: AttributeTarget,
    k: int,
) -> Option<Attribute>
    decreases attrs.len() - k,
{
    if k < 0 || k >= attrs.len() {
        None
    } else if !supports(target, attrs[k]) {
        Some(attrs[k])
    } else {
        first_unsupported_from(attrs, target, k + 1)
    }
}

/// What parsing a list of attributes for a kind of definition gives: an error
/// on the first duplicated attribute; else on the first that is not one we
/// support; else on the first that the definition does not support; else the
/// attributes, in order.
pub open spec fn attributes_outcome(list: Seq<AttributeSyntax>, target: AttributeTarget) -> Result<
    Seq<Attribute>,
    Seq<char>,
> {
    match first_duplicate_from(list, 0) {
        Some(k) => Err("Duplicated ExtendedAttribute: "@ + list[k].syntax()),
        None => match attributes_from(list, 0) {
            Err(e) => Err(e),
            Ok(attrs) => match first_unsupported_from(attrs, target, 0) {
                Some(a) => Err(attribute_text(a) + " not supported for "@ + target_text(target)),
                None => Ok(attrs),
            },
        },
    }
}

/// An outcome of a list of attributes, with the list's contents and the error's text.
pub open spec fn list_outcome(r: Result<Vec<Attribute>, String>) -> Result<Seq<Attribute>, Seq<char>> {
    match r {
        Ok(v) => Ok(v@),
        Err(e) => Err(e@),
    }
}

fn find_duplicate(list: &[AttributeSyntax]) -> (res: Option<usize>)
    ensures
        res matches Some(k) ==> k < list@.len() && first_duplicate_from(list@, 0) == Some(k as int),
        res is None ==> first_duplicate_from(list@, 0) is None,
{
    let mut k: usize = 0;
    while k < list.len()
        invariant
            k <= list@.len(),
            first_duplicate_from(list@, 0) == first_duplicate_from(list@, k as int),
        decreases list.len() - k,
    {
        let mut i: usize = 0;
        while i < k
            invariant
                i <= k < list@.len(),
                first_duplicate_from(list@, 0) == first_duplicate_from(list@, k as int),
                forall|j: int| 0 <= j < i ==> list@[j].syntax() != list@[k as int].syntax(),
            decreases k - i,
        {
            if str_eq(list[i].syntax_str(), list[k].syntax_str()) {
                assert(duplicated_at(list@, k as int));
                return Some(k);
            }
            i = i + 1;
        }
        assert(!duplicated_at(list@, k as int));
        k = k + 1;
    }
    None
}

fn convert_attributes(list: &[AttributeSyntax]) -> (res: Result<Vec<Attribute>, String>)
    ensures
        list_outcome(res) == attributes_from(list@, 0),
{
    let mut attrs: Vec<Attribute> = Vec::new();
    let mut k: usize = 0;
    while k < list.len()
        invariant
            k <= list@.len(),
            attributes_from(list@, 0) == match attributes_from(list@, k as int) {
                Ok(rest) => Ok(attrs@ + rest),
                Err(e) => Err::<Seq<Attribute>, Seq<char>>(e),
            },
        decreases list.len() - k,
    {
        match Attribute::try_from(&list[k]) {
            Ok(a) => {
                proof {
                    let ghost rest = attributes_from(list@, k + 1);
                    if let Ok(r) = rest {
                        assert(attrs@ + (seq![a] + r) =~= attrs@.push(a) + r);
                    }
                }
                attrs.push(a);
            },
            Err(e) => {
                return Err(e);
            },
        }
        k = k + 1;
    }
    assert(attrs@ + Seq::<Attribute>::empty() =~= attrs@);
    Ok(attrs)
}

fn supported(target: AttributeTarget, attr: &Attribute) -> (res: bool)
    ensures
        res == supports(target, *attr),
{
    match target {
        AttributeTarget::Enum => matches!(attr, Attribute::Error),
        AttributeTarget::Function => matches!(attr, Attribute::Throws(_)),
        AttributeTarget::Argument => matches!(attr, Attribute::ByRef),
        AttributeTarget::Interface => matches!(attr, Attribute::Enum | Attribute::Threadsafe),
        AttributeTarget::Constructor => matches!(attr, Attribute::Throws(_) | Attribute::Name(_)),
    }
}

fn target_name(target: AttributeTarget) -> (res: String)
    ensures
        res@ == target_text(target),
{
    match target {
        AttributeTarget::Enum => owned("enums"),
        AttributeTarget::Function => owned("functions or methods"),
        AttributeTarget::Argument => owned("arguments"),
        AttributeTarget::Interface => owned("interface definition"),
        AttributeTarget::Constructor => owned("constructors"),
    }
}

/// Parse a list of UDL attributes into a list of `Attribute`s for a kind of
/// definition, erroring out on duplicates and on attributes that the
/// definition does not support.
pub fn parse_attributes(list: &[AttributeSyntax], target: AttributeTarget) -> (res: Result<
    Vec<Attribute>,
    String,
>)
    ensures
        list_outcome(res) == attributes_outcome(list@, target),
{
    if let Some(k) = find_duplicate(list) {
        let mut m = owned("Duplicated ExtendedAttribute: ");
        push_str(&mut m, list[k].syntax_str());
        return Err(m);
    }
    let attrs = match convert_attributes(list) {
        Ok(attrs) => attrs,
        Err(e) => {
            return Err(e);
        },
    };
    let mut k: usize = 0;
    while k < attrs.len()
        invariant
            k <= attrs@.len(),
            first_duplicate_from(list@, 0) is None,
            attributes_from(list@, 0) == Ok::<Seq<Attribute>, Seq<char>>(attrs@),
            first_unsupported_from(attrs@, target, 0) == first_unsupported_from(
                attrs@,
                target,
                k as int,
            ),
        decreases attrs.len() - k,
    {
        if !supported(target, &attrs[k]) {
            let mut m = attrs[k].text();
            push_str(&mut m, " not supported for ");
            push_str(&mut m, target_name(target).as_str());
            return Err(m);
        }
        k = k + 1;
    }
    Ok(attrs)
}

/// Every attribute of a successfully parsed list is one the definition supports.
pub proof fn lemma_parsed_attributes_supported(list: Seq<AttributeSyntax>, target: AttributeTarget)
    requires
        attributes_outcome(list, target) is Ok,
    ensures
        forall|i: int|
            0 <= i < attributes_outcome(list, target)->Ok_0.len() ==> supports(
                target,
                #[trigger] attributes_outcome(list, target)->Ok_0[i],
            ),
{
    let attrs = attributes_outcome(list, target)->Ok_0;
    assert forall|i: int| 0 <= i < attrs.len() implies supports(target, #[trigger] attrs[i]) by {
        lemma_first_unsupported_none(attrs, target, 0, i);
    }
}

proof fn lemma_first_unsupported_none(
    attrs: Seq<Attribute>,
    target: AttributeTarget,
    k: int,
    i: int,
)
    requires
        0 <= k <= i < attrs.len(),
        first_unsupported_from(attrs, target, k) is None,
    ensures
        supports(target, attrs[i]),
    decreases i - k,
{
    if k < i {
        lemma_first_unsupported_none(attrs, target, k + 1, i);
    }
}

/// Whether any attribute is of the kind that the predicate picks.
pub open spec fn any_attribute(attrs: Seq<Attribute>, p: spec_fn(Attribute) -> bool) -> bool {
    exists|i: int| 0 <= i < attrs.len() && p(#[trigger] attrs[i])
}

/// The value of the first `Throws` attribute, from position `k` on.
pub open spec fn first_throws_from(attrs: Seq<Attribute>, k: int) -> Option<Seq<char>>
    decreases attrs.len() - k,
{
    if k < 0 || k >= attrs.len() {
        None
    } else {
        match attrs[k] {
            Attribute::Throws(s) => Some(s@),
            _ => first_throws_from(attrs, k + 1),
        }
    }
}

/// The value of the first `Name` attribute, from position `k` on.
pub open spec fn first_name_from(attrs: Seq<Attribute>, k: int) -> Option<Seq<char>>
    decreases attrs.len() - k,
{
    if k < 0 || k >= attrs.len() {
        None
    } else {
        match attrs[k] {
            Attribute::Name(s) => Some(s@),
            _ => first_name_from(attrs, k + 1),
        }
    }
}

/// An optional string slice's text.
pub open spec fn opt_text(o: Option<&str>) -> Option<Seq<char>> {
    match o {
        Some(s) => Some(s@),
        None => None,
    }
}

fn any_matching(attrs: &Vec<Attribute>, kind: u8) -> (res: bool)
    requires
        kind < 4,
    ensures
        res == exists|i: int|
            0 <= i < attrs@.len() && #[trigger] attribute_kind(attrs@[i]) == kind,
{
    let mut k: usize = 0;
    while k < attrs.len()
        invariant
            k <= attrs@.len(),
            forall|i: int| 0 <= i < k ==> attribute_kind(#[trigger] attrs@[i]) != kind,
        decreases attrs.len() - k,
    {
        let this: u8 = match &attrs[k] {
            Attribute::Error => 0,
            Attribute::Enum => 1,
            Attribute::ByRef => 2,
            Attribute::Threadsafe => 3,
            _ => 4,
        };
        assert(this == attribute_kind(attrs@[k as int]));
        if this == kind {
            return true;
        }
        k = k + 1;
    }
    false
}

/// The attributes that carry no value, numbered.
pub open spec fn attribute_kind(a: Attribute) -> u8 {
    match a {
        Attribute::Error => 0,
        Attribute::Enum => 1,
        Attribute::ByRef => 2,
        Attribute::Threadsafe => 3,
        _ => 4,
    }
}

fn find_throws(attrs: &Vec<Attribute>) -> (res: Option<&str>)
    ensures
        opt_text(res) == first_throws_from(attrs@, 0),
{
    let mut k: usize = 0;
    while k < attrs.len()
        invariant
            k <= attrs@.len(),
            first_throws_from(attrs@, 0) == first_throws_from(attrs@, k as int),
        decreases attrs.len() - k,
    {
        if let Attribute::Throws(inner) = &attrs[k] {
            return Some(inner.as_str());
        }
        k = k + 1;
    }
    None
}

fn find_name(attrs: &Vec<Attribute>) -> (res: Option<&str>)
    ensures
        opt_text(res) == first_name_from(attrs@, 0),
{
    let mut k: usize = 0;
    while k < attrs.len()
        invariant
            k <= attrs@.len(),
            first_name_from(attrs@, 0) == first_name_from(attrs@, k as int),
        decreases attrs.len() - k,
    {
        if let Attribute::Name(inner) = &attrs[k] {
            return Some(inner.as_str());
        }
        k = k + 1;
    }
    None
}

/// Attributes that can be attached to an `enum` definition in the UDL.
/// There's only one case here: using `[Error]` to mark an enum as an error class.
#[derive(Debug)]
pub struct EnumAttributes(Vec<Attribute>);

impl EnumAttributes {
    pub closed spec fn attrs(&self) -> Seq<Attribute> {
        self.0@
    }

    /// No attributes.
    pub fn new() -> (res: Self)
        ensures
            res.attrs() == Seq::<Attribute>::empty(),
    {
        EnumAttributes(Vec::new())
    }

    pub fn contains_error_attr(&self) -> (res: bool)
        ensures
            res == exists|i: int| 0 <= i < self.attrs().len() && #[trigger] self.attrs()[i] is Error,
    {
        let res = any_matching(&self.0, 0);
        proof {
            if res {
                let i = choose|i: int| 0 <= i < self.0@.len() && attribute_kind(self.0@[i]) == 0;
                assert(self.attrs()[i] is Error);
            } else {
                assert forall|i: int| 0 <= i < self.attrs().len() implies !(#[trigger] self.attrs()[i] is Error) by {
                    assert(attribute_kind(self.0@[i]) != 0);
                }
            }
        }
        res
    }

    /// The attributes of an `enum` definition: `[Error]` alone is supported.
    pub fn try_from(list: &[AttributeSyntax]) -> (res: Result<Self, String>)
        ensures
            match res {
                Ok(a) => attributes_outcome(list@, AttributeTarget::Enum) == Ok::<Seq<Attribute>, Seq<char>>(a.attrs()),
                Err(e) => attributes_outcome(list@, AttributeTarget::Enum) == Err::<Seq<Attribute>, Seq<char>>(e@),
            },
    {
        match parse_attributes(list, AttributeTarget::Enum) {
            Ok(attrs) => Ok(EnumAttributes(attrs)),
            Err(e) => Err(e),
        }
    }

    /// Parses a bracketed UDL attribute list for an `enum` definition, as
    /// [`EnumAttributes::try_from`] does; `None` where the text holds no list.
    pub fn from_udl(text: &str) -> (res: Option<Result<Self, String>>)
        ensures
            match parsed_attribute_list(text@) {
                None => res is None,
                Some(l) => res matches Some(r) && match r {
                    Ok(a) => attributes_outcome(l, AttributeTarget::Enum) == Ok::<Seq<Attribute>, Seq<char>>(a.attrs()),
                    Err(e) => attributes_outcome(l, AttributeTarget::Enum) == Err::<Seq<Attribute>, Seq<char>>(e@),
                },
            },
    {
        match parse_attribute_list_syntax(text) {
            Some(l) => Some(Self::try_from(l.as_slice())),
            None => None,
        }
    }
}

/// Represents UDL attributes that might appear on a function or method: `[Throws=ErrorName]`
/// for functions that can produce an error.
#[derive(Debug)]
pub struct FunctionAttributes(Vec<Attribute>);

impl FunctionAttributes {
    pub closed spec fn attrs(&self) -> Seq<Attribute> {
        self.0@
    }

    /// No attributes.
    pub fn new() -> (res: Self)
        ensures
            res.attrs() == Seq::<Attribute>::empty(),
    {
        FunctionAttributes(Vec::new())
    }

    /// The error type that a `[Throws=..]` attribute names, if there is one.
    pub fn get_throws_err(&self) -> (res: Option<&str>)
        ensures
            opt_text(res) == first_throws_from(self.attrs(), 0),
    {
        find_throws(&self.0)
    }

    /// The attributes of such a definition, parsed as [`parse_attributes`] does.
    pub fn try_from(list: &[AttributeSyntax]) -> (res: Result<Self, String>)
        ensures
            match res {
                Ok(a) => attributes_outcome(list@, AttributeTarget::Function) == Ok::<Seq<Attribute>, Seq<char>>(a.attrs()),
                Err(e) => attributes_outcome(list@, AttributeTarget::Function) == Err::<Seq<Attribute>, Seq<char>>(e@),
            },
    {
        match parse_attributes(list, AttributeTarget::Function) {
            Ok(attrs) => Ok(FunctionAttributes(attrs)),
            Err(e) => Err(e),
        }
    }

    /// Parses a bracketed UDL attribute list for such a definition, as
    /// [`FunctionAttributes::try_from`] does; `None` where the text holds no list.
    pub fn from_udl(text: &str) -> (res: Option<Result<Self, String>>)
        ensures
            match parsed_attribute_list(text@) {
                None => res is None,
                Some(l) => res matches Some(r) && match r {
                    Ok(a) => attributes_outcome(l, AttributeTarget::Function) == Ok::<Seq<Attribute>, Seq<char>>(a.attrs()),
                    Err(e) => attributes_outcome(l, AttributeTarget::Function) == Err::<Seq<Attribute>, Seq<char>>(e@),
                },
            },
    {
        match parse_attribute_list_syntax(text) {
            Some(l) => Some(Self::try_from(l.as_slice())),
            None => None,
        }
    }
}

/// Represents UDL attributes that might appear on a function argument: `[ByRef]` for
/// arguments that should be passed by reference in the generated Rust scaffolding.
#[derive(Debug)]
pub struct ArgumentAttributes(Vec<Attribute>);

impl ArgumentAttributes {
    pub closed spec fn attrs(&self) -> Seq<Attribute> {
        self.0@
    }

    /// No attributes.
    pub fn new() -> (res: Self)
        ensures
            res.attrs() == Seq::<Attribute>::empty(),
    {
        ArgumentAttributes(Vec::new())
    }

    /// Whether the argument is passed by reference.
    pub fn by_ref(&self) -> (res: bool)
        ensures
            res == exists|i: int| 0 <= i < self.attrs().len() && #[trigger] self.attrs()[i] is ByRef,
    {
        let res = any_matching(&self.0, 2);
        proof {
            if res {
                let i = choose|i: int| 0 <= i < self.0@.len() && attribute_kind(self.0@[i]) == 2;
                assert(self.attrs()[i] is ByRef);
            } else {
                assert forall|i: int| 0 <= i < self.attrs().len() implies !(#[trigger] self.attrs()[i] is ByRef) by {
                    assert(attribute_kind(self.0@[i]) != 2);
                }
            }
        }
        res
    }

    /// The attributes of such a definition, parsed as [`parse_attributes`] does.
    pub fn try_from(list: &[AttributeSyntax]) -> (res: Result<Self, String>)
        ensures
            match res {
                Ok(a) => attributes_outcome(list@, AttributeTarget::Argument) == Ok::<Seq<Attribute>, Seq<char>>(a.attrs()),
                Err(e) => attributes_outcome(list@, AttributeTarget::Argument) == Err::<Seq<Attribute>, Seq<char>>(e@),
            },
    {
        match parse_attributes(list, AttributeTarget::Argument) {
            Ok(attrs) => Ok(ArgumentAttributes(attrs)),
            Err(e) => Err(e),
        }
    }

    /// Parses a bracketed UDL attribute list for such a definition, as
    /// [`ArgumentAttributes::try_from`] does; `None` where the text holds no list.
    pub fn from_udl(text: &str) -> (res: Option<Result<Self, String>>)
        ensures
            match parsed_attribute_list(text@) {
                None => res is None,
                Some(l) => res matches Some(r) && match r {
                    Ok(a) => attributes_outcome(l, AttributeTarget::Argument) == Ok::<Seq<Attribute>, Seq<char>>(a.attrs()),
                    Err(e) => attributes_outcome(l, AttributeTarget::Argument) == Err::<Seq<Attribute>, Seq<char>>(e@),
                },
            },
    {
        match parse_attribute_list_syntax(text) {
            Some(l) => Some(Self::try_from(l.as_slice())),
            None => None,
        }
    }
}

/// Represents UDL attributes that might appear on a constructor: `[Throws=ErrorName]` and
/// `[Name=ConstructorName]`.
#[derive(Debug)]
pub struct ConstructorAttributes(Vec<Attribute>);

impl ConstructorAttributes {
    pub closed spec fn attrs(&self) -> Seq<Attribute> {
        self.0@
    }

    /// No attributes.
    pub fn new() -> (res: Self)
        ensures
            res.attrs() == Seq::<Attribute>::empty(),
    {
        ConstructorAttributes(Vec::new())
    }

    /// The error type that a `[Throws=..]` attribute names, if there is one.
    pub fn get_throws_err(&self) -> (res: Option<&str>)
        ensures
            opt_text(res) == first_throws_from(self.attrs(), 0),
    {
        find_throws(&self.0)
    }

    /// The name that a `[Name=..]` attribute gives, if there is one.
    pub fn get_name(&self) -> (res: Option<&str>)
        ensures
            opt_text(res) == first_name_from(self.attrs(), 0),
    {
        find_name(&self.0)
    }

    /// The attributes of such a definition, parsed as [`parse_attributes`] does.
    pub fn try_from(list: &[AttributeSyntax]) -> (res: Result<Self, String>)
        ensures
            match res {
                Ok(a) => attributes_outcome(list@, AttributeTarget::Constructor) == Ok::<Seq<Attribute>, Seq<char>>(a.attrs()),
                Err(e) => attributes_outcome(list@, AttributeTarget::Constructor) == Err::<Seq<Attribute>, Seq<char>>(e@),
            },
    {
        match parse_attributes(list, AttributeTarget::Constructor) {
            Ok(attrs) => Ok(ConstructorAttributes(attrs)),
            Err(e) => Err(e),
        }
    }

    /// Parses a bracketed UDL attribute list for such a definition, as
    /// [`ConstructorAttributes::try_from`] does; `None` where the text holds no list.
    pub fn from_udl(text: &str) -> (res: Option<Result<Self, String>>)
        ensures
            match parsed_attribute_list(text@) {
                None => res is None,
                Some(l) => res matches Some(r) && match r {
                    Ok(a) => attributes_outcome(l, AttributeTarget::Constructor) == Ok::<Seq<Attribute>, Seq<char>>(a.attrs()),
                    Err(e) => attributes_outcome(l, AttributeTarget::Constructor) == Err::<Seq<Attribute>, Seq<char>>(e@),
                },
            },
    {
        match parse_attribute_list_syntax(text) {
            Some(l) => Some(Self::try_from(l.as_slice())),
            None => None,
        }
    }
}

/// Represents UDL attributes that might appear on an `interface` definition:
/// `[Enum]` or `[Threadsafe]`, but not both.
#[derive(Debug)]
pub struct InterfaceAttributes(Vec<Attribute>);

/// What parsing the attributes of an `interface` definition gives: as for any
/// definition, but more than one attribute conflict.
pub open spec fn interface_attributes_outcome(list: Seq<AttributeSyntax>) -> Result<
    Seq<Attribute>,
    Seq<char>,
> {
    match attributes_outcome(list, AttributeTarget::Interface) {
        Ok(attrs) => if attrs.len() > 1 {
            Err("conflicting attributes on interface definition"@)
        } else {
            Ok(attrs)
        },
        Err(e) => Err(e),
    }
}

impl InterfaceAttributes {
    pub closed spec fn attrs(&self) -> Seq<Attribute> {
        self.0@
    }

    /// At most one attribute, which an interface definition supports.
    pub closed spec fn wf(&self) -> bool {
        &&& self.0@.len() <= 1
        &&& forall|i: int| 0 <= i < self.0@.len() ==> supports(AttributeTarget::Interface, #[trigger] self.0@[i])
    }

    /// No attributes.
    pub fn new() -> (res: Self)
        ensures
            res.wf(),
            res.attrs() == Seq::<Attribute>::empty(),
    {
        InterfaceAttributes(Vec::new())
    }

    /// Whether the interface is an enum: `[Enum]`.
    pub fn contains_enum_attr(&self) -> (res: bool)
        ensures
            res == exists|i: int| 0 <= i < self.attrs().len() && #[trigger] self.attrs()[i] is Enum,
    {
        let res = any_matching(&self.0, 1);
        proof {
            if res {
                let i = choose|i: int| 0 <= i < self.0@.len() && attribute_kind(self.0@[i]) == 1;
                assert(self.attrs()[i] is Enum);
            } else {
                assert forall|i: int| 0 <= i < self.attrs().len() implies !(#[trigger] self.attrs()[i] is Enum) by {
                    assert(attribute_kind(self.0@[i]) != 1);
                }
            }
        }
        res
    }

    /// Whether the interface is thread-safe: `[Threadsafe]`.
    pub fn threadsafe(&self) -> (res: bool)
        ensures
            res == exists|i: int| 0 <= i < self.attrs().len() && #[trigger] self.attrs()[i] is Threadsafe,
    {
        let res = any_matching(&self.0, 3);
        proof {
            if res {
                let i = choose|i: int| 0 <= i < self.0@.len() && attribute_kind(self.0@[i]) == 3;
                assert(self.attrs()[i] is Threadsafe);
            } else {
                assert forall|i: int| 0 <= i < self.attrs().len() implies !(#[trigger] self.attrs()[i] is Threadsafe) by {
                    assert(attribute_kind(self.0@[i]) != 3);
                }
            }
        }
        res
    }

    /// The attributes of an `interface` definition, parsed as [`parse_attributes`]
    /// does; more than one is an error, since an interface can't be both
    /// `[Threadsafe]` and an `[Enum]`.
    pub fn try_from(list: &[AttributeSyntax]) -> (res: Result<Self, String>)
        ensures
            match res {
                Ok(a) => a.wf() && interface_attributes_outcome(list@) == Ok::<Seq<Attribute>, Seq<char>>(a.attrs()),
                Err(e) => interface_attributes_outcome(list@) == Err::<Seq<Attribute>, Seq<char>>(e@),
            },
    {
        match parse_attributes(list, AttributeTarget::Interface) {
            Ok(attrs) => {
                // Can't be both `[Threadsafe]` and an `[Enum]`.
                if attrs.len() > 1 {
                    return Err(owned("conflicting attributes on interface definition"));
                }
                proof {
                    lemma_parsed_attributes_supported(list@, AttributeTarget::Interface);
                }
                Ok(InterfaceAttributes(attrs))
            },
            Err(e) => Err(e),
        }
    }

    /// Parses a bracketed UDL attribute list for an `interface` definition, as
    /// [`InterfaceAttributes::try_from`] does; `None` where the text holds no list.
    pub fn from_udl(text: &str) -> (res: Option<Result<Self, String>>)
        ensures
            match parsed_attribute_list(text@) {
                None => res is None,
                Some(l) => res matches Some(r) && match r {
                    Ok(a) => a.wf() && interface_attributes_outcome(l) == Ok::<Seq<Attribute>, Seq<char>>(a.attrs()),
                    Err(e) => interface_attributes_outcome(l) == Err::<Seq<Attribute>, Seq<char>>(e@),
                },
            },
    {
        match parse_attribute_list_syntax(text) {
            Some(l) => Some(Self::try_from(l.as_slice())),
            None => None,
        }
    }
}

/// An interface is never both an `[Enum]` and `[Threadsafe]`.
pub proof fn lemma_interface_enum_or_threadsafe(a: InterfaceAttributes)
    requires
        a.wf(),
    ensures
        !((exists|i: int| 0 <= i < a.attrs().len() && #[trigger] a.attrs()[i] is Enum) && (exists|
            i: int,
        | 0 <= i < a.attrs().len() && #[trigger] a.attrs()[i] is Threadsafe)),
{
}

/// Methods take the attributes that functions take.
pub type MethodAttributes = FunctionAttributes;

} // verus!
