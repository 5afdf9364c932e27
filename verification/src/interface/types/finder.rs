//! # Finding the named types defined in a UDL interface.
//!
//! Before the UDL is parsed in detail, a "type discovery" pass walks its
//! definitions, looking for the newly-defined types, and accumulates them in a
//! [`TypeUniverse`]: an `interface` defines an object type (or an enum, with the
//! `[Enum]` attribute), a `callback interface` a callback interface type, a
//! `dictionary` a record, an `enum` an enum (or an error, with the `[Error]`
//! attribute), and a `typedef` a name for a type that must already be known. This pass discovers
//! only names and kinds; knowing them makes the later, detailed parsing simple.

use vstd::prelude::*;

use weedle::{
    CallbackInterfaceDefinition, Definition, Definitions, DictionaryDefinition, EnumDefinition,
    InterfaceDefinition, NamespaceDefinition, Parse, TypedefDefinition,
};

use super::resolver::{resolved, type_expr_of, TypeExpr};
use super::{builtin_type, canonical, with_known, Type, TypeUniverse};
use crate::interface::attributes::{
    attribute_list_syntax_of, attributes_outcome, Attribute, AttributeSyntax, AttributeTarget,
    EnumAttributes, InterfaceAttributes, interface_attributes_outcome,
};
use crate::interface::syntax::{
    fields_syntax_of, members_syntax_of, namespace_members_syntax_of, FieldSyntax, MemberSyntax,
};
use crate::text::owned;

verus! {

/// A parsed UDL definition: what type discovery and building a component
/// read of the syntax tree.
#[derive(Debug)]
pub enum DefinitionSyntax {
    Namespace { name: String, members: Vec<MemberSyntax> },
    /// `interface`, with whether it inherits from another.
    Interface {
        name: String,
        attributes: Option<Vec<AttributeSyntax>>,
        inheritance: bool,
        members: Vec<MemberSyntax>,
    },
    /// `callback interface`, with whether it carries attributes.
    CallbackInterface { name: String, has_attributes: bool, members: Vec<MemberSyntax> },
    Dictionary { name: String, fields: Vec<FieldSyntax> },
    Enum { name: String, attributes: Option<Vec<AttributeSyntax>>, values: Vec<String> },
    /// `typedef`, with whether it and its type carry attributes, and the text
    /// of its syntax tree.
    Typedef {
        name: String,
        has_attributes: bool,
        type_has_attributes: bool,
        type_: TypeExpr,
        text: String,
    },
    /// Any other definition, which defines no type, with the text of its syntax tree.
    Other { text: String },
}

/// The definitions that weedle parses from the text, and the text that it
/// leaves unparsed, if it parses any.
pub uninterp spec fn parsed_definitions(text: Seq<char>) -> Option<(Seq<DefinitionSyntax>, Seq<char>)>;

#[verifier::external_type_specification]
#[verifier::external_body]
pub struct ExDefinition<'a>(Definition<'a>);

/// `weedle::Definitions::parse`: parses UDL definitions from the start of the
/// text. What it gives depends on the text alone, and is named, not stated.
#[verifier::external_body]
pub(crate) fn parse_definitions(text: &str) -> (res: Option<(Vec<DefinitionSyntax>, String)>)
    ensures
        match res {
            Some((d, rest)) => parsed_definitions(text@) == Some((d@, rest@)),
            None => parsed_definitions(text@) is None,
        },
{
    match Definitions::parse(text) {
        Ok((rest, defs)) => Some((defs.iter().map(definition_syntax_of).collect(), rest.to_string())),
        Err(_) => None,
    }
}

#[verifier::external_type_specification]
#[verifier::external_body]
pub struct ExInterfaceDefinition<'a>(InterfaceDefinition<'a>);

#[verifier::external_type_specification]
#[verifier::external_body]
pub struct ExCallbackInterfaceDefinition<'a>(CallbackInterfaceDefinition<'a>);

#[verifier::external_type_specification]
#[verifier::external_body]
pub struct ExNamespaceDefinition<'a>(NamespaceDefinition<'a>);

#[verifier::external_type_specification]
#[verifier::external_body]
pub struct ExDictionaryDefinition<'a>(DictionaryDefinition<'a>);

#[verifier::external_type_specification]
#[verifier::external_body]
pub struct ExEnumDefinition<'a>(EnumDefinition<'a>);

#[verifier::external_type_specification]
#[verifier::external_body]
pub struct ExTypedefDefinition<'a>(TypedefDefinition<'a>);

/// Converts a weedle definition, variant for variant.
#[verifier::external_body]
fn definition_syntax_of(d: &Definition) -> DefinitionSyntax {
    match d {
        Definition::Interface(x) => interface_syntax_of(x),
        Definition::CallbackInterface(x) => callback_interface_syntax_of(x),
        Definition::Namespace(x) => namespace_syntax_of(x),
        Definition::Dictionary(x) => dictionary_syntax_of(x),
        Definition::Enum(x) => enum_syntax_of(x),
        Definition::Typedef(x) => typedef_syntax_of(x, format!("{:?}", d)),
        _ => DefinitionSyntax::Other { text: format!("{:?}", d) },
    }
}

/// Converts a weedle interface definition.
#[verifier::external_body]
fn interface_syntax_of(x: &InterfaceDefinition) -> DefinitionSyntax {
    DefinitionSyntax::Interface {
        name: x.identifier.0.to_string(),
        attributes: x.attributes.as_ref().map(|l| attribute_list_syntax_of(&l.body.list)),
        inheritance: x.inheritance.is_some(),
        members: members_syntax_of(&x.members.body),
    }
}

/// Converts a weedle callback interface definition.
#[verifier::external_body]
fn callback_interface_syntax_of(x: &CallbackInterfaceDefinition) -> DefinitionSyntax {
    DefinitionSyntax::CallbackInterface {
        name: x.identifier.0.to_string(),
        has_attributes: x.attributes.is_some(),
        members: members_syntax_of(&x.members.body),
    }
}

/// Converts a weedle namespace definition.
#[verifier::external_body]
fn namespace_syntax_of(x: &NamespaceDefinition) -> DefinitionSyntax {
    DefinitionSyntax::Namespace {
        name: x.identifier.0.to_string(),
        members: namespace_members_syntax_of(&x.members.body),
    }
}

/// Converts a weedle dictionary definition.
#[verifier::external_body]
fn dictionary_syntax_of(x: &DictionaryDefinition) -> DefinitionSyntax {
    DefinitionSyntax::Dictionary {
        name: x.identifier.0.to_string(),
        fields: fields_syntax_of(&x.members.body),
    }
}

/// Converts a weedle enum definition, with its values in order.
#[verifier::external_body]
fn enum_syntax_of(x: &EnumDefinition) -> DefinitionSyntax {
    DefinitionSyntax::Enum {
        name: x.identifier.0.to_string(),
        attributes: x.attributes.as_ref().map(|l| attribute_list_syntax_of(&l.body.list)),
        values: x.values.body.list.iter().map(|v| v.0.to_string()).collect(),
    }
}

/// Converts a weedle typedef definition, with the text of the definition's tree.
#[verifier::external_body]
fn typedef_syntax_of(x: &TypedefDefinition, text: String) -> DefinitionSyntax {
    DefinitionSyntax::Typedef {
        name: x.identifier.0.to_string(),
        has_attributes: x.attributes.is_some(),
        type_has_attributes: x.type_.attributes.is_some(),
        type_: type_expr_of(&x.type_.type_),
        text,
    }
}

/// The state of a type universe: its named definitions and its known types.
pub type UniverseState = (Map<Seq<char>, Type>, Seq<Type>);

/// What defining a name for a type does to a universe, and the outcome: the
/// name must not be that of a builtin type; unless it is, the type becomes
/// known; then the name must not be defined already.
pub open spec fn defined(s: UniverseState, name: Seq<char>, t: Type) -> (Result<(), Seq<char>>, UniverseState) {
    if builtin_type(name) is Some {
        (Err("please don't shadow builtin types ("@ + name + ", "@ + canonical(t) + ")"@), s)
    } else if s.0.contains_key(name) {
        (Err("Conflicting type definition for \""@ + name + "\""@), (s.0, with_known(s.1, t)))
    } else {
        (Ok(()), (s.0.insert(name, t), with_known(s.1, t)))
    }
}

/// A name that was defined without error is then defined as the type it was
/// given, and that type is known.
pub proof fn lemma_defined_then_found(s: UniverseState, name: Seq<char>, t: Type)
    requires
        defined(s, name, t).0 is Ok,
    ensures
        defined(s, name, t).1.0.contains_key(name),
        defined(s, name, t).1.0[name] == t,
        super::has_type(defined(s, name, t).1.1, t),
{
    super::lemma_same_type_refl(t);
    if !super::has_type(s.1, t) {
        assert(with_known(s.1, t)[s.1.len() as int] == t);
    }
}

/// Whether some attribute of the list is `[Error]`.
pub open spec fn has_error_attribute(attrs: Seq<Attribute>) -> bool {
    exists|i: int| 0 <= i < attrs.len() && #[trigger] attrs[i] is Error
}

/// Whether some attribute of the list is `[Enum]`.
pub open spec fn has_enum_attribute(attrs: Seq<Attribute>) -> bool {
    exists|i: int| 0 <= i < attrs.len() && #[trigger] attrs[i] is Enum
}

/// What discovering the types of one definition does to a universe, and the outcome.
pub open spec fn found(s: UniverseState, d: DefinitionSyntax) -> (Result<(), Seq<char>>, UniverseState) {
    match d {
        DefinitionSyntax::Interface { name, attributes, .. } => match attributes {
            None => defined(s, name@, Type::Object(name)),
            Some(list) => match interface_attributes_outcome(list@) {
                Err(e) => (Err(e), s),
                Ok(attrs) => if has_enum_attribute(attrs) {
                    // Some enum types are defined using an `interface` with a special attribute.
                    defined(s, name@, Type::Enum(name))
                } else {
                    defined(s, name@, Type::Object(name))
                },
            },
        },
        DefinitionSyntax::CallbackInterface { name, has_attributes, .. } => if has_attributes {
            (Err("no typedef attributes are currently supported"@), s)
        } else {
            defined(s, name@, Type::CallbackInterface(name))
        },
        DefinitionSyntax::Dictionary { name, .. } => defined(s, name@, Type::Record(name)),
        DefinitionSyntax::Enum { name, attributes, .. } => match attributes {
            None => defined(s, name@, Type::Enum(name)),
            Some(list) => match attributes_outcome(list@, AttributeTarget::Enum) {
                Err(e) => (Err(e), s),
                Ok(attrs) => if has_error_attribute(attrs) {
                    // Our error types are defined using an `enum` with a special attribute.
                    defined(s, name@, Type::Error(name))
                } else {
                    defined(s, name@, Type::Enum(name))
                },
            },
        },
        DefinitionSyntax::Typedef { name, has_attributes, type_has_attributes, type_, .. } => {
            if has_attributes {
                (Err("no typedef attributes are currently supported"@), s)
            } else if type_has_attributes {
                (Err("type attributes are not supported yet"@), s)
            } else {
                // The typedef must refer to an already-defined type.
                let (r, k) = resolved(s.0, s.1, type_);
                match r {
                    Err(e) => (Err(e), (s.0, k)),
                    Ok(t) => defined((s.0, k), name@, t),
                }
            }
        },
        DefinitionSyntax::Namespace { .. } => (Ok(()), s),
        DefinitionSyntax::Other { .. } => (Ok(()), s),
    }
}

/// What discovering the types of the definitions, in order, does to a
/// universe, and the outcome: the first error stops it.
pub open spec fn found_all(s: UniverseState, ds: Seq<DefinitionSyntax>) -> (Result<(), Seq<char>>, UniverseState)
    decreases ds.len(),
{
    if ds.len() == 0 {
        (Ok(()), s)
    } else {
        let (r, s1) = found(s, ds[0]);
        match r {
            Err(e) => (Err(e), s1),
            Ok(()) => found_all(s1, ds.drop_first()),
        }
    }
}

/// An outcome with no value, with the error's text.
pub open spec fn unit_outcome(r: Result<(), String>) -> Result<(), Seq<char>> {
    match r {
        Ok(()) => Ok(()),
        Err(e) => Err(e@),
    }
}

impl TypeUniverse {
    /// The universe's state: its named definitions and its known types.
    pub open spec fn state(&self) -> UniverseState {
        (self.definitions(), self.known_types())
    }

    /// Defines a name for a type, as [`TypeUniverse::add_type_definition`] does,
    /// with the error's message.
    fn define(&mut self, name: &str, t: Type) -> (res: Result<(), String>)
        requires
            old(self).wf(),
        ensures
            final(self).wf(),
            (unit_outcome(res), final(self).state()) == defined(old(self).state(), name@, t),
    {
        match self.add_type_definition(name, t) {
            Ok(()) => Ok(()),
            Err(e) => Err(e.message()),
        }
    }

    /// Add the named types that a definition defines.
    pub fn add_type_definitions_to(&mut self, d: &DefinitionSyntax) -> (res: Result<(), String>)
        requires
            old(self).wf(),
        ensures
            final(self).wf(),
            (unit_outcome(res), final(self).state()) == found(old(self).state(), *d),
    {
        match d {
            DefinitionSyntax::Interface { name, attributes, .. } => match attributes {
                None => self.define(name.as_str(), Type::Object(name.clone())),
                Some(list) => match InterfaceAttributes::try_from(list.as_slice()) {
                    Err(e) => Err(e),
                    Ok(attrs) => if attrs.contains_enum_attr() {
                        self.define(name.as_str(), Type::Enum(name.clone()))
                    } else {
                        self.define(name.as_str(), Type::Object(name.clone()))
                    },
                },
            },
            DefinitionSyntax::CallbackInterface { name, has_attributes, .. } => {
                if *has_attributes {
                    return Err(owned("no typedef attributes are currently supported"));
                }
                self.define(name.as_str(), Type::CallbackInterface(name.clone()))
            },
            DefinitionSyntax::Dictionary { name, .. } => self.define(name.as_str(), Type::Record(name.clone())),
            DefinitionSyntax::Enum { name, attributes, .. } => match attributes {
                None => self.define(name.as_str(), Type::Enum(name.clone())),
                Some(list) => match EnumAttributes::try_from(list.as_slice()) {
                    Err(e) => Err(e),
                    Ok(attrs) => if attrs.contains_error_attr() {
                        self.define(name.as_str(), Type::Error(name.clone()))
                    } else {
                        self.define(name.as_str(), Type::Enum(name.clone()))
                    },
                },
            },
            DefinitionSyntax::Typedef { name, has_attributes, type_has_attributes, type_, .. } => {
                if *has_attributes {
                    return Err(owned("no typedef attributes are currently supported"));
                }
                if *type_has_attributes {
                    return Err(owned("type attributes are not supported yet"));
                }
                match self.resolve_type_expression(type_) {
                    Err(e) => Err(e),
                    Ok(t) => self.define(name.as_str(), t),
                }
            },
            DefinitionSyntax::Namespace { .. } => Ok(()),
            DefinitionSyntax::Other { .. } => Ok(()),
        }
    }

    /// Add the named types that the definitions define, in order, stopping at
    /// the first error.
    pub fn add_type_definitions_from(&mut self, defs: &[DefinitionSyntax]) -> (res: Result<(), String>)
        requires
            old(self).wf(),
        ensures
            final(self).wf(),
            (unit_outcome(res), final(self).state()) == found_all(old(self).state(), defs@),
    {
        let mut i: usize = 0;
        assert(defs@.skip(0) =~= defs@);
        while i < defs.len()
            invariant
                i <= defs@.len(),
                self.wf(),
                found_all(old(self).state(), defs@) == found_all(self.state(), defs@.skip(i as int)),
            decreases defs.len() - i,
        {
            proof {
                assert(defs@.skip(i as int).drop_first() =~= defs@.skip(i + 1));
                assert(defs@.skip(i as int)[0] == defs@[i as int]);
            }
            match self.add_type_definitions_to(&defs[i]) {
                Ok(()) => {},
                Err(e) => {
                    return Err(e);
                },
            }
            i = i + 1;
        }
        assert(defs@.skip(i as int) =~= Seq::<DefinitionSyntax>::empty());
        Ok(())
    }

    /// Parses UDL definitions and adds the named types they define, as
    /// [`TypeUniverse::add_type_definitions_from`] does; `None`, with the universe
    /// unchanged, where the text is not wholly UDL definitions.
    pub fn add_type_definitions_from_udl(&mut self, udl: &str) -> (res: Option<Result<(), String>>)
        requires
            old(self).wf(),
        ensures
            final(self).wf(),
            match parsed_definitions(udl@) {
                Some(p) => if p.1.len() == 0 {
                    res matches Some(r) && (unit_outcome(r), final(self).state()) == found_all(
                        old(self).state(),
                        p.0,
                    )
                } else {
                    res is None && final(self).state() == old(self).state()
                },
                None => res is None && final(self).state() == old(self).state(),
            },
    {
        match parse_definitions(udl) {
            Some((defs, rest)) => {
                if rest.unicode_len() != 0 {
                    return None;
                }
                Some(self.add_type_definitions_from(defs.as_slice()))
            },
            None => None,
        }
    }
}

} // verus!
