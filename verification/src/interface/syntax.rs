//! What building a component reads of the members of parsed UDL
//! definitions: arguments, operations, constructors and dictionary members.

use vstd::prelude::*;

use weedle::argument::Argument as WebIdlArgument;
use weedle::dictionary::DictionaryMember;
use weedle::interface::{InterfaceMember, OperationInterfaceMember, StringifierOrStatic};
use weedle::namespace::NamespaceMember;
use weedle::types::ReturnType;

use super::attributes::{attribute_list_syntax_of, AttributeSyntax};
use super::types::resolver::{type_expr_of, TypeExpr};

verus! {

/// A parsed argument of an operation or constructor.
#[derive(Debug)]
pub struct ArgumentSyntax {
    pub name: String,
    pub type_: TypeExpr,
    /// Whether the argument's type carries attributes.
    pub type_has_attributes: bool,
    pub attributes: Option<Vec<AttributeSyntax>>,
    pub has_default: bool,
    /// Whether it is a variadic argument, `T... name`.
    pub variadic: bool,
}

/// The modifier of an operation.
#[derive(Debug, Clone, Copy, PartialEq, Eq, Structural)]
pub enum OperationModifier {
    Plain,
    Stringifier,
    Static,
}

/// A parsed operation: a method, a namespace function, or a variant of an
/// `[Enum]` interface.
#[derive(Debug)]
pub struct OperationSyntax {
    pub attributes: Option<Vec<AttributeSyntax>>,
    /// Whether it is a special operation (getter, setter, ...).
    pub special: bool,
    pub modifier: OperationModifier,
    pub name: Option<String>,
    /// The return type; `None` for `undefined`.
    pub return_type: Option<TypeExpr>,
    pub args: Vec<ArgumentSyntax>,
    /// The text of its syntax tree, for errors.
    pub text: String,
}

/// A parsed member of an interface or of a namespace.
#[derive(Debug)]
pub enum MemberSyntax {
    /// A constructor, with the text of its syntax tree.
    Constructor { attributes: Option<Vec<AttributeSyntax>>, args: Vec<ArgumentSyntax>, text: String },
    Operation(OperationSyntax),
    /// Any other member, with the text of its syntax tree.
    Other { text: String },
}

/// A parsed member of a dictionary.
#[derive(Debug)]
pub struct FieldSyntax {
    pub name: String,
    pub type_: TypeExpr,
}

#[verifier::external_type_specification]
#[verifier::external_body]
pub struct ExArgument<'a>(WebIdlArgument<'a>);

#[verifier::external_type_specification]
#[verifier::external_body]
pub struct ExReturnType<'a>(ReturnType<'a>);

#[verifier::external_type_specification]
#[verifier::external_body]
pub struct ExStringifierOrStatic(StringifierOrStatic);

#[verifier::external_type_specification]
#[verifier::external_body]
pub struct ExOperationInterfaceMember<'a>(OperationInterfaceMember<'a>);

#[verifier::external_type_specification]
#[verifier::external_body]
pub struct ExInterfaceMember<'a>(InterfaceMember<'a>);

#[verifier::external_type_specification]
#[verifier::external_body]
pub struct ExNamespaceMember<'a>(NamespaceMember<'a>);

#[verifier::external_type_specification]
#[verifier::external_body]
pub struct ExDictionaryMember<'a>(DictionaryMember<'a>);

/// Converts a weedle argument.
#[verifier::external_body]
fn argument_syntax_of(a: &WebIdlArgument) -> ArgumentSyntax {
    match a {
        WebIdlArgument::Single(x) => ArgumentSyntax {
            name: x.identifier.0.to_string(), type_: type_expr_of(&x.type_.type_),
            type_has_attributes: x.type_.attributes.is_some(),
            attributes: x.attributes.as_ref().map(|l| attribute_list_syntax_of(&l.body.list)),
            has_default: x.default.is_some(), variadic: false,
        },
        WebIdlArgument::Variadic(x) => ArgumentSyntax {
            name: x.identifier.0.to_string(), type_: type_expr_of(&x.type_), type_has_attributes: false,
            attributes: None, has_default: false, variadic: true,
        },
    }
}

/// Converts weedle arguments, one for one, in order.
#[verifier::external_body]
pub(crate) fn arguments_syntax_of(list: &[WebIdlArgument]) -> Vec<ArgumentSyntax> {
    list.iter().map(argument_syntax_of).collect()
}

/// Converts a weedle return type: `None` for `undefined`.
#[verifier::external_body]
fn return_syntax_of(r: &ReturnType) -> Option<TypeExpr> {
    match r {
        ReturnType::Undefined(_) => None,
        ReturnType::Type(t) => Some(type_expr_of(t)),
    }
}

/// Converts a weedle operation modifier.
#[verifier::external_body]
fn modifier_of(m: &Option<StringifierOrStatic>) -> OperationModifier {
    match m {
        None => OperationModifier::Plain,
        Some(StringifierOrStatic::Stringifier(_)) => OperationModifier::Stringifier,
        Some(StringifierOrStatic::Static(_)) => OperationModifier::Static,
    }
}

/// Converts a weedle interface operation.
#[verifier::external_body]
fn operation_syntax_of(x: &OperationInterfaceMember) -> OperationSyntax {
    OperationSyntax {
        attributes: x.attributes.as_ref().map(|l| attribute_list_syntax_of(&l.body.list)),
        special: x.special.is_some(),
        modifier: modifier_of(&x.modifier),
        name: x.identifier.map(|i| i.0.to_string()),
        return_type: return_syntax_of(&x.return_type),
        args: arguments_syntax_of(&x.args.body.list),
        text: format!("{:?}", x),
    }
}

/// Converts a weedle interface member.
#[verifier::external_body]
fn member_syntax_of(m: &InterfaceMember) -> MemberSyntax {
    match m {
        InterfaceMember::Constructor(x) => MemberSyntax::Constructor {
            attributes: x.attributes.as_ref().map(|l| attribute_list_syntax_of(&l.body.list)),
            args: arguments_syntax_of(&x.args.body.list),
            text: format!("{:?}", m),
        },
        InterfaceMember::Operation(x) => MemberSyntax::Operation(operation_syntax_of(x)),
        _ => MemberSyntax::Other { text: format!("{:?}", m) },
    }
}

/// Converts weedle interface members, one for one, in order.
#[verifier::external_body]
pub(crate) fn members_syntax_of(list: &[InterfaceMember]) -> Vec<MemberSyntax> {
    list.iter().map(member_syntax_of).collect()
}

/// Converts a weedle namespace member: an operation has no special or modifier.
#[verifier::external_body]
fn namespace_member_syntax_of(m: &NamespaceMember) -> MemberSyntax {
    match m {
        NamespaceMember::Operation(x) => MemberSyntax::Operation(OperationSyntax {
            attributes: x.attributes.as_ref().map(|l| attribute_list_syntax_of(&l.body.list)),
            special: false, modifier: OperationModifier::Plain, name: x.identifier.map(|i| i.0.to_string()),
            return_type: return_syntax_of(&x.return_type), args: arguments_syntax_of(&x.args.body.list),
            text: format!("{:?}", x),
        }),
        _ => MemberSyntax::Other { text: format!("{:?}", m) },
    }
}

/// Converts weedle namespace members, one for one, in order.
#[verifier::external_body]
pub(crate) fn namespace_members_syntax_of(list: &[NamespaceMember]) -> Vec<MemberSyntax> {
    list.iter().map(namespace_member_syntax_of).collect()
}

/// Converts weedle dictionary members, one for one, in order.
#[verifier::external_body]
pub(crate) fn fields_syntax_of(list: &[DictionaryMember]) -> Vec<FieldSyntax> {
    list.iter().map(|m| FieldSyntax { name: m.identifier.0.to_string(), type_: type_expr_of(&m.type_) }).collect()
}

} // verus!
