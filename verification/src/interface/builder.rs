//! Building a component from parsed UDL definitions.
//!
//! The definitions are processed in two passes. The first discovers the named
//! types they define, in a [`TypeUniverse`]; the second, with those names
//! resolvable, builds the component: the namespace and its functions, the
//! records, enums and errors, the objects with their constructors and methods,
//! and the callback interfaces. Last come the consistency checks on the
//! component as a whole.
//!
//! What the component's FFI layer needs (the scaffolding functions, the
//! checksums) is derived later, from the component's checksum, and is left
//! unset here.

use vstd::prelude::*;

use super::attributes::{
    attributes_outcome, first_name_from, first_throws_from, parse_attributes, Attribute,
    AttributeSyntax, AttributeTarget, ConstructorAttributes, EnumAttributes, FunctionAttributes,
    InterfaceAttributes, interface_attributes_outcome,
};
use super::component::{
    ArgumentDef, CallbackInterfaceDef, ComponentView, ConstructorDef, EnumDef, FieldDef, FunctionDef,
    MethodDef, ObjectDef, RecordDef, VariantDef,
};
use super::ffi::FfiFunction;
use super::syntax::{ArgumentSyntax, FieldSyntax, MemberSyntax, OperationModifier, OperationSyntax};
use super::types::finder::{
    found_all, has_enum_attribute, has_error_attribute, parse_definitions, parsed_definitions,
    DefinitionSyntax,
};
use super::types::resolver::{resolved, TypeExpr};
use super::types::{Type, TypeUniverse};
use crate::text::{owned, push_str, str_eq};

verus! {

/// What an argument is built into: its name and type.
pub struct ArgModel {
    pub name: Seq<char>,
    pub ty: Type,
}

/// What a function, method or constructor is built into. A constructor has no
/// return type; the error type is that of the name that `[Throws=..]` gives.
pub struct CallableModel {
    pub name: Seq<char>,
    pub args: Seq<ArgModel>,
    pub return_type: Option<Type>,
    pub throws: Option<Seq<char>>,
}

/// The outcome of a step of building, with the types known after it.
pub open spec fn failed<T>(e: Seq<char>, known: Seq<Type>) -> (Result<T, Seq<char>>, Seq<Type>) {
    (Err(e), known)
}

/// What resolving a type that may carry attributes gives: attributes are refused.
pub open spec fn attributed_resolved(
    defs: Map<Seq<char>, Type>,
    known: Seq<Type>,
    e: TypeExpr,
    has_attributes: bool,
) -> (Result<Type, Seq<char>>, Seq<Type>) {
    if has_attributes {
        failed("type attributes are not supported yet"@, known)
    } else {
        resolved(defs, known, e)
    }
}

/// The error that parsing attributes for a kind of definition gives, if any.
pub open spec fn attributes_error(
    attrs: Option<Vec<AttributeSyntax>>,
    target: AttributeTarget,
) -> Option<Seq<char>> {
    match attrs {
        None => None,
        Some(l) => match attributes_outcome(l@, target) {
            Err(e) => Some(e),
            Ok(_) => None,
        },
    }
}

/// The attributes parsed for a kind of definition; none where there is no list.
pub open spec fn parsed_attributes(
    attrs: Option<Vec<AttributeSyntax>>,
    target: AttributeTarget,
) -> Seq<Attribute> {
    match attrs {
        None => Seq::empty(),
        Some(l) => match attributes_outcome(l@, target) {
            Ok(a) => a,
            Err(_) => Seq::empty(),
        },
    }
}

/// What an argument is built into: a variadic argument is refused; the type
/// is resolved. The argument of a callable must carry the attributes of an
/// argument; that of a variant of an `[Enum]` interface, a field, must not be
/// an object and carries neither a default value nor attributes.
pub open spec fn argument_built(
    defs: Map<Seq<char>, Type>,
    known: Seq<Type>,
    a: ArgumentSyntax,
    is_field: bool,
) -> (Result<ArgModel, Seq<char>>, Seq<Type>) {
    if a.variadic {
        failed("variadic arguments not supported"@, known)
    } else {
        let (r, k) = attributed_resolved(defs, known, a.type_, a.type_has_attributes);
        match r {
            Err(e) => (Err(e), k),
            Ok(t) => if is_field {
                if t is Object {
                    failed("Objects cannot currently be used in enum variant data"@, k)
                } else if a.has_default {
                    failed("enum interface variant fields must not have default values"@, k)
                } else if a.attributes is Some {
                    failed("enum interface variant fields must not have attributes"@, k)
                } else {
                    (Ok(ArgModel { name: a.name@, ty: t }), k)
                }
            } else {
                match attributes_error(a.attributes, AttributeTarget::Argument) {
                    Some(e) => (Err(e), k),
                    None => (Ok(ArgModel { name: a.name@, ty: t }), k),
                }
            },
        }
    }
}

/// What the arguments are built into, in order: the first error stops it.
pub open spec fn arguments_built(
    defs: Map<Seq<char>, Type>,
    known: Seq<Type>,
    args: Seq<ArgumentSyntax>,
    is_field: bool,
) -> (Result<Seq<ArgModel>, Seq<char>>, Seq<Type>)
    decreases args.len(),
{
    if args.len() == 0 {
        (Ok(Seq::empty()), known)
    } else {
        let (r, k) = arguments_built(defs, known, args.drop_last(), is_field);
        match r {
            Err(e) => (Err(e), k),
            Ok(prefix) => {
                let (r2, k2) = argument_built(defs, k, args.last(), is_field);
                match r2 {
                    Err(e) => (Err(e), k2),
                    Ok(a) => (Ok(prefix.push(a)), k2),
                }
            },
        }
    }
}

/// Whether a return type is written `void`, which stands for none.
pub open spec fn is_void(e: TypeExpr) -> bool {
    e matches TypeExpr::Identifier { name, .. } && name@ == "void"@
}

/// What resolving a return type gives: none for `undefined` and `void`.
pub open spec fn return_resolved(
    defs: Map<Seq<char>, Type>,
    known: Seq<Type>,
    r: Option<TypeExpr>,
) -> (Result<Option<Type>, Seq<char>>, Seq<Type>) {
    match r {
        None => (Ok(None), known),
        Some(e) => if is_void(e) {
            (Ok(None), known)
        } else {
            let (x, k) = resolved(defs, known, e);
            match x {
                Ok(t) => (Ok(Some(t)), k),
                Err(m) => (Err(m), k),
            }
        },
    }
}

/// What a namespace function is built into: the return type is resolved, the
/// function must be named, then come the arguments and the attributes.
pub open spec fn function_built(
    defs: Map<Seq<char>, Type>,
    known: Seq<Type>,
    op: OperationSyntax,
) -> (Result<CallableModel, Seq<char>>, Seq<Type>) {
    let (r, k) = return_resolved(defs, known, op.return_type);
    match r {
        Err(e) => (Err(e), k),
        Ok(ret) => match op.name {
            None => failed("anonymous functions are not supported "@ + op.text@, k),
            Some(name) => {
                let (a, k2) = arguments_built(defs, k, op.args@, false);
                match a {
                    Err(e) => (Err(e), k2),
                    Ok(args) => match attributes_error(op.attributes, AttributeTarget::Function) {
                        Some(e) => (Err(e), k2),
                        None => (
                            Ok(
                                CallableModel {
                                    name: name@,
                                    args,
                                    return_type: ret,
                                    throws: first_throws_from(
                                        parsed_attributes(op.attributes, AttributeTarget::Function),
                                        0,
                                    ),
                                },
                            ),
                            k2,
                        ),
                    },
                }
            },
        },
    }
}

/// What a method is built into: special operations and modifiers are
/// refused; the return type is resolved and must not be an object; the method
/// must be named, but not `new`; then come the arguments and the attributes.
pub open spec fn method_built(
    defs: Map<Seq<char>, Type>,
    known: Seq<Type>,
    op: OperationSyntax,
) -> (Result<CallableModel, Seq<char>>, Seq<Type>) {
    if op.special {
        failed("special operations not supported"@, known)
    } else if op.modifier != OperationModifier::Plain {
        failed("method modifiers are not supported"@, known)
    } else {
        let (r, k) = return_resolved(defs, known, op.return_type);
        match r {
            Err(e) => (Err(e), k),
            Ok(ret) => if ret matches Some(Type::Object(_)) {
                failed("Objects cannot currently be returned from functions"@, k)
            } else {
                match op.name {
                    None => failed("anonymous methods are not supported "@ + op.text@, k),
                    Some(name) => if name@ == "new"@ {
                        failed(
                            "the method name \"new\" is reserved for the default constructor"@,
                            k,
                        )
                    } else {
                        let (a, k2) = arguments_built(defs, k, op.args@, false);
                        match a {
                            Err(e) => (Err(e), k2),
                            Ok(args) => match attributes_error(
                                op.attributes,
                                AttributeTarget::Function,
                            ) {
                                Some(e) => (Err(e), k2),
                                None => (
                                    Ok(
                                        CallableModel {
                                            name: name@,
                                            args,
                                            return_type: ret,
                                            throws: first_throws_from(
                                                parsed_attributes(
                                                    op.attributes,
                                                    AttributeTarget::Function,
                                                ),
                                                0,
                                            ),
                                        },
                                    ),
                                    k2,
                                ),
                            },
                        }
                    },
                }
            },
        }
    }
}

/// The name of a constructor: the one `[Name=..]` gives, else `new`.
pub open spec fn constructor_name(attrs: Seq<Attribute>) -> Seq<char> {
    match first_name_from(attrs, 0) {
        Some(n) => n,
        None => "new"@,
    }
}

/// What a constructor is built into: its attributes are parsed first, then its
/// arguments.
pub open spec fn constructor_built(
    defs: Map<Seq<char>, Type>,
    known: Seq<Type>,
    attributes: Option<Vec<AttributeSyntax>>,
    args: Seq<ArgumentSyntax>,
) -> (Result<CallableModel, Seq<char>>, Seq<Type>) {
    match attributes_error(attributes, AttributeTarget::Constructor) {
        Some(e) => failed(e, known),
        None => {
            let attrs = parsed_attributes(attributes, AttributeTarget::Constructor);
            let (a, k) = arguments_built(defs, known, args, false);
            match a {
                Err(e) => (Err(e), k),
                Ok(args) => (
                    Ok(
                        CallableModel {
                            name: constructor_name(attrs),
                            args,
                            return_type: None,
                            throws: first_throws_from(attrs, 0),
                        },
                    ),
                    k,
                ),
            }
        },
    }
}

/// The error type of a callable: that of the name that it throws.
pub open spec fn throws_is(t: Option<Type>, n: Option<Seq<char>>) -> bool {
    match n {
        None => t is None,
        Some(x) => t matches Some(Type::Error(s)) && s@ == x,
    }
}

pub open spec fn arg_matches(a: ArgumentDef, m: ArgModel) -> bool {
    a.name@ == m.name && a.ty == m.ty
}

pub open spec fn args_match(v: Seq<ArgumentDef>, ms: Seq<ArgModel>) -> bool {
    &&& v.len() == ms.len()
    &&& forall|i: int| 0 <= i < v.len() ==> arg_matches(#[trigger] v[i], ms[i])
}

/// The method is the model, with no docstring.
pub open spec fn method_matches(x: MethodDef, m: CallableModel) -> bool {
    &&& x.name@ == m.name
    &&& args_match(x.arguments@, m.args)
    &&& x.return_type == m.return_type
    &&& throws_is(x.throws_type, m.throws)
    &&& x.docstring is None
}

/// The function is the model, with no module and no docstring.
pub open spec fn function_matches(x: FunctionDef, m: CallableModel) -> bool {
    &&& x.name@ == m.name
    &&& x.module@ == Seq::<char>::empty()
    &&& args_match(x.arguments@, m.args)
    &&& x.return_type == m.return_type
    &&& throws_is(x.throws_type, m.throws)
    &&& x.docstring is None
}

/// The constructor is the model, with no docstring.
pub open spec fn constructor_matches(x: ConstructorDef, m: CallableModel) -> bool {
    &&& x.name@ == m.name
    &&& args_match(x.arguments@, m.args)
    &&& throws_is(x.throws_type, m.throws)
    &&& x.docstring is None
}

/// The built outcome of a step, against the spec's.
pub open spec fn outcome_is<X, M>(
    res: Result<X, String>,
    spec: Result<M, Seq<char>>,
    matches: spec_fn(X, M) -> bool,
) -> bool {
    match res {
        Ok(x) => spec matches Ok(m) && matches(x, m),
        Err(e) => spec == Err::<M, Seq<char>>(e@),
    }
}

fn resolve_attributed(
    types: &mut TypeUniverse,
    e: &TypeExpr,
    has_attributes: bool,
) -> (res: Result<Type, String>)
    requires
        old(types).wf(),
    ensures
        final(types).wf(),
        final(types).definitions() == old(types).definitions(),
        (match res {
            Ok(t) => Ok::<Type, Seq<char>>(t),
            Err(e) => Err(e@),
        }, final(types).known_types()) == attributed_resolved(
            old(types).definitions(),
            old(types).known_types(),
            *e,
            has_attributes,
        ),
{
    if has_attributes {
        return Err(owned("type attributes are not supported yet"));
    }
    types.resolve_type_expression(e)
}

fn check_attributes(attrs: &Option<Vec<AttributeSyntax>>, target: AttributeTarget) -> (res: Result<
    Vec<Attribute>,
    String,
>)
    ensures
        match res {
            Ok(v) => attributes_error(*attrs, target) is None && v@ == parsed_attributes(
                *attrs,
                target,
            ),
            Err(e) => attributes_error(*attrs, target) == Some(e@),
        },
{
    match attrs {
        None => Ok(Vec::new()),
        Some(l) => parse_attributes(l.as_slice(), target),
    }
}

fn build_argument(types: &mut TypeUniverse, a: &ArgumentSyntax, is_field: bool) -> (res: Result<
    ArgumentDef,
    String,
>)
    requires
        old(types).wf(),
    ensures
        final(types).wf(),
        final(types).definitions() == old(types).definitions(),
        outcome_is(
            res,
            argument_built(old(types).definitions(), old(types).known_types(), *a, is_field).0,
            |x: ArgumentDef, m: ArgModel| arg_matches(x, m),
        ),
        final(types).known_types() == argument_built(
            old(types).definitions(),
            old(types).known_types(),
            *a,
            is_field,
        ).1,
{
    if a.variadic {
        return Err(owned("variadic arguments not supported"));
    }
    let ty = match resolve_attributed(types, &a.type_, a.type_has_attributes) {
        Ok(t) => t,
        Err(e) => {
            return Err(e);
        },
    };
    if is_field {
        if matches!(ty, Type::Object(_)) {
            return Err(owned("Objects cannot currently be used in enum variant data"));
        }
        if a.has_default {
            return Err(owned("enum interface variant fields must not have default values"));
        }
        if a.attributes.is_some() {
            return Err(owned("enum interface variant fields must not have attributes"));
        }
        return Ok(ArgumentDef { name: a.name.clone(), ty });
    }
    match check_attributes(&a.attributes, AttributeTarget::Argument) {
        Err(e) => Err(e),
        Ok(_) => Ok(ArgumentDef { name: a.name.clone(), ty }),
    }
}

proof fn lemma_take_last<A>(s: Seq<A>, i: int)
    requires
        0 <= i < s.len(),
    ensures
        s.take(i + 1).drop_last() == s.take(i),
        s.take(i + 1).last() == s[i],
{
    assert(s.take(i + 1).drop_last() =~= s.take(i));
}

fn build_arguments(types: &mut TypeUniverse, args: &Vec<ArgumentSyntax>, is_field: bool) -> (res: Result<
    Vec<ArgumentDef>,
    String,
>)
    requires
        old(types).wf(),
    ensures
        final(types).wf(),
        final(types).definitions() == old(types).definitions(),
        outcome_is(
            res,
            arguments_built(old(types).definitions(), old(types).known_types(), args@, is_field).0,
            |x: Vec<ArgumentDef>, m: Seq<ArgModel>| args_match(x@, m),
        ),
        final(types).known_types() == arguments_built(
            old(types).definitions(),
            old(types).known_types(),
            args@,
            is_field,
        ).1,
{
    let ghost d = types.definitions();
    let ghost k0 = types.known_types();
    let mut res: Vec<ArgumentDef> = Vec::new();
    let mut i: usize = 0;
    assert(args@.take(0) =~= Seq::<ArgumentSyntax>::empty());
    while i < args.len()
        invariant
            i <= args@.len(),
            types.wf(),
            types.definitions() == d,
            d == old(types).definitions(),
            k0 == old(types).known_types(),
            arguments_built(d, k0, args@.take(i as int), is_field).0 matches Ok(ms) && args_match(
                res@,
                ms,
            ),
            arguments_built(d, k0, args@.take(i as int), is_field).1 == types.known_types(),
        decreases args.len() - i,
    {
        proof {
            lemma_take_last(args@, i as int);
        }
        match build_argument(types, &args[i], is_field) {
            Ok(a) => {
                res.push(a);
            },
            Err(e) => {
                proof {
                    lemma_arguments_built_stop(d, k0, args@, i as int, is_field);
                }
                return Err(e);
            },
        }
        i = i + 1;
    }
    assert(args@.take(i as int) =~= args@);
    Ok(res)
}

/// An error in the arguments stops building them there.
proof fn lemma_arguments_built_stop(
    defs: Map<Seq<char>, Type>,
    known: Seq<Type>,
    args: Seq<ArgumentSyntax>,
    i: int,
    f: bool,
)
    requires
        0 <= i < args.len(),
        arguments_built(defs, known, args.take(i), f).0 is Ok,
        argument_built(defs, arguments_built(defs, known, args.take(i), f).1, args[i], f).0 is Err,
    ensures
        arguments_built(defs, known, args, f).0 == Err::<Seq<ArgModel>, Seq<char>>(
            argument_built(defs, arguments_built(defs, known, args.take(i), f).1, args[i], f).0->Err_0,
        ),
        arguments_built(defs, known, args, f).1 == argument_built(
            defs,
            arguments_built(defs, known, args.take(i), f).1,
            args[i],
            f,
        ).1,
    decreases args.len() - i,
{
    lemma_take_last(args, i);
    if i + 1 < args.len() {
        lemma_arguments_built_stop_prefix(defs, known, args, i + 1, f);
    } else {
        assert(args.take(i + 1) =~= args);
    }
}

/// Once building a prefix of the arguments failed, building more fails the same way.
proof fn lemma_arguments_built_stop_prefix(
    defs: Map<Seq<char>, Type>,
    known: Seq<Type>,
    args: Seq<ArgumentSyntax>,
    j: int,
    f: bool,
)
    requires
        0 <= j <= args.len(),
        arguments_built(defs, known, args.take(j), f).0 is Err,
    ensures
        arguments_built(defs, known, args, f) == arguments_built(defs, known, args.take(j), f),
    decreases args.len() - j,
{
    if j < args.len() {
        lemma_take_last(args, j);
        lemma_arguments_built_stop_prefix(defs, known, args, j + 1, f);
    } else {
        assert(args.take(j) =~= args);
    }
}


/// The outcome of building, with the types known after it, against the spec's.
pub open spec fn built_as<X, M>(
    res: Result<X, String>,
    known: Seq<Type>,
    spec: (Result<M, Seq<char>>, Seq<Type>),
    matches: spec_fn(X, M) -> bool,
) -> bool {
    &&& outcome_is(res, spec.0, matches)
    &&& known == spec.1
}

fn resolve_return(types: &mut TypeUniverse, r: &Option<TypeExpr>) -> (res: Result<Option<Type>, String>)
    requires
        old(types).wf(),
    ensures
        final(types).wf(),
        final(types).definitions() == old(types).definitions(),
        built_as(
            res,
            final(types).known_types(),
            return_resolved(old(types).definitions(), old(types).known_types(), *r),
            |x: Option<Type>, m: Option<Type>| x == m,
        ),
{
    match r {
        None => Ok(None),
        Some(e) => {
            if let TypeExpr::Identifier { name, .. } = e {
                if str_eq(name.as_str(), "void") {
                    return Ok(None);
                }
            }
            match types.resolve_type_expression(e) {
                Ok(t) => Ok(Some(t)),
                Err(m) => Err(m),
            }
        },
    }
}

fn throws_of(name: Option<&str>) -> (res: Option<Type>)
    ensures
        throws_is(
            res,
            match name {
                Some(n) => Some(n@),
                None => None,
            },
        ),
{
    match name {
        Some(n) => Some(Type::Error(owned(n))),
        None => None,
    }
}

fn build_function(types: &mut TypeUniverse, op: &OperationSyntax) -> (res: Result<FunctionDef, String>)
    requires
        old(types).wf(),
    ensures
        final(types).wf(),
        final(types).definitions() == old(types).definitions(),
        built_as(
            res,
            final(types).known_types(),
            function_built(old(types).definitions(), old(types).known_types(), *op),
            |x: FunctionDef, m: CallableModel| function_matches(x, m),
        ),
{
    let return_type = match resolve_return(types, &op.return_type) {
        Ok(r) => r,
        Err(e) => {
            return Err(e);
        },
    };
    let name = match &op.name {
        None => {
            let mut m = owned("anonymous functions are not supported ");
            push_str(&mut m, op.text.as_str());
            return Err(m);
        },
        Some(n) => n.clone(),
    };
    let arguments = match build_arguments(types, &op.args, false) {
        Ok(a) => a,
        Err(e) => {
            return Err(e);
        },
    };
    let attrs = match &op.attributes {
        None => FunctionAttributes::new(),
        Some(l) => match FunctionAttributes::try_from(l.as_slice()) {
            Ok(a) => a,
            Err(e) => {
                return Err(e);
            },
        },
    };
    let throws_type = throws_of(attrs.get_throws_err());
    let module = owned("");
    proof {
        reveal_strlit("");
        assert(module@ =~= Seq::<char>::empty());
    }
    Ok(FunctionDef { name, module, arguments, return_type, throws_type, docstring: None })
}

fn build_method(types: &mut TypeUniverse, op: &OperationSyntax) -> (res: Result<MethodDef, String>)
    requires
        old(types).wf(),
    ensures
        final(types).wf(),
        final(types).definitions() == old(types).definitions(),
        built_as(
            res,
            final(types).known_types(),
            method_built(old(types).definitions(), old(types).known_types(), *op),
            |x: MethodDef, m: CallableModel| method_matches(x, m),
        ),
{
    if op.special {
        return Err(owned("special operations not supported"));
    }
    if op.modifier != OperationModifier::Plain {
        return Err(owned("method modifiers are not supported"));
    }
    let return_type = match resolve_return(types, &op.return_type) {
        Ok(r) => r,
        Err(e) => {
            return Err(e);
        },
    };
    if let Some(Type::Object(_)) = &return_type {
        return Err(owned("Objects cannot currently be returned from functions"));
    }
    let name = match &op.name {
        None => {
            let mut m = owned("anonymous methods are not supported ");
            push_str(&mut m, op.text.as_str());
            return Err(m);
        },
        Some(n) => n.clone(),
    };
    if str_eq(name.as_str(), "new") {
        return Err(owned("the method name \"new\" is reserved for the default constructor"));
    }
    let arguments = match build_arguments(types, &op.args, false) {
        Ok(a) => a,
        Err(e) => {
            return Err(e);
        },
    };
    let attrs = match &op.attributes {
        None => FunctionAttributes::new(),
        Some(l) => match FunctionAttributes::try_from(l.as_slice()) {
            Ok(a) => a,
            Err(e) => {
                return Err(e);
            },
        },
    };
    let throws_type = throws_of(attrs.get_throws_err());
    Ok(MethodDef { name, arguments, return_type, throws_type, docstring: None })
}

fn build_constructor(
    types: &mut TypeUniverse,
    attributes: &Option<Vec<AttributeSyntax>>,
    args: &Vec<ArgumentSyntax>,
) -> (res: Result<ConstructorDef, String>)
    requires
        old(types).wf(),
    ensures
        final(types).wf(),
        final(types).definitions() == old(types).definitions(),
        built_as(
            res,
            final(types).known_types(),
            constructor_built(old(types).definitions(), old(types).known_types(), *attributes, args@),
            |x: ConstructorDef, m: CallableModel| constructor_matches(x, m),
        ),
{
    let attrs = match attributes {
        None => ConstructorAttributes::new(),
        Some(l) => match ConstructorAttributes::try_from(l.as_slice()) {
            Ok(a) => a,
            Err(e) => {
                return Err(e);
            },
        },
    };
    let name = match attrs.get_name() {
        Some(n) => owned(n),
        None => owned("new"),
    };
    let arguments = match build_arguments(types, args, false) {
        Ok(a) => a,
        Err(e) => {
            return Err(e);
        },
    };
    let throws_type = throws_of(attrs.get_throws_err());
    Ok(ConstructorDef { name, arguments, throws_type, docstring: None })
}


/// What a variant of an enum is built into.
pub struct VariantModel {
    pub name: Seq<char>,
    pub fields: Seq<ArgModel>,
}

/// What an enum (or an error) is built into.
pub struct EnumModel {
    pub name: Seq<char>,
    pub variants: Seq<VariantModel>,
}

/// What a record is built into.
pub struct RecordModel {
    pub name: Seq<char>,
    pub fields: Seq<ArgModel>,
}

/// What an object is built into.
pub struct ObjectModel {
    pub name: Seq<char>,
    pub constructors: Seq<CallableModel>,
    pub methods: Seq<CallableModel>,
}

/// What a callback interface is built into.
pub struct CallbackModel {
    pub name: Seq<char>,
    pub methods: Seq<CallableModel>,
}

/// What a component is built into.
pub struct ComponentModel {
    pub namespace: Seq<char>,
    pub records: Seq<RecordModel>,
    /// The enums, errors among them.
    pub enums: Seq<EnumModel>,
    /// The names of the enums that are errors.
    pub errors: Seq<Seq<char>>,
    pub objects: Seq<ObjectModel>,
    pub callback_interfaces: Seq<CallbackModel>,
    pub functions: Seq<CallableModel>,
}

/// Whether one of the callables has the name.
pub open spec fn named(cs: Seq<CallableModel>, n: Seq<char>) -> bool {
    exists|i: int| 0 <= i < cs.len() && #[trigger] cs[i].name == n
}

/// What a variant of an `[Enum]` interface is built into: it is written as an
/// anonymous operation whose return type names the variant, and whose
/// arguments are the variant's fields.
pub open spec fn variant_built(
    defs: Map<Seq<char>, Type>,
    known: Seq<Type>,
    op: OperationSyntax,
) -> (Result<VariantModel, Seq<char>>, Seq<Type>) {
    if op.special {
        failed("special operations not supported"@, known)
    } else if op.modifier == OperationModifier::Stringifier {
        failed("stringifiers are not supported"@, known)
    } else if op.name is Some {
        failed("enum interface members must not have a method name"@, known)
    } else {
        match op.return_type {
            Some(TypeExpr::Identifier { name, .. }) => {
                let (a, k) = arguments_built(defs, known, op.args@, true);
                match a {
                    Err(e) => (Err(e), k),
                    Ok(fields) => (Ok(VariantModel { name: name@, fields }), k),
                }
            },
            _ => failed("enum interface members must have plain identifers as names"@, known),
        }
    }
}

/// The text of a member's syntax tree.
pub open spec fn member_text(m: MemberSyntax) -> Seq<char> {
    match m {
        MemberSyntax::Constructor { text, .. } => text@,
        MemberSyntax::Operation(op) => op.text@,
        MemberSyntax::Other { text } => text@,
    }
}

/// What the members of an `[Enum]` interface are built into: each must be an
/// operation, and is a variant.
pub open spec fn variants_built(
    defs: Map<Seq<char>, Type>,
    known: Seq<Type>,
    acc: Seq<VariantModel>,
    ms: Seq<MemberSyntax>,
) -> (Result<Seq<VariantModel>, Seq<char>>, Seq<Type>)
    decreases ms.len(),
{
    if ms.len() == 0 {
        (Ok(acc), known)
    } else {
        match ms[0] {
            MemberSyntax::Operation(op) => {
                let (r, k) = variant_built(defs, known, op);
                match r {
                    Err(e) => (Err(e), k),
                    Ok(v) => variants_built(defs, k, acc.push(v), ms.drop_first()),
                }
            },
            _ => failed(
                "interface member type "@ + member_text(ms[0]) + " not supported in enum interface"@,
                known,
            ),
        }
    }
}

/// What the members of an object are built into: its constructors and its
/// methods, in order, no two of one name.
pub open spec fn object_members_built(
    defs: Map<Seq<char>, Type>,
    known: Seq<Type>,
    cs: Seq<CallableModel>,
    mths: Seq<CallableModel>,
    ms: Seq<MemberSyntax>,
) -> (Result<(Seq<CallableModel>, Seq<CallableModel>), Seq<char>>, Seq<Type>)
    decreases ms.len(),
{
    if ms.len() == 0 {
        (Ok((cs, mths)), known)
    } else {
        match ms[0] {
            MemberSyntax::Constructor { attributes, args, .. } => {
                let (r, k) = constructor_built(defs, known, attributes, args@);
                match r {
                    Err(e) => (Err(e), k),
                    Ok(c) => if named(cs, c.name) || named(mths, c.name) {
                        failed("Duplicate interface member name: \""@ + c.name + "\""@, k)
                    } else {
                        object_members_built(defs, k, cs.push(c), mths, ms.drop_first())
                    },
                }
            },
            MemberSyntax::Operation(op) => {
                let (r, k) = method_built(defs, known, op);
                match r {
                    Err(e) => (Err(e), k),
                    Ok(m) => if named(cs, m.name) || named(mths, m.name) {
                        failed("Duplicate interface member name: \""@ + m.name + "\""@, k)
                    } else {
                        object_members_built(defs, k, cs, mths.push(m), ms.drop_first())
                    },
                }
            },
            MemberSyntax::Other { text } => failed(
                "no support for interface member type "@ + text@ + " yet"@,
                known,
            ),
        }
    }
}

/// The primary constructor that every object gets where it declares none.
pub open spec fn default_constructor() -> CallableModel {
    CallableModel { name: "new"@, args: Seq::empty(), return_type: None, throws: None }
}

/// What the members of a callback interface are built into: each must be an
/// operation, and is a method.
pub open spec fn callback_methods_built(
    defs: Map<Seq<char>, Type>,
    known: Seq<Type>,
    acc: Seq<CallableModel>,
    ms: Seq<MemberSyntax>,
) -> (Result<Seq<CallableModel>, Seq<char>>, Seq<Type>)
    decreases ms.len(),
{
    if ms.len() == 0 {
        (Ok(acc), known)
    } else {
        match ms[0] {
            MemberSyntax::Operation(op) => {
                let (r, k) = method_built(defs, known, op);
                match r {
                    Err(e) => (Err(e), k),
                    Ok(m) => callback_methods_built(defs, k, acc.push(m), ms.drop_first()),
                }
            },
            _ => failed(
                "no support for interface member type "@ + member_text(ms[0]) + " yet"@,
                known,
            ),
        }
    }
}

/// What the members of a dictionary are built into: its fields, their types resolved.
pub open spec fn fields_built(
    defs: Map<Seq<char>, Type>,
    known: Seq<Type>,
    acc: Seq<ArgModel>,
    fs: Seq<FieldSyntax>,
) -> (Result<Seq<ArgModel>, Seq<char>>, Seq<Type>)
    decreases fs.len(),
{
    if fs.len() == 0 {
        (Ok(acc), known)
    } else {
        let (r, k) = resolved(defs, known, fs[0].type_);
        match r {
            Err(e) => (Err(e), k),
            Ok(t) => fields_built(
                defs,
                k,
                acc.push(ArgModel { name: fs[0].name@, ty: t }),
                fs.drop_first(),
            ),
        }
    }
}

/// What the members of the namespace add to the functions: each must be an
/// operation, and is a function of a new name that no type has.
pub open spec fn functions_built(
    defs: Map<Seq<char>, Type>,
    known: Seq<Type>,
    existing: Seq<CallableModel>,
    ms: Seq<MemberSyntax>,
) -> (Result<Seq<CallableModel>, Seq<char>>, Seq<Type>)
    decreases ms.len(),
{
    if ms.len() == 0 {
        (Ok(existing), known)
    } else {
        match ms[0] {
            MemberSyntax::Operation(op) => {
                let (r, k) = function_built(defs, known, op);
                match r {
                    Err(e) => (Err(e), k),
                    Ok(f) => if named(existing, f.name) {
                        failed("duplicate function definition: \""@ + f.name + "\""@, k)
                    } else if defs.contains_key(f.name) {
                        failed("Conflicting type definition for \""@ + f.name + "\""@, k)
                    } else {
                        functions_built(defs, k, existing.push(f), ms.drop_first())
                    },
                }
            },
            _ => failed(
                "no support for namespace member type "@ + member_text(ms[0]) + " yet"@,
                known,
            ),
        }
    }
}

/// The enum that the values of a UDL `enum` define: flat, one variant for each value.
pub open spec fn flat_enum(name: Seq<char>, values: Seq<String>) -> EnumModel {
    EnumModel {
        name,
        variants: values.map_values(|v: String| VariantModel { name: v@, fields: Seq::empty() }),
    }
}

/// What processing one definition does to the component being built.
pub open spec fn processed(
    defs: Map<Seq<char>, Type>,
    known: Seq<Type>,
    c: ComponentModel,
    d: DefinitionSyntax,
) -> (Result<ComponentModel, Seq<char>>, Seq<Type>) {
    match d {
        DefinitionSyntax::Namespace { name, members } => if c.namespace.len() > 0 {
            failed("duplicate namespace definition"@, known)
        } else {
            let (r, k) = functions_built(defs, known, c.functions, members@);
            match r {
                Err(e) => (Err(e), k),
                Ok(fs) => (Ok(ComponentModel { namespace: name@, functions: fs, ..c }), k),
            }
        },
        DefinitionSyntax::Enum { name, attributes, values } => match attributes_error(
            attributes,
            AttributeTarget::Enum,
        ) {
            Some(e) => failed(e, known),
            None => {
                let e = flat_enum(name@, values@);
                if has_error_attribute(parsed_attributes(attributes, AttributeTarget::Enum)) {
                    (Ok(ComponentModel { enums: c.enums.push(e), errors: c.errors.push(name@), ..c }), known)
                } else {
                    (Ok(ComponentModel { enums: c.enums.push(e), ..c }), known)
                }
            },
        },
        DefinitionSyntax::Dictionary { name, fields } => {
            let (r, k) = fields_built(defs, known, Seq::empty(), fields@);
            match r {
                Err(e) => (Err(e), k),
                Ok(fs) => (
                    Ok(
                        ComponentModel {
                            records: c.records.push(RecordModel { name: name@, fields: fs }),
                            ..c
                        },
                    ),
                    k,
                ),
            }
        },
        DefinitionSyntax::Interface { name, attributes, inheritance, members } => match attributes {
            Some(l) if interface_attributes_outcome(l@) is Err => failed(
                interface_attributes_outcome(l@)->Err_0,
                known,
            ),
            _ => if has_enum_attribute(interface_attributes(attributes)) {
                if inheritance {
                    failed("interface inheritence is not supported for enum interfaces"@, known)
                } else {
                    let (r, k) = variants_built(defs, known, Seq::empty(), members@);
                    match r {
                        Err(e) => (Err(e), k),
                        Ok(vs) => (
                            Ok(
                                ComponentModel {
                                    enums: c.enums.push(EnumModel { name: name@, variants: vs }),
                                    ..c
                                },
                            ),
                            k,
                        ),
                    }
                }
            } else if inheritance {
                failed("interface inheritence is not supported"@, known)
            } else {
                let (r, k) = object_members_built(defs, known, Seq::empty(), Seq::empty(), members@);
                match r {
                    Err(e) => (Err(e), k),
                    Ok((cs, ms)) => {
                        let cs = if named(cs, "new"@) {
                            cs
                        } else {
                            cs.push(default_constructor())
                        };
                        (
                            Ok(
                                ComponentModel {
                                    objects: c.objects.push(
                                        ObjectModel { name: name@, constructors: cs, methods: ms },
                                    ),
                                    ..c
                                },
                            ),
                            k,
                        )
                    },
                }
            },
        },
        DefinitionSyntax::CallbackInterface { name, members, .. } => {
            let (r, k) = callback_methods_built(defs, known, Seq::empty(), members@);
            match r {
                Err(e) => (Err(e), k),
                Ok(ms) => (
                    Ok(
                        ComponentModel {
                            callback_interfaces: c.callback_interfaces.push(
                                CallbackModel { name: name@, methods: ms },
                            ),
                            ..c
                        },
                    ),
                    k,
                ),
            }
        },
        DefinitionSyntax::Typedef { text, .. } => failed(
            "don't know how to deal with "@ + text@,
            known,
        ),
        DefinitionSyntax::Other { text } => failed("don't know how to deal with "@ + text@, known),
    }
}

/// The attributes of an interface definition; none where it has no list.
pub open spec fn interface_attributes(attributes: Option<Vec<AttributeSyntax>>) -> Seq<Attribute> {
    match attributes {
        None => Seq::empty(),
        Some(l) => match interface_attributes_outcome(l@) {
            Ok(a) => a,
            Err(_) => Seq::empty(),
        },
    }
}

/// What processing the definitions, in order, builds: the first error stops it.
pub open spec fn processed_all(
    defs: Map<Seq<char>, Type>,
    known: Seq<Type>,
    c: ComponentModel,
    ds: Seq<DefinitionSyntax>,
) -> (Result<ComponentModel, Seq<char>>, Seq<Type>)
    decreases ds.len(),
{
    if ds.len() == 0 {
        (Ok(c), known)
    } else {
        let (r, k) = processed(defs, known, c, ds[0]);
        match r {
            Err(e) => (Err(e), k),
            Ok(c2) => processed_all(defs, k, c2, ds.drop_first()),
        }
    }
}

/// The first variant whose name is that of a type definition.
pub open spec fn shadowing_variant(defs: Map<Seq<char>, Type>, vs: Seq<VariantModel>) -> Option<Seq<char>>
    decreases vs.len(),
{
    if vs.len() == 0 {
        None
    } else if defs.contains_key(vs[0].name) {
        Some(vs[0].name)
    } else {
        shadowing_variant(defs, vs.drop_first())
    }
}

/// The first variant of an enum that is no error whose name is that of a type definition.
pub open spec fn shadowing_in(
    defs: Map<Seq<char>, Type>,
    es: Seq<EnumModel>,
    errors: Seq<Seq<char>>,
) -> Option<Seq<char>>
    decreases es.len(),
{
    if es.len() == 0 {
        None
    } else if errors.contains(es[0].name) {
        shadowing_in(defs, es.drop_first(), errors)
    } else {
        match shadowing_variant(defs, es[0].variants) {
            Some(n) => Some(n),
            None => shadowing_in(defs, es.drop_first(), errors),
        }
    }
}

/// What is inconsistent in the component as a whole, if anything: it must have
/// a namespace, and no variant of an enum may have the name of a type.
pub open spec fn consistency_error(defs: Map<Seq<char>, Type>, c: ComponentModel) -> Option<Seq<char>> {
    if c.namespace.len() == 0 {
        Some("missing namespace definition"@)
    } else {
        match shadowing_in(defs, c.enums, c.errors) {
            Some(n) => Some("Enum variant names must not shadow type names: \""@ + n + "\""@),
            None => None,
        }
    }
}

pub open spec fn empty_component() -> ComponentModel {
    ComponentModel {
        namespace: Seq::empty(),
        records: Seq::empty(),
        enums: Seq::empty(),
        errors: Seq::empty(),
        objects: Seq::empty(),
        callback_interfaces: Seq::empty(),
        functions: Seq::empty(),
    }
}

/// What building a component from the definitions gives: `String` is known
/// first; the types are discovered; the definitions are processed; the
/// component is checked. On success, the component and the types known.
pub open spec fn component_built(ds: Seq<DefinitionSyntax>) -> Result<
    (ComponentModel, Seq<Type>),
    Seq<char>,
> {
    let (r, s) = found_all((Map::empty(), seq![Type::String]), ds);
    match r {
        Err(e) => Err(e),
        Ok(_) => {
            let (r2, k) = processed_all(s.0, s.1, empty_component(), ds);
            match r2 {
                Err(e) => Err(e),
                Ok(c) => match consistency_error(s.0, c) {
                    Some(e) => Err(e),
                    None => Ok((c, k)),
                },
            }
        },
    }
}


pub open spec fn field_matches(x: FieldDef, m: ArgModel) -> bool {
    x.name@ == m.name && x.ty == m.ty && x.docstring is None
}

pub open spec fn fields_match(v: Seq<FieldDef>, ms: Seq<ArgModel>) -> bool {
    &&& v.len() == ms.len()
    &&& forall|i: int| 0 <= i < v.len() ==> field_matches(#[trigger] v[i], ms[i])
}

pub open spec fn variant_matches(x: VariantDef, m: VariantModel) -> bool {
    x.name@ == m.name && fields_match(x.fields@, m.fields) && x.docstring is None
}

pub open spec fn variants_match(v: Seq<VariantDef>, ms: Seq<VariantModel>) -> bool {
    &&& v.len() == ms.len()
    &&& forall|i: int| 0 <= i < v.len() ==> variant_matches(#[trigger] v[i], ms[i])
}

pub open spec fn methods_match(v: Seq<MethodDef>, ms: Seq<CallableModel>) -> bool {
    &&& v.len() == ms.len()
    &&& forall|i: int| 0 <= i < v.len() ==> method_matches(#[trigger] v[i], ms[i])
}

pub open spec fn constructors_match(v: Seq<ConstructorDef>, ms: Seq<CallableModel>) -> bool {
    &&& v.len() == ms.len()
    &&& forall|i: int| 0 <= i < v.len() ==> constructor_matches(#[trigger] v[i], ms[i])
}

pub open spec fn functions_match(v: Seq<FunctionDef>, ms: Seq<CallableModel>) -> bool {
    &&& v.len() == ms.len()
    &&& forall|i: int| 0 <= i < v.len() ==> function_matches(#[trigger] v[i], ms[i])
}

/// An FFI function not derived yet.
pub open spec fn ffi_unset(f: FfiFunction) -> bool {
    &&& f.name@ == Seq::<char>::empty()
    &&& !f.is_async
    &&& f.arguments@.len() == 0
    &&& f.return_type is None
    &&& f.has_rust_call_status_arg
    &&& !f.is_object_free_function
}

/// A UDL definition is local to the component: no module, not remote, no docstring.
pub open spec fn enum_matches(x: EnumDef, m: EnumModel) -> bool {
    &&& x.name@ == m.name
    &&& x.module@ == Seq::<char>::empty()
    &&& !x.remote
    &&& variants_match(x.variants@, m.variants)
    &&& !x.non_exhaustive
    &&& x.docstring is None
}

pub open spec fn record_matches(x: RecordDef, m: RecordModel) -> bool {
    &&& x.name@ == m.name
    &&& x.module@ == Seq::<char>::empty()
    &&& !x.remote
    &&& fields_match(x.fields@, m.fields)
    &&& x.docstring is None
}

pub open spec fn object_matches(x: ObjectDef, m: ObjectModel) -> bool {
    &&& x.name@ == m.name
    &&& x.module@ == Seq::<char>::empty()
    &&& !x.remote
    &&& constructors_match(x.constructors@, m.constructors)
    &&& methods_match(x.methods@, m.methods)
    &&& x.trait_impls@.len() == 0
    &&& ffi_unset(x.ffi_func_clone)
    &&& ffi_unset(x.ffi_func_free)
    &&& x.docstring is None
}

pub open spec fn callback_matches(x: CallbackInterfaceDef, m: CallbackModel) -> bool {
    &&& x.name@ == m.name
    &&& x.module@ == Seq::<char>::empty()
    &&& methods_match(x.methods@, m.methods)
    &&& x.docstring is None
}

/// The parts of a component that building fills: the definitions that match
/// the model.
pub open spec fn parts_match(
    namespace: String,
    records: Seq<RecordDef>,
    enums: Seq<EnumDef>,
    errors: Seq<String>,
    objects: Seq<ObjectDef>,
    cbs: Seq<CallbackInterfaceDef>,
    functions: Seq<FunctionDef>,
    m: ComponentModel,
) -> bool {
    &&& namespace@ == m.namespace
    &&& records.len() == m.records.len()
    &&& forall|i: int| 0 <= i < records.len() ==> record_matches(#[trigger] records[i], m.records[i])
    &&& enums.len() == m.enums.len()
    &&& forall|i: int| 0 <= i < enums.len() ==> enum_matches(#[trigger] enums[i], m.enums[i])
    &&& errors.len() == m.errors.len()
    &&& forall|i: int| 0 <= i < errors.len() ==> #[trigger] errors[i]@ == m.errors[i]
    &&& objects.len() == m.objects.len()
    &&& forall|i: int| 0 <= i < objects.len() ==> object_matches(#[trigger] objects[i], m.objects[i])
    &&& cbs.len() == m.callback_interfaces.len()
    &&& forall|i: int|
        0 <= i < cbs.len() ==> callback_matches(#[trigger] cbs[i], m.callback_interfaces[i])
    &&& functions_match(functions, m.functions)
}

/// The component is the model, with the given known types, and with its FFI
/// layer not derived yet.
pub open spec fn component_matches(ci: ComponentView, m: ComponentModel, known: Seq<Type>) -> bool {
    &&& parts_match(
        ci.namespace,
        ci.records@,
        ci.enums@,
        ci.errors@,
        ci.objects@,
        ci.callback_interfaces@,
        ci.functions@,
        m,
    )
    &&& ci.namespace_docstring is None
    &&& ci.types@ == known
    &&& ci.ffi_definitions@.len() == 0
    &&& ci.checksums@.len() == 0
    &&& ffi_unset(ci.ffi_rustbuffer_alloc)
    &&& ffi_unset(ci.ffi_rustbuffer_reserve)
    &&& ffi_unset(ci.ffi_rustbuffer_free)
    &&& ffi_unset(ci.ffi_uniffi_contract_version)
    &&& ci.uniffi_contract_version == 0
}

fn fields_of(args: Vec<ArgumentDef>) -> (res: Vec<FieldDef>)
    ensures
        forall|ms: Seq<ArgModel>| args_match(args@, ms) ==> fields_match(res@, ms),
{
    let ghost orig = args@;
    let mut args = args;
    let mut res: Vec<FieldDef> = Vec::new();
    while args.len() > 0
        invariant
            res@.len() + args@.len() == orig.len(),
            args@ == orig.subrange(res@.len() as int, orig.len() as int),
            forall|i: int|
                0 <= i < res@.len() ==> (#[trigger] res@[i]).name@ == orig[i].name@ && res@[i].ty
                    == orig[i].ty && res@[i].docstring is None,
        decreases args.len(),
    {
        let ghost k = res@.len();
        let a = args.remove(0);
        assert(a == orig[k as int]);
        res.push(FieldDef { name: a.name, ty: a.ty, docstring: None });
        assert(args@ =~= orig.subrange(res@.len() as int, orig.len() as int));
    }
    proof {
        assert forall|ms: Seq<ArgModel>| args_match(orig, ms) implies fields_match(res@, ms) by {
            assert forall|i: int| 0 <= i < res@.len() implies field_matches(#[trigger] res@[i], ms[i]) by {
                assert(arg_matches(orig[i], ms[i]));
            }
        }
    }
    res
}

fn build_variant(types: &mut TypeUniverse, op: &OperationSyntax) -> (res: Result<VariantDef, String>)
    requires
        old(types).wf(),
    ensures
        final(types).wf(),
        final(types).definitions() == old(types).definitions(),
        built_as(
            res,
            final(types).known_types(),
            variant_built(old(types).definitions(), old(types).known_types(), *op),
            |x: VariantDef, m: VariantModel| variant_matches(x, m),
        ),
{
    if op.special {
        return Err(owned("special operations not supported"));
    }
    if op.modifier == OperationModifier::Stringifier {
        return Err(owned("stringifiers are not supported"));
    }
    if op.name.is_some() {
        return Err(owned("enum interface members must not have a method name"));
    }
    let name = match &op.return_type {
        Some(TypeExpr::Identifier { name, .. }) => name.clone(),
        _ => {
            return Err(owned("enum interface members must have plain identifers as names"));
        },
    };
    match build_arguments(types, &op.args, true) {
        Ok(args) => Ok(VariantDef { name, fields: fields_of(args), docstring: None }),
        Err(e) => Err(e),
    }
}

proof fn lemma_skip_step<A>(s: Seq<A>, i: int)
    requires
        0 <= i < s.len(),
    ensures
        s.skip(i).len() > 0,
        s.skip(i)[0] == s[i],
        s.skip(i).drop_first() == s.skip(i + 1),
{
    assert(s.skip(i).drop_first() =~= s.skip(i + 1));
}

fn build_variants(types: &mut TypeUniverse, ms: &Vec<MemberSyntax>) -> (res: Result<Vec<VariantDef>, String>)
    requires
        old(types).wf(),
    ensures
        final(types).wf(),
        final(types).definitions() == old(types).definitions(),
        built_as(
            res,
            final(types).known_types(),
            variants_built(old(types).definitions(), old(types).known_types(), Seq::empty(), ms@),
            |x: Vec<VariantDef>, m: Seq<VariantModel>| variants_match(x@, m),
        ),
{
    let ghost d = types.definitions();
    let ghost total = variants_built(d, types.known_types(), Seq::empty(), ms@);
    let ghost mut acc: Seq<VariantModel> = Seq::empty();
    let mut res: Vec<VariantDef> = Vec::new();
    let mut i: usize = 0;
    assert(ms@.skip(0) =~= ms@);
    while i < ms.len()
        invariant
            i <= ms@.len(),
            types.wf(),
            types.definitions() == d,
            d == old(types).definitions(),
            total == variants_built(d, old(types).known_types(), Seq::empty(), ms@),
            total == variants_built(d, types.known_types(), acc, ms@.skip(i as int)),
            variants_match(res@, acc),
        decreases ms.len() - i,
    {
        proof {
            lemma_skip_step(ms@, i as int);
        }
        match &ms[i] {
            MemberSyntax::Operation(op) => {
                let ghost k = types.known_types();
                match build_variant(types, op) {
                    Ok(v) => {
                        proof {
                            acc = acc.push(variant_built(d, k, *op).0->Ok_0);
                        }
                        res.push(v);
                    },
                    Err(e) => {
                        return Err(e);
                    },
                }
            },
            MemberSyntax::Constructor { text, .. } | MemberSyntax::Other { text } => {
                let mut m = owned("interface member type ");
                push_str(&mut m, text.as_str());
                push_str(&mut m, " not supported in enum interface");
                return Err(m);
            },
        }
        i = i + 1;
    }
    assert(ms@.skip(i as int) =~= Seq::<MemberSyntax>::empty());
    Ok(res)
}


fn has_constructor_named(v: &Vec<ConstructorDef>, n: &str) -> (res: bool)
    ensures
        res == exists|i: int| 0 <= i < v@.len() && #[trigger] v@[i].name@ == n@,
{
    let mut i: usize = 0;
    while i < v.len()
        invariant
            i <= v@.len(),
            forall|j: int| 0 <= j < i ==> #[trigger] v@[j].name@ != n@,
        decreases v.len() - i,
    {
        if str_eq(v[i].name.as_str(), n) {
            return true;
        }
        i = i + 1;
    }
    false
}

fn has_method_named(v: &Vec<MethodDef>, n: &str) -> (res: bool)
    ensures
        res == exists|i: int| 0 <= i < v@.len() && #[trigger] v@[i].name@ == n@,
{
    let mut i: usize = 0;
    while i < v.len()
        invariant
            i <= v@.len(),
            forall|j: int| 0 <= j < i ==> #[trigger] v@[j].name@ != n@,
        decreases v.len() - i,
    {
        if str_eq(v[i].name.as_str(), n) {
            return true;
        }
        i = i + 1;
    }
    false
}

fn has_function_named(v: &Vec<FunctionDef>, n: &str) -> (res: bool)
    ensures
        res == exists|i: int| 0 <= i < v@.len() && #[trigger] v@[i].name@ == n@,
{
    let mut i: usize = 0;
    while i < v.len()
        invariant
            i <= v@.len(),
            forall|j: int| 0 <= j < i ==> #[trigger] v@[j].name@ != n@,
        decreases v.len() - i,
    {
        if str_eq(v[i].name.as_str(), n) {
            return true;
        }
        i = i + 1;
    }
    false
}

proof fn lemma_named_constructors(v: Seq<ConstructorDef>, ms: Seq<CallableModel>, n: Seq<char>)
    requires
        constructors_match(v, ms),
    ensures
        named(ms, n) == exists|i: int| 0 <= i < v.len() && #[trigger] v[i].name@ == n,
{
    if named(ms, n) {
        let i = choose|i: int| 0 <= i < ms.len() && #[trigger] ms[i].name == n;
        assert(constructor_matches(v[i], ms[i]));
    }
    if exists|i: int| 0 <= i < v.len() && #[trigger] v[i].name@ == n {
        let i = choose|i: int| 0 <= i < v.len() && #[trigger] v[i].name@ == n;
        assert(constructor_matches(v[i], ms[i]));
    }
}

proof fn lemma_named_methods(v: Seq<MethodDef>, ms: Seq<CallableModel>, n: Seq<char>)
    requires
        methods_match(v, ms),
    ensures
        named(ms, n) == exists|i: int| 0 <= i < v.len() && #[trigger] v[i].name@ == n,
{
    if named(ms, n) {
        let i = choose|i: int| 0 <= i < ms.len() && #[trigger] ms[i].name == n;
        assert(method_matches(v[i], ms[i]));
    }
    if exists|i: int| 0 <= i < v.len() && #[trigger] v[i].name@ == n {
        let i = choose|i: int| 0 <= i < v.len() && #[trigger] v[i].name@ == n;
        assert(method_matches(v[i], ms[i]));
    }
}

proof fn lemma_named_functions(v: Seq<FunctionDef>, ms: Seq<CallableModel>, n: Seq<char>)
    requires
        functions_match(v, ms),
    ensures
        named(ms, n) == exists|i: int| 0 <= i < v.len() && #[trigger] v[i].name@ == n,
{
    if named(ms, n) {
        let i = choose|i: int| 0 <= i < ms.len() && #[trigger] ms[i].name == n;
        assert(function_matches(v[i], ms[i]));
    }
    if exists|i: int| 0 <= i < v.len() && #[trigger] v[i].name@ == n {
        let i = choose|i: int| 0 <= i < v.len() && #[trigger] v[i].name@ == n;
        assert(function_matches(v[i], ms[i]));
    }
}

fn duplicate_member(name: &str) -> (res: String)
    ensures
        res@ == "Duplicate interface member name: \""@ + name@ + "\""@,
{
    let mut m = owned("Duplicate interface member name: \"");
    push_str(&mut m, name);
    push_str(&mut m, "\"");
    m
}

fn build_object_members(types: &mut TypeUniverse, ms: &Vec<MemberSyntax>) -> (res: Result<
    (Vec<ConstructorDef>, Vec<MethodDef>),
    String,
>)
    requires
        old(types).wf(),
    ensures
        final(types).wf(),
        final(types).definitions() == old(types).definitions(),
        built_as(
            res,
            final(types).known_types(),
            object_members_built(
                old(types).definitions(),
                old(types).known_types(),
                Seq::empty(),
                Seq::empty(),
                ms@,
            ),
            |x: (Vec<ConstructorDef>, Vec<MethodDef>), m: (Seq<CallableModel>, Seq<CallableModel>)|
                constructors_match(x.0@, m.0) && methods_match(x.1@, m.1),
        ),
{
    let ghost d = types.definitions();
    let ghost total = object_members_built(d, types.known_types(), Seq::empty(), Seq::empty(), ms@);
    let ghost mut acc_c: Seq<CallableModel> = Seq::empty();
    let ghost mut acc_m: Seq<CallableModel> = Seq::empty();
    let mut cons: Vec<ConstructorDef> = Vec::new();
    let mut meths: Vec<MethodDef> = Vec::new();
    let mut i: usize = 0;
    assert(ms@.skip(0) =~= ms@);
    while i < ms.len()
        invariant
            i <= ms@.len(),
            types.wf(),
            types.definitions() == d,
            d == old(types).definitions(),
            total == object_members_built(
                d,
                old(types).known_types(),
                Seq::empty(),
                Seq::empty(),
                ms@,
            ),
            total == object_members_built(d, types.known_types(), acc_c, acc_m, ms@.skip(i as int)),
            constructors_match(cons@, acc_c),
            methods_match(meths@, acc_m),
        decreases ms.len() - i,
    {
        proof {
            lemma_skip_step(ms@, i as int);
        }
        match &ms[i] {
            MemberSyntax::Constructor { attributes, args, .. } => {
                let ghost k = types.known_types();
                match build_constructor(types, attributes, args) {
                    Ok(c) => {
                        let ghost cm = constructor_built(d, k, *attributes, args@).0->Ok_0;
                        proof {
                            lemma_named_constructors(cons@, acc_c, c.name@);
                            lemma_named_methods(meths@, acc_m, c.name@);
                        }
                        if has_constructor_named(&cons, c.name.as_str()) || has_method_named(
                            &meths,
                            c.name.as_str(),
                        ) {
                            return Err(duplicate_member(c.name.as_str()));
                        }
                        proof {
                            acc_c = acc_c.push(cm);
                        }
                        cons.push(c);
                    },
                    Err(e) => {
                        return Err(e);
                    },
                }
            },
            MemberSyntax::Operation(op) => {
                let ghost k = types.known_types();
                match build_method(types, op) {
                    Ok(mth) => {
                        let ghost mm = method_built(d, k, *op).0->Ok_0;
                        proof {
                            lemma_named_constructors(cons@, acc_c, mth.name@);
                            lemma_named_methods(meths@, acc_m, mth.name@);
                        }
                        if has_constructor_named(&cons, mth.name.as_str()) || has_method_named(
                            &meths,
                            mth.name.as_str(),
                        ) {
                            return Err(duplicate_member(mth.name.as_str()));
                        }
                        proof {
                            acc_m = acc_m.push(mm);
                        }
                        meths.push(mth);
                    },
                    Err(e) => {
                        return Err(e);
                    },
                }
            },
            MemberSyntax::Other { text } => {
                let mut m = owned("no support for interface member type ");
                push_str(&mut m, text.as_str());
                push_str(&mut m, " yet");
                return Err(m);
            },
        }
        i = i + 1;
    }
    assert(ms@.skip(i as int) =~= Seq::<MemberSyntax>::empty());
    Ok((cons, meths))
}

fn build_callback_methods(types: &mut TypeUniverse, ms: &Vec<MemberSyntax>) -> (res: Result<
    Vec<MethodDef>,
    String,
>)
    requires
        old(types).wf(),
    ensures
        final(types).wf(),
        final(types).definitions() == old(types).definitions(),
        built_as(
            res,
            final(types).known_types(),
            callback_methods_built(old(types).definitions(), old(types).known_types(), Seq::empty(), ms@),
            |x: Vec<MethodDef>, m: Seq<CallableModel>| methods_match(x@, m),
        ),
{
    let ghost d = types.definitions();
    let ghost total = callback_methods_built(d, types.known_types(), Seq::empty(), ms@);
    let ghost mut acc: Seq<CallableModel> = Seq::empty();
    let mut res: Vec<MethodDef> = Vec::new();
    let mut i: usize = 0;
    assert(ms@.skip(0) =~= ms@);
    while i < ms.len()
        invariant
            i <= ms@.len(),
            types.wf(),
            types.definitions() == d,
            d == old(types).definitions(),
            total == callback_methods_built(d, old(types).known_types(), Seq::empty(), ms@),
            total == callback_methods_built(d, types.known_types(), acc, ms@.skip(i as int)),
            methods_match(res@, acc),
        decreases ms.len() - i,
    {
        proof {
            lemma_skip_step(ms@, i as int);
        }
        match &ms[i] {
            MemberSyntax::Operation(op) => {
                let ghost k = types.known_types();
                match build_method(types, op) {
                    Ok(mth) => {
                        proof {
                            acc = acc.push(method_built(d, k, *op).0->Ok_0);
                        }
                        res.push(mth);
                    },
                    Err(e) => {
                        return Err(e);
                    },
                }
            },
            MemberSyntax::Constructor { text, .. } | MemberSyntax::Other { text } => {
                let mut m = owned("no support for interface member type ");
                push_str(&mut m, text.as_str());
                push_str(&mut m, " yet");
                return Err(m);
            },
        }
        i = i + 1;
    }
    assert(ms@.skip(i as int) =~= Seq::<MemberSyntax>::empty());
    Ok(res)
}

fn build_fields(types: &mut TypeUniverse, fs: &Vec<FieldSyntax>) -> (res: Result<Vec<FieldDef>, String>)
    requires
        old(types).wf(),
    ensures
        final(types).wf(),
        final(types).definitions() == old(types).definitions(),
        built_as(
            res,
            final(types).known_types(),
            fields_built(old(types).definitions(), old(types).known_types(), Seq::empty(), fs@),
            |x: Vec<FieldDef>, m: Seq<ArgModel>| fields_match(x@, m),
        ),
{
    let ghost d = types.definitions();
    let ghost total = fields_built(d, types.known_types(), Seq::empty(), fs@);
    let ghost mut acc: Seq<ArgModel> = Seq::empty();
    let mut res: Vec<FieldDef> = Vec::new();
    let mut i: usize = 0;
    assert(fs@.skip(0) =~= fs@);
    while i < fs.len()
        invariant
            i <= fs@.len(),
            types.wf(),
            types.definitions() == d,
            d == old(types).definitions(),
            total == fields_built(d, old(types).known_types(), Seq::empty(), fs@),
            total == fields_built(d, types.known_types(), acc, fs@.skip(i as int)),
            fields_match(res@, acc),
        decreases fs.len() - i,
    {
        proof {
            lemma_skip_step(fs@, i as int);
        }
        let f = &fs[i];
        match types.resolve_type_expression(&f.type_) {
            Ok(t) => {
                proof {
                    acc = acc.push(ArgModel { name: f.name@, ty: t });
                }
                res.push(FieldDef { name: f.name.clone(), ty: t, docstring: None });
            },
            Err(e) => {
                return Err(e);
            },
        }
        i = i + 1;
    }
    assert(fs@.skip(i as int) =~= Seq::<FieldSyntax>::empty());
    Ok(res)
}

fn build_functions(
    types: &mut TypeUniverse,
    functions: &mut Vec<FunctionDef>,
    ms: &Vec<MemberSyntax>,
    Ghost(existing): Ghost<Seq<CallableModel>>,
) -> (res: Result<(), String>)
    requires
        old(types).wf(),
        functions_match(old(functions)@, existing),
    ensures
        final(types).wf(),
        final(types).definitions() == old(types).definitions(),
        match res {
            Ok(()) => functions_built(
                old(types).definitions(),
                old(types).known_types(),
                existing,
                ms@,
            ).0 matches Ok(fs) && functions_match(final(functions)@, fs),
            Err(e) => functions_built(
                old(types).definitions(),
                old(types).known_types(),
                existing,
                ms@,
            ).0 == Err::<Seq<CallableModel>, Seq<char>>(e@),
        },
        final(types).known_types() == functions_built(
            old(types).definitions(),
            old(types).known_types(),
            existing,
            ms@,
        ).1,
{
    let ghost d = types.definitions();
    let ghost total = functions_built(d, types.known_types(), existing, ms@);
    let ghost mut acc: Seq<CallableModel> = existing;
    let mut i: usize = 0;
    assert(ms@.skip(0) =~= ms@);
    while i < ms.len()
        invariant
            i <= ms@.len(),
            types.wf(),
            types.definitions() == d,
            d == old(types).definitions(),
            total == functions_built(d, old(types).known_types(), existing, ms@),
            total == functions_built(d, types.known_types(), acc, ms@.skip(i as int)),
            functions_match(functions@, acc),
        decreases ms.len() - i,
    {
        proof {
            lemma_skip_step(ms@, i as int);
        }
        match &ms[i] {
            MemberSyntax::Operation(op) => {
                let ghost k = types.known_types();
                match build_function(types, op) {
                    Ok(f) => {
                        let ghost fm = function_built(d, k, *op).0->Ok_0;
                        proof {
                            lemma_named_functions(functions@, acc, f.name@);
                        }
                        if has_function_named(functions, f.name.as_str()) {
                            let mut m = owned("duplicate function definition: \"");
                            push_str(&mut m, f.name.as_str());
                            push_str(&mut m, "\"");
                            return Err(m);
                        }
                        if types.get_type_definition(f.name.as_str()).is_some() {
                            let mut m = owned("Conflicting type definition for \"");
                            push_str(&mut m, f.name.as_str());
                            push_str(&mut m, "\"");
                            return Err(m);
                        }
                        proof {
                            acc = acc.push(fm);
                        }
                        functions.push(f);
                    },
                    Err(e) => {
                        return Err(e);
                    },
                }
            },
            MemberSyntax::Constructor { text, .. } | MemberSyntax::Other { text } => {
                let mut m = owned("no support for namespace member type ");
                push_str(&mut m, text.as_str());
                push_str(&mut m, " yet");
                return Err(m);
            },
        }
        i = i + 1;
    }
    assert(ms@.skip(i as int) =~= Seq::<MemberSyntax>::empty());
    Ok(())
}


/// The parts of a component that building fills.
struct Parts {
    namespace: String,
    records: Vec<RecordDef>,
    enums: Vec<EnumDef>,
    errors: Vec<String>,
    objects: Vec<ObjectDef>,
    cbs: Vec<CallbackInterfaceDef>,
    functions: Vec<FunctionDef>,
}

impl Parts {
    spec fn matches(&self, m: ComponentModel) -> bool {
        parts_match(
            self.namespace,
            self.records@,
            self.enums@,
            self.errors@,
            self.objects@,
            self.cbs@,
            self.functions@,
            m,
        )
    }
}

fn flat_enum_def(name: &String, values: &Vec<String>) -> (res: EnumDef)
    ensures
        enum_matches(res, flat_enum(name@, values@)),
{
    let mut variants: Vec<VariantDef> = Vec::new();
    let mut i: usize = 0;
    while i < values.len()
        invariant
            i <= values@.len(),
            variants@.len() == i,
            forall|j: int|
                0 <= j < i ==> #[trigger] variants@[j].name@ == values@[j]@ && variants@[j].fields@.len()
                    == 0 && variants@[j].docstring is None,
        decreases values.len() - i,
    {
        variants.push(VariantDef { name: values[i].clone(), fields: Vec::new(), docstring: None });
        i = i + 1;
    }
    let res = EnumDef {
        name: name.clone(),
        module: String::new(),
        remote: false,
        variants,
        non_exhaustive: false,
        docstring: None,
    };
    proof {
        let m = flat_enum(name@, values@);
        assert forall|j: int| 0 <= j < res.variants@.len() implies variant_matches(
            #[trigger] res.variants@[j],
            m.variants[j],
        ) by {
            assert(res.variants@[j].name@ == values@[j]@);
            assert(fields_match(res.variants@[j].fields@, Seq::empty()));
        }
    }
    res
}

fn new_constructor() -> (res: ConstructorDef)
    ensures
        constructor_matches(res, default_constructor()),
{
    ConstructorDef { name: owned("new"), arguments: Vec::new(), throws_type: None, docstring: None }
}

fn process_definition(
    types: &mut TypeUniverse,
    parts: &mut Parts,
    d: &DefinitionSyntax,
    Ghost(c): Ghost<ComponentModel>,
) -> (res: Result<(), String>)
    requires
        old(types).wf(),
        old(parts).matches(c),
    ensures
        final(types).wf(),
        final(types).definitions() == old(types).definitions(),
        match res {
            Ok(()) => processed(old(types).definitions(), old(types).known_types(), c, *d).0 matches Ok(
                c2,
            ) && final(parts).matches(c2),
            Err(e) => processed(old(types).definitions(), old(types).known_types(), c, *d).0
                == Err::<ComponentModel, Seq<char>>(e@),
        },
        final(types).known_types() == processed(
            old(types).definitions(),
            old(types).known_types(),
            c,
            *d,
        ).1,
{
    match d {
        DefinitionSyntax::Namespace { name, members } => {
            if parts.namespace.unicode_len() > 0 {
                return Err(owned("duplicate namespace definition"));
            }
            match build_functions(types, &mut parts.functions, members, Ghost(c.functions)) {
                Ok(()) => {
                    parts.namespace = name.clone();
                    Ok(())
                },
                Err(e) => Err(e),
            }
        },
        DefinitionSyntax::Enum { name, attributes, values } => {
            let is_error = match attributes {
                None => false,
                Some(l) => match EnumAttributes::try_from(l.as_slice()) {
                    Ok(a) => a.contains_error_attr(),
                    Err(e) => {
                        return Err(e);
                    },
                },
            };
            parts.enums.push(flat_enum_def(name, values));
            if is_error {
                parts.errors.push(name.clone());
            }
            Ok(())
        },
        DefinitionSyntax::Dictionary { name, fields } => {
            match build_fields(types, fields) {
                Ok(fs) => {
                    parts.records.push(
                        RecordDef {
                            name: name.clone(),
                            module: String::new(),
                            remote: false,
                            fields: fs,
                            docstring: None,
                        },
                    );
                    Ok(())
                },
                Err(e) => Err(e),
            }
        },
        DefinitionSyntax::Interface { name, attributes, inheritance, members } => {
            let is_enum = match attributes {
                None => false,
                Some(l) => match InterfaceAttributes::try_from(l.as_slice()) {
                    Ok(a) => a.contains_enum_attr(),
                    Err(e) => {
                        return Err(e);
                    },
                },
            };
            if is_enum {
                if *inheritance {
                    return Err(owned("interface inheritence is not supported for enum interfaces"));
                }
                match build_variants(types, members) {
                    Ok(vs) => {
                        parts.enums.push(
                            EnumDef {
                                name: name.clone(),
                                module: String::new(),
                                remote: false,
                                variants: vs,
                                non_exhaustive: false,
                                docstring: None,
                            },
                        );
                        Ok(())
                    },
                    Err(e) => Err(e),
                }
            } else {
                if *inheritance {
                    return Err(owned("interface inheritence is not supported"));
                }
                match build_object_members(types, members) {
                    Ok((cons, methods)) => {
                        let mut constructors = cons;
                        proof {
                            let cm = object_members_built(
                                old(types).definitions(),
                                old(types).known_types(),
                                Seq::empty(),
                                Seq::empty(),
                                members@,
                            ).0->Ok_0.0;
                            lemma_named_constructors(constructors@, cm, "new"@);
                        }
                        if !has_constructor_named(&constructors, "new") {
                            constructors.push(new_constructor());
                        }
                        parts.objects.push(
                            ObjectDef {
                                name: name.clone(),
                                module: String::new(),
                                remote: false,
                                constructors,
                                methods,
                                trait_impls: Vec::new(),
                                ffi_func_clone: FfiFunction::default(),
                                ffi_func_free: FfiFunction::default(),
                                docstring: None,
                            },
                        );
                        Ok(())
                    },
                    Err(e) => Err(e),
                }
            }
        },
        DefinitionSyntax::CallbackInterface { name, members, .. } => {
            match build_callback_methods(types, members) {
                Ok(methods) => {
                    parts.cbs.push(
                        CallbackInterfaceDef {
                            name: name.clone(),
                            module: String::new(),
                            methods,
                            docstring: None,
                        },
                    );
                    Ok(())
                },
                Err(e) => Err(e),
            }
        },
        DefinitionSyntax::Typedef { text, .. } | DefinitionSyntax::Other { text } => {
            let mut m = owned("don't know how to deal with ");
            push_str(&mut m, text.as_str());
            Err(m)
        },
    }
}


fn is_error_name(errors: &Vec<String>, n: &str) -> (res: bool)
    ensures
        res == exists|i: int| 0 <= i < errors@.len() && #[trigger] errors@[i]@ == n@,
{
    let mut i: usize = 0;
    while i < errors.len()
        invariant
            i <= errors@.len(),
            forall|j: int| 0 <= j < i ==> #[trigger] errors@[j]@ != n@,
        decreases errors.len() - i,
    {
        if str_eq(errors[i].as_str(), n) {
            return true;
        }
        i = i + 1;
    }
    false
}

/// The first variant, from position `j` on, that shadows a type name.
fn find_shadowing_variant(types: &TypeUniverse, vs: &Vec<VariantDef>, Ghost(ms): Ghost<Seq<VariantModel>>) -> (res: Option<usize>)
    requires
        types.wf(),
        variants_match(vs@, ms),
    ensures
        match res {
            Some(j) => j < vs@.len() && shadowing_variant(types.definitions(), ms) == Some(
                vs@[j as int].name@,
            ),
            None => shadowing_variant(types.definitions(), ms) is None,
        },
{
    let mut j: usize = 0;
    assert(ms.skip(0) =~= ms);
    while j < vs.len()
        invariant
            types.wf(),
            j <= vs@.len(),
            variants_match(vs@, ms),
            shadowing_variant(types.definitions(), ms) == shadowing_variant(
                types.definitions(),
                ms.skip(j as int),
            ),
        decreases vs.len() - j,
    {
        proof {
            lemma_skip_step(ms, j as int);
            assert(variant_matches(vs@[j as int], ms[j as int]));
        }
        if types.get_type_definition(vs[j].name.as_str()).is_some() {
            return Some(j);
        }
        j = j + 1;
    }
    assert(ms.skip(j as int) =~= Seq::<VariantModel>::empty());
    None
}

/// Checks the component as a whole: it must have a namespace, and no variant
/// of an enum that is no error may have the name of a type.
fn check_consistency(types: &TypeUniverse, parts: &Parts, Ghost(c): Ghost<ComponentModel>) -> (res: Result<(), String>)
    requires
        types.wf(),
        parts.matches(c),
    ensures
        match res {
            Ok(()) => consistency_error(types.definitions(), c) is None,
            Err(e) => consistency_error(types.definitions(), c) == Some(e@),
        },
{
    if parts.namespace.unicode_len() == 0 {
        return Err(owned("missing namespace definition"));
    }
    let ghost d = types.definitions();
    let mut i: usize = 0;
    assert(c.enums.skip(0) =~= c.enums);
    while i < parts.enums.len()
        invariant
            types.wf(),
            d == types.definitions(),
            parts.matches(c),
            c.namespace.len() != 0,
            i <= parts.enums@.len(),
            shadowing_in(d, c.enums, c.errors) == shadowing_in(d, c.enums.skip(i as int), c.errors),
        decreases parts.enums.len() - i,
    {
        proof {
            lemma_skip_step(c.enums, i as int);
            assert(enum_matches(parts.enums@[i as int], c.enums[i as int]));
        }
        let e = &parts.enums[i];
        proof {
            if c.errors.contains(e.name@) {
                let k = choose|k: int| 0 <= k < c.errors.len() && c.errors[k] == e.name@;
                assert(parts.errors@[k]@ == c.errors[k]);
            }
            if exists|k: int| 0 <= k < parts.errors@.len() && #[trigger] parts.errors@[k]@ == e.name@ {
                let k = choose|k: int| 0 <= k < parts.errors@.len() && #[trigger] parts.errors@[k]@ == e.name@;
                assert(c.errors[k] == e.name@);
            }
        }
        if !is_error_name(&parts.errors, e.name.as_str()) {
            match find_shadowing_variant(types, &e.variants, Ghost(c.enums[i as int].variants)) {
                Some(j) => {
                    let mut m = owned("Enum variant names must not shadow type names: \"");
                    push_str(&mut m, e.variants[j].name.as_str());
                    push_str(&mut m, "\"");
                    proof {
                        assert(!c.errors.contains(c.enums[i as int].name));
                        assert(c.enums.skip(i as int)[0] == c.enums[i as int]);
                        assert(shadowing_in(d, c.enums.skip(i as int), c.errors) == Some(
                            e.variants@[j as int].name@,
                        ));
                        assert(shadowing_in(d, c.enums, c.errors) == Some(e.variants@[j as int].name@));
                        assert(c.namespace.len() != 0);
                        assert(consistency_error(d, c) == Some(m@));
                    }
                    return Err(m);
                },
                None => {},
            }
        }
        i = i + 1;
    }
    assert(c.enums.skip(i as int) =~= Seq::<EnumModel>::empty());
    Ok(())
}

/// Builds a component from parsed UDL definitions: `String` is known first;
/// the named types of the definitions are discovered; the definitions are
/// processed in order into the namespace and its functions, the records, the
/// enums and errors, the objects and the callback interfaces; the component is
/// checked as a whole. The first error stops it. The component's FFI layer is
/// left to be derived.
pub fn component_from_definitions(defs: &[DefinitionSyntax]) -> (res: Result<ComponentView, String>)
    ensures
        match component_built(defs@) {
            Ok((m, k)) => res matches Ok(ci) && component_matches(ci, m, k),
            Err(e) => res matches Err(x) && x@ == e,
        },
{
    let mut types = TypeUniverse::new();
    let _ = types.add_known_type(Type::String);
    assert(types.known_types() =~= seq![Type::String]);
    let ghost s0 = types.state();
    assert(s0 == (Map::<Seq<char>, Type>::empty(), seq![Type::String]));
    match types.add_type_definitions_from(defs) {
        Ok(()) => {},
        Err(e) => {
            assert(found_all(s0, defs@).0 == Err::<(), Seq<char>>(e@));
            return Err(e);
        },
    }
    let ghost d = types.definitions();
    let ghost s1 = types.state();
    assert(found_all(s0, defs@) == (Ok::<(), Seq<char>>(()), s1));
    let ghost total = processed_all(d, types.known_types(), empty_component(), defs@);
    let ghost mut c = empty_component();
    let mut parts = Parts {
        namespace: String::new(),
        records: Vec::new(),
        enums: Vec::new(),
        errors: Vec::new(),
        objects: Vec::new(),
        cbs: Vec::new(),
        functions: Vec::new(),
    };
    let mut i: usize = 0;
    assert(defs@.skip(0) =~= defs@);
    while i < defs.len()
        invariant
            i <= defs@.len(),
            types.wf(),
            types.definitions() == d,
            total == processed_all(d, types.known_types(), c, defs@.skip(i as int)),
            parts.matches(c),
            s0 == (Map::<Seq<char>, Type>::empty(), seq![Type::String]),
            found_all(s0, defs@) == (Ok::<(), Seq<char>>(()), s1),
            s1.0 == d,
            total == processed_all(d, s1.1, empty_component(), defs@),
        decreases defs.len() - i,
    {
        proof {
            lemma_skip_step(defs@, i as int);
        }
        let ghost k = types.known_types();
        match process_definition(&mut types, &mut parts, &defs[i], Ghost(c)) {
            Ok(()) => {
                proof {
                    c = processed(d, k, c, defs@[i as int]).0->Ok_0;
                }
            },
            Err(e) => {
                return Err(e);
            },
        }
        i = i + 1;
    }
    assert(defs@.skip(i as int) =~= Seq::<DefinitionSyntax>::empty());
    match check_consistency(&types, &parts, Ghost(c)) {
        Ok(()) => {},
        Err(e) => {
            return Err(e);
        },
    }
    let Parts { namespace, records, enums, errors, objects, cbs, functions } = parts;
    Ok(
        ComponentView {
            namespace,
            namespace_docstring: None,
            records,
            enums,
            objects,
            callback_interfaces: cbs,
            functions,
            ffi_definitions: Vec::new(),
            types: types.iter_known_types(),
            checksums: Vec::new(),
            errors,
            ffi_rustbuffer_alloc: FfiFunction::default(),
            ffi_rustbuffer_reserve: FfiFunction::default(),
            ffi_rustbuffer_free: FfiFunction::default(),
            ffi_uniffi_contract_version: FfiFunction::default(),
            uniffi_contract_version: 0,
        },
    )
}

/// Parses UDL and builds a component from its definitions, as
/// [`component_from_definitions`] does; `None` where the text is not wholly
/// UDL definitions.
pub fn component_from_udl(udl: &str) -> (res: Option<Result<ComponentView, String>>)
    ensures
        match parsed_definitions(udl@) {
            Some((ds, rest)) => if rest.len() == 0 {
                res matches Some(r) && match component_built(ds) {
                    Ok((m, k)) => r matches Ok(ci) && component_matches(ci, m, k),
                    Err(e) => r matches Err(x) && x@ == e,
                }
            } else {
                res is None
            },
            None => res is None,
        },
{
    match parse_definitions(udl) {
        Some((defs, rest)) => {
            if rest.unicode_len() != 0 {
                return None;
            }
            Some(component_from_definitions(defs.as_slice()))
        },
        None => None,
    }
}

} // verus!
