//! What building a component makes known: every type that the built component
//! uses is one of the types it knows.

use vstd::prelude::*;

use super::builder::{
    argument_built, arguments_built, callback_methods_built, component_built, constructor_built,
    default_constructor, empty_component, fields_built, flat_enum, function_built, functions_built,
    method_built, object_members_built, processed, processed_all, return_resolved, variant_built,
    variants_built, named, ArgModel, CallableModel, ComponentModel, ObjectModel, VariantModel,
};
use super::syntax::{ArgumentSyntax, FieldSyntax, MemberSyntax, OperationSyntax};
use super::types::finder::{defined, found, found_all, DefinitionSyntax, UniverseState};
use super::types::resolver::{lemma_resolved_grows, lemma_with_known, resolved, TypeExpr};
use super::types::{has_type, lemma_same_type_refl, same_type, Type};
use super::attributes::AttributeSyntax;

verus! {

/// The types of the arguments (or fields) are known.
pub open spec fn args_known(args: Seq<ArgModel>, k: Seq<Type>) -> bool {
    forall|i: int| 0 <= i < args.len() ==> has_type(k, #[trigger] args[i].ty)
}

/// The types of the callable's arguments and its return type are known.
pub open spec fn callable_known(c: CallableModel, k: Seq<Type>) -> bool {
    &&& args_known(c.args, k)
    &&& (c.return_type matches Some(t) ==> has_type(k, t))
}

pub open spec fn callables_known(cs: Seq<CallableModel>, k: Seq<Type>) -> bool {
    forall|i: int| 0 <= i < cs.len() ==> callable_known(#[trigger] cs[i], k)
}

pub open spec fn variants_known(vs: Seq<VariantModel>, k: Seq<Type>) -> bool {
    forall|i: int| 0 <= i < vs.len() ==> args_known(#[trigger] vs[i].fields, k)
}

/// Every type that the component uses is known: those of its functions, of
/// its records' fields, of its enums' variants, of its objects' constructors
/// and methods, and of its callback interfaces' methods.
pub open spec fn model_types_known(m: ComponentModel, k: Seq<Type>) -> bool {
    &&& callables_known(m.functions, k)
    &&& forall|i: int| 0 <= i < m.records.len() ==> args_known(#[trigger] m.records[i].fields, k)
    &&& forall|i: int| 0 <= i < m.enums.len() ==> variants_known(#[trigger] m.enums[i].variants, k)
    &&& forall|i: int|
        0 <= i < m.objects.len() ==> callables_known(#[trigger] m.objects[i].constructors, k)
            && callables_known(m.objects[i].methods, k)
    &&& forall|i: int|
        0 <= i < m.callback_interfaces.len() ==> callables_known(
            #[trigger] m.callback_interfaces[i].methods,
            k,
        )
}

/// A type known stays known as more become known.
proof fn lemma_known_grows(a: Seq<Type>, b: Seq<Type>)
    requires
        a.is_prefix_of(b),
    ensures
        forall|t: Type| has_type(a, t) ==> #[trigger] has_type(b, t),
{
    assert forall|t: Type| has_type(a, t) implies #[trigger] has_type(b, t) by {
        let i = choose|i: int| 0 <= i < a.len() && same_type(a[i], t);
        assert(b[i] == a[i]);
    }
}

proof fn lemma_args_known_grows(args: Seq<ArgModel>, a: Seq<Type>, b: Seq<Type>)
    requires
        args_known(args, a),
        a.is_prefix_of(b),
    ensures
        args_known(args, b),
{
    lemma_known_grows(a, b);
}

proof fn lemma_callables_known_grows(cs: Seq<CallableModel>, a: Seq<Type>, b: Seq<Type>)
    requires
        callables_known(cs, a),
        a.is_prefix_of(b),
    ensures
        callables_known(cs, b),
{
    lemma_known_grows(a, b);
    assert forall|i: int| 0 <= i < cs.len() implies callable_known(#[trigger] cs[i], b) by {
        lemma_args_known_grows(cs[i].args, a, b);
    }
}

proof fn lemma_variants_known_grows(vs: Seq<VariantModel>, a: Seq<Type>, b: Seq<Type>)
    requires
        variants_known(vs, a),
        a.is_prefix_of(b),
    ensures
        variants_known(vs, b),
{
    assert forall|i: int| 0 <= i < vs.len() implies args_known(#[trigger] vs[i].fields, b) by {
        lemma_args_known_grows(vs[i].fields, a, b);
    }
}

proof fn lemma_model_known_grows(m: ComponentModel, a: Seq<Type>, b: Seq<Type>)
    requires
        model_types_known(m, a),
        a.is_prefix_of(b),
    ensures
        model_types_known(m, b),
{
    lemma_callables_known_grows(m.functions, a, b);
    assert forall|i: int| 0 <= i < m.records.len() implies args_known(
        #[trigger] m.records[i].fields,
        b,
    ) by {
        lemma_args_known_grows(m.records[i].fields, a, b);
    }
    assert forall|i: int| 0 <= i < m.enums.len() implies variants_known(
        #[trigger] m.enums[i].variants,
        b,
    ) by {
        lemma_variants_known_grows(m.enums[i].variants, a, b);
    }
    assert forall|i: int| 0 <= i < m.objects.len() implies callables_known(
        #[trigger] m.objects[i].constructors,
        b,
    ) && callables_known(m.objects[i].methods, b) by {
        lemma_callables_known_grows(m.objects[i].constructors, a, b);
        lemma_callables_known_grows(m.objects[i].methods, a, b);
    }
    assert forall|i: int| 0 <= i < m.callback_interfaces.len() implies callables_known(
        #[trigger] m.callback_interfaces[i].methods,
        b,
    ) by {
        lemma_callables_known_grows(m.callback_interfaces[i].methods, a, b);
    }
}

proof fn lemma_prefix_trans(a: Seq<Type>, b: Seq<Type>, c: Seq<Type>)
    requires
        a.is_prefix_of(b),
        b.is_prefix_of(c),
    ensures
        a.is_prefix_of(c),
{
    assert(c.subrange(0, a.len() as int) =~= a) by {
        assert forall|i: int| 0 <= i < a.len() implies c[i] == a[i] by {
            assert(b[i] == a[i]);
            assert(c[i] == b[i]);
        }
    }
}

proof fn lemma_argument_built(
    defs: Map<Seq<char>, Type>,
    known: Seq<Type>,
    a: ArgumentSyntax,
    is_field: bool,
)
    ensures
        known.is_prefix_of(argument_built(defs, known, a, is_field).1),
        argument_built(defs, known, a, is_field).0 matches Ok(x) ==> has_type(
            argument_built(defs, known, a, is_field).1,
            x.ty,
        ),
{
    assert(known.is_prefix_of(known));
    if !a.variadic && !a.type_has_attributes {
        lemma_resolved_grows(defs, known, a.type_);
    }
}

proof fn lemma_arguments_built(
    defs: Map<Seq<char>, Type>,
    known: Seq<Type>,
    args: Seq<ArgumentSyntax>,
    is_field: bool,
)
    ensures
        known.is_prefix_of(arguments_built(defs, known, args, is_field).1),
        arguments_built(defs, known, args, is_field).0 matches Ok(v) ==> args_known(
            v,
            arguments_built(defs, known, args, is_field).1,
        ),
    decreases args.len(),
{
    assert(known.is_prefix_of(known));
    if args.len() > 0 {
        lemma_arguments_built(defs, known, args.drop_last(), is_field);
        let (r, k) = arguments_built(defs, known, args.drop_last(), is_field);
        if let Ok(prefix) = r {
            lemma_argument_built(defs, k, args.last(), is_field);
            let (r2, k2) = argument_built(defs, k, args.last(), is_field);
            lemma_prefix_trans(known, k, k2);
            if let Ok(a) = r2 {
                lemma_args_known_grows(prefix, k, k2);
                let v = prefix.push(a);
                assert forall|i: int| 0 <= i < v.len() implies has_type(k2, #[trigger] v[i].ty) by {
                    if i < prefix.len() {
                        assert(v[i] == prefix[i]);
                    }
                }
            }
        }
    }
}

proof fn lemma_return_resolved(defs: Map<Seq<char>, Type>, known: Seq<Type>, r: Option<TypeExpr>)
    ensures
        known.is_prefix_of(return_resolved(defs, known, r).1),
        return_resolved(defs, known, r).0 matches Ok(Some(t)) ==> has_type(
            return_resolved(defs, known, r).1,
            t,
        ),
{
    assert(known.is_prefix_of(known));
    if let Some(e) = r {
        lemma_resolved_grows(defs, known, e);
    }
}

proof fn lemma_function_built(defs: Map<Seq<char>, Type>, known: Seq<Type>, op: OperationSyntax)
    ensures
        known.is_prefix_of(function_built(defs, known, op).1),
        function_built(defs, known, op).0 matches Ok(f) ==> callable_known(
            f,
            function_built(defs, known, op).1,
        ),
{
    lemma_return_resolved(defs, known, op.return_type);
    let (r, k) = return_resolved(defs, known, op.return_type);
    lemma_arguments_built(defs, k, op.args@, false);
    let (a, k2) = arguments_built(defs, k, op.args@, false);
    lemma_prefix_trans(known, k, k2);
    lemma_known_grows(k, k2);
}

proof fn lemma_method_built(defs: Map<Seq<char>, Type>, known: Seq<Type>, op: OperationSyntax)
    ensures
        known.is_prefix_of(method_built(defs, known, op).1),
        method_built(defs, known, op).0 matches Ok(f) ==> callable_known(
            f,
            method_built(defs, known, op).1,
        ),
{
    assert(known.is_prefix_of(known));
    lemma_return_resolved(defs, known, op.return_type);
    let (r, k) = return_resolved(defs, known, op.return_type);
    lemma_arguments_built(defs, k, op.args@, false);
    let (a, k2) = arguments_built(defs, k, op.args@, false);
    lemma_prefix_trans(known, k, k2);
    lemma_known_grows(k, k2);
}

proof fn lemma_constructor_built(
    defs: Map<Seq<char>, Type>,
    known: Seq<Type>,
    attributes: Option<Vec<AttributeSyntax>>,
    args: Seq<ArgumentSyntax>,
)
    ensures
        known.is_prefix_of(constructor_built(defs, known, attributes, args).1),
        constructor_built(defs, known, attributes, args).0 matches Ok(f) ==> callable_known(
            f,
            constructor_built(defs, known, attributes, args).1,
        ),
{
    assert(known.is_prefix_of(known));
    lemma_arguments_built(defs, known, args, false);
}

proof fn lemma_variant_built(defs: Map<Seq<char>, Type>, known: Seq<Type>, op: OperationSyntax)
    ensures
        known.is_prefix_of(variant_built(defs, known, op).1),
        variant_built(defs, known, op).0 matches Ok(v) ==> args_known(
            v.fields,
            variant_built(defs, known, op).1,
        ),
{
    assert(known.is_prefix_of(known));
    lemma_arguments_built(defs, known, op.args@, true);
}

proof fn lemma_variants_built(
    defs: Map<Seq<char>, Type>,
    known: Seq<Type>,
    acc: Seq<VariantModel>,
    ms: Seq<MemberSyntax>,
)
    requires
        variants_known(acc, known),
    ensures
        known.is_prefix_of(variants_built(defs, known, acc, ms).1),
        variants_built(defs, known, acc, ms).0 matches Ok(v) ==> variants_known(
            v,
            variants_built(defs, known, acc, ms).1,
        ),
    decreases ms.len(),
{
    assert(known.is_prefix_of(known));
    if ms.len() > 0 {
        if let MemberSyntax::Operation(op) = ms[0] {
            lemma_variant_built(defs, known, op);
            let (r, k) = variant_built(defs, known, op);
            if let Ok(v) = r {
                lemma_variants_known_grows(acc, known, k);
                let acc2 = acc.push(v);
                assert forall|i: int| 0 <= i < acc2.len() implies args_known(
                    #[trigger] acc2[i].fields,
                    k,
                ) by {
                    if i < acc.len() {
                        assert(acc2[i] == acc[i]);
                    }
                }
                lemma_variants_built(defs, k, acc2, ms.drop_first());
                lemma_prefix_trans(known, k, variants_built(defs, k, acc2, ms.drop_first()).1);
            }
        }
    }
}

proof fn lemma_push_callable(cs: Seq<CallableModel>, c: CallableModel, k: Seq<Type>)
    requires
        callables_known(cs, k),
        callable_known(c, k),
    ensures
        callables_known(cs.push(c), k),
{
    assert forall|i: int| 0 <= i < cs.push(c).len() implies callable_known(
        #[trigger] cs.push(c)[i],
        k,
    ) by {
        if i < cs.len() {
            assert(cs.push(c)[i] == cs[i]);
        }
    }
}

proof fn lemma_object_members_built(
    defs: Map<Seq<char>, Type>,
    known: Seq<Type>,
    cs: Seq<CallableModel>,
    mths: Seq<CallableModel>,
    ms: Seq<MemberSyntax>,
)
    requires
        callables_known(cs, known),
        callables_known(mths, known),
    ensures
        known.is_prefix_of(object_members_built(defs, known, cs, mths, ms).1),
        object_members_built(defs, known, cs, mths, ms).0 matches Ok((a, b)) ==> callables_known(
            a,
            object_members_built(defs, known, cs, mths, ms).1,
        ) && callables_known(b, object_members_built(defs, known, cs, mths, ms).1),
    decreases ms.len(),
{
    assert(known.is_prefix_of(known));
    if ms.len() > 0 {
        match ms[0] {
            MemberSyntax::Constructor { attributes, args, .. } => {
                lemma_constructor_built(defs, known, attributes, args@);
                let (r, k) = constructor_built(defs, known, attributes, args@);
                lemma_callables_known_grows(cs, known, k);
                lemma_callables_known_grows(mths, known, k);
                if let Ok(c) = r {
                    lemma_push_callable(cs, c, k);
                    lemma_object_members_built(defs, k, cs.push(c), mths, ms.drop_first());
                    lemma_prefix_trans(
                        known,
                        k,
                        object_members_built(defs, k, cs.push(c), mths, ms.drop_first()).1,
                    );
                }
            },
            MemberSyntax::Operation(op) => {
                lemma_method_built(defs, known, op);
                let (r, k) = method_built(defs, known, op);
                lemma_callables_known_grows(cs, known, k);
                lemma_callables_known_grows(mths, known, k);
                if let Ok(m) = r {
                    lemma_push_callable(mths, m, k);
                    lemma_object_members_built(defs, k, cs, mths.push(m), ms.drop_first());
                    lemma_prefix_trans(
                        known,
                        k,
                        object_members_built(defs, k, cs, mths.push(m), ms.drop_first()).1,
                    );
                }
            },
            _ => {},
        }
    }
}

proof fn lemma_callback_methods_built(
    defs: Map<Seq<char>, Type>,
    known: Seq<Type>,
    acc: Seq<CallableModel>,
    ms: Seq<MemberSyntax>,
)
    requires
        callables_known(acc, known),
    ensures
        known.is_prefix_of(callback_methods_built(defs, known, acc, ms).1),
        callback_methods_built(defs, known, acc, ms).0 matches Ok(v) ==> callables_known(
            v,
            callback_methods_built(defs, known, acc, ms).1,
        ),
    decreases ms.len(),
{
    assert(known.is_prefix_of(known));
    if ms.len() > 0 {
        if let MemberSyntax::Operation(op) = ms[0] {
            lemma_method_built(defs, known, op);
            let (r, k) = method_built(defs, known, op);
            if let Ok(m) = r {
                lemma_callables_known_grows(acc, known, k);
                lemma_push_callable(acc, m, k);
                lemma_callback_methods_built(defs, k, acc.push(m), ms.drop_first());
                lemma_prefix_trans(
                    known,
                    k,
                    callback_methods_built(defs, k, acc.push(m), ms.drop_first()).1,
                );
            }
        }
    }
}

proof fn lemma_fields_built(
    defs: Map<Seq<char>, Type>,
    known: Seq<Type>,
    acc: Seq<ArgModel>,
    fs: Seq<FieldSyntax>,
)
    requires
        args_known(acc, known),
    ensures
        known.is_prefix_of(fields_built(defs, known, acc, fs).1),
        fields_built(defs, known, acc, fs).0 matches Ok(v) ==> args_known(
            v,
            fields_built(defs, known, acc, fs).1,
        ),
    decreases fs.len(),
{
    assert(known.is_prefix_of(known));
    if fs.len() > 0 {
        lemma_resolved_grows(defs, known, fs[0].type_);
        let (r, k) = resolved(defs, known, fs[0].type_);
        if let Ok(t) = r {
            lemma_args_known_grows(acc, known, k);
            let acc2 = acc.push(ArgModel { name: fs[0].name@, ty: t });
            assert forall|i: int| 0 <= i < acc2.len() implies has_type(k, #[trigger] acc2[i].ty) by {
                if i < acc.len() {
                    assert(acc2[i] == acc[i]);
                }
            }
            lemma_fields_built(defs, k, acc2, fs.drop_first());
            lemma_prefix_trans(known, k, fields_built(defs, k, acc2, fs.drop_first()).1);
        }
    }
}

proof fn lemma_functions_built(
    defs: Map<Seq<char>, Type>,
    known: Seq<Type>,
    existing: Seq<CallableModel>,
    ms: Seq<MemberSyntax>,
)
    requires
        callables_known(existing, known),
    ensures
        known.is_prefix_of(functions_built(defs, known, existing, ms).1),
        functions_built(defs, known, existing, ms).0 matches Ok(v) ==> callables_known(
            v,
            functions_built(defs, known, existing, ms).1,
        ),
    decreases ms.len(),
{
    assert(known.is_prefix_of(known));
    if ms.len() > 0 {
        if let MemberSyntax::Operation(op) = ms[0] {
            lemma_function_built(defs, known, op);
            let (r, k) = function_built(defs, known, op);
            if let Ok(f) = r {
                lemma_callables_known_grows(existing, known, k);
                lemma_push_callable(existing, f, k);
                lemma_functions_built(defs, k, existing.push(f), ms.drop_first());
                lemma_prefix_trans(
                    known,
                    k,
                    functions_built(defs, k, existing.push(f), ms.drop_first()).1,
                );
            }
        }
    }
}

proof fn lemma_processed(
    defs: Map<Seq<char>, Type>,
    known: Seq<Type>,
    c: ComponentModel,
    d: DefinitionSyntax,
)
    requires
        model_types_known(c, known),
    ensures
        known.is_prefix_of(processed(defs, known, c, d).1),
        processed(defs, known, c, d).0 matches Ok(c2) ==> model_types_known(
            c2,
            processed(defs, known, c, d).1,
        ),
{
    assert(known.is_prefix_of(known));
    let (r, k) = processed(defs, known, c, d);
    match d {
        DefinitionSyntax::Namespace { name, members } => {
            if c.namespace.len() == 0 {
                lemma_functions_built(defs, known, c.functions, members@);
                lemma_model_known_grows(c, known, k);
            }
        },
        DefinitionSyntax::Enum { name, attributes, values } => {
            if let Ok(c2) = r {
                let e = flat_enum(name@, values@);
                assert(variants_known(e.variants, known)) by {
                    assert forall|i: int| 0 <= i < e.variants.len() implies args_known(
                        #[trigger] e.variants[i].fields,
                        known,
                    ) by {
                        assert(e.variants[i].fields.len() == 0);
                    }
                }
                assert forall|i: int| 0 <= i < c2.enums.len() implies variants_known(
                    #[trigger] c2.enums[i].variants,
                    k,
                ) by {
                    if i < c.enums.len() {
                        assert(c2.enums[i] == c.enums[i]);
                    }
                }
            }
        },
        DefinitionSyntax::Dictionary { name, fields } => {
            lemma_fields_built(defs, known, Seq::empty(), fields@);
            lemma_model_known_grows(c, known, k);
            if let Ok(c2) = r {
                assert forall|i: int| 0 <= i < c2.records.len() implies args_known(
                    #[trigger] c2.records[i].fields,
                    k,
                ) by {
                    if i < c.records.len() {
                        assert(c2.records[i] == c.records[i]);
                    }
                }
            }
        },
        DefinitionSyntax::Interface { name, attributes, inheritance, members } => {
            lemma_variants_built(defs, known, Seq::empty(), members@);
            lemma_object_members_built(defs, known, Seq::empty(), Seq::empty(), members@);
            lemma_model_known_grows(c, known, k);
            if let Ok(c2) = r {
                assert forall|i: int| 0 <= i < c2.enums.len() implies variants_known(
                    #[trigger] c2.enums[i].variants,
                    k,
                ) by {
                    if i < c.enums.len() {
                        assert(c2.enums[i] == c.enums[i]);
                    }
                }
                let (r3, k3) = object_members_built(defs, known, Seq::empty(), Seq::empty(), members@);
                if c2.objects.len() == c.objects.len() {
                    assert(c2.objects == c.objects);
                } else if let Ok((cs, ms)) = r3 {
                    assert(callable_known(default_constructor(), k3));
                    lemma_push_callable(cs, default_constructor(), k3);
                    let cs2 = if named(cs, "new"@) {
                        cs
                    } else {
                        cs.push(default_constructor())
                    };
                    assert(k == k3);
                    assert(c2.objects == c.objects.push(
                        ObjectModel { name: name@, constructors: cs2, methods: ms },
                    ));
                    assert forall|i: int| 0 <= i < c2.objects.len() implies callables_known(
                        #[trigger] c2.objects[i].constructors,
                        k,
                    ) && callables_known(c2.objects[i].methods, k) by {
                        if i < c.objects.len() {
                            assert(c2.objects[i] == c.objects[i]);
                        }
                    }
                }
            }
        },
        DefinitionSyntax::CallbackInterface { name, members, .. } => {
            lemma_callback_methods_built(defs, known, Seq::empty(), members@);
            lemma_model_known_grows(c, known, k);
            if let Ok(c2) = r {
                assert forall|i: int| 0 <= i < c2.callback_interfaces.len() implies callables_known(
                    #[trigger] c2.callback_interfaces[i].methods,
                    k,
                ) by {
                    if i < c.callback_interfaces.len() {
                        assert(c2.callback_interfaces[i] == c.callback_interfaces[i]);
                    }
                }
            }
        },
        _ => {},
    }
}

proof fn lemma_processed_all(
    defs: Map<Seq<char>, Type>,
    known: Seq<Type>,
    c: ComponentModel,
    ds: Seq<DefinitionSyntax>,
)
    requires
        model_types_known(c, known),
    ensures
        known.is_prefix_of(processed_all(defs, known, c, ds).1),
        processed_all(defs, known, c, ds).0 matches Ok(c2) ==> model_types_known(
            c2,
            processed_all(defs, known, c, ds).1,
        ),
    decreases ds.len(),
{
    assert(known.is_prefix_of(known));
    if ds.len() > 0 {
        lemma_processed(defs, known, c, ds[0]);
        let (r, k) = processed(defs, known, c, ds[0]);
        if let Ok(c2) = r {
            lemma_processed_all(defs, k, c2, ds.drop_first());
            lemma_prefix_trans(known, k, processed_all(defs, k, c2, ds.drop_first()).1);
        }
    }
}

proof fn lemma_defined_grows(s: UniverseState, name: Seq<char>, t: Type)
    ensures
        s.1.is_prefix_of(defined(s, name, t).1.1),
{
    assert(s.1.is_prefix_of(s.1));
    lemma_with_known(s.1, t);
}

proof fn lemma_found_grows(s: UniverseState, d: DefinitionSyntax)
    ensures
        s.1.is_prefix_of(found(s, d).1.1),
{
    assert(s.1.is_prefix_of(s.1));
    match d {
        DefinitionSyntax::Interface { name, .. } => {
            lemma_defined_grows(s, name@, Type::Object(name));
            lemma_defined_grows(s, name@, Type::Enum(name));
        },
        DefinitionSyntax::CallbackInterface { name, .. } => {
            lemma_defined_grows(s, name@, Type::CallbackInterface(name));
        },
        DefinitionSyntax::Dictionary { name, .. } => {
            lemma_defined_grows(s, name@, Type::Record(name));
        },
        DefinitionSyntax::Enum { name, .. } => {
            lemma_defined_grows(s, name@, Type::Error(name));
            lemma_defined_grows(s, name@, Type::Enum(name));
        },
        DefinitionSyntax::Typedef { name, type_, .. } => {
            lemma_resolved_grows(s.0, s.1, type_);
            let (r, k) = resolved(s.0, s.1, type_);
            if let Ok(t) = r {
                lemma_defined_grows((s.0, k), name@, t);
                lemma_prefix_trans(s.1, k, defined((s.0, k), name@, t).1.1);
            }
        },
        _ => {},
    }
}

proof fn lemma_found_all_grows(s: UniverseState, ds: Seq<DefinitionSyntax>)
    ensures
        s.1.is_prefix_of(found_all(s, ds).1.1),
    decreases ds.len(),
{
    assert(s.1.is_prefix_of(s.1));
    if ds.len() > 0 {
        lemma_found_grows(s, ds[0]);
        let (r, s1) = found(s, ds[0]);
        if r is Ok {
            lemma_found_all_grows(s1, ds.drop_first());
            lemma_prefix_trans(s.1, s1.1, found_all(s1, ds.drop_first()).1.1);
        }
    }
}

/// A component built from UDL always knows `String`, and every type that it
/// uses is one of the types it knows: the types of the arguments and return values of its functions, of
/// its objects' constructors and methods and of its callback interfaces'
/// methods, and the types of the fields of its records and of its enums'
/// variants.
pub proof fn lemma_built_component_knows_its_types(ds: Seq<DefinitionSyntax>)
    ensures
        component_built(ds) matches Ok((m, k)) ==> model_types_known(m, k) && has_type(
            k,
            Type::String,
        ),
{
    let s0: UniverseState = (Map::empty(), seq![Type::String]);
    let (r, s) = found_all(s0, ds);
    lemma_found_all_grows(s0, ds);
    if r is Ok {
        lemma_processed_all(s.0, s.1, empty_component(), ds);
        let k = processed_all(s.0, s.1, empty_component(), ds).1;
        lemma_prefix_trans(s0.1, s.1, k);
        lemma_same_type_refl(Type::String);
        assert(s0.1[0] == Type::String);
        assert(k.subrange(0, s0.1.len() as int) == s0.1);
        assert(k.subrange(0, 1)[0] == k[0]);
        assert(same_type(k[0], Type::String));
    }
}
} // verus!
