//! What building a component guarantees of names: its functions have distinct
//! names, and each of its objects has a primary constructor named `new` and
//! members of distinct names, none of its methods named `new`.

use vstd::prelude::*;

use super::builder::{
    component_built, constructor_built, default_constructor, empty_component, function_built,
    functions_built, method_built, named, object_members_built, processed, processed_all,
    CallableModel, ComponentModel, ObjectModel,
};
use super::syntax::MemberSyntax;
use super::types::finder::{found_all, DefinitionSyntax, UniverseState};
use super::types::Type;

verus! {

/// No two of the callables share a name.
pub open spec fn names_distinct(cs: Seq<CallableModel>) -> bool {
    forall|i: int, j: int| 0 <= i < j < cs.len() ==> #[trigger] cs[i].name != #[trigger] cs[j].name
}

/// The constructors and methods of an object have distinct names, and no
/// method is named `new`.
pub open spec fn members_distinct(cs: Seq<CallableModel>, ms: Seq<CallableModel>) -> bool {
    &&& names_distinct(cs)
    &&& names_distinct(ms)
    &&& forall|i: int, j: int|
        0 <= i < cs.len() && 0 <= j < ms.len() ==> #[trigger] cs[i].name != #[trigger] ms[j].name
    &&& !named(ms, "new"@)
}

/// The object has a primary constructor, and members of distinct names.
pub open spec fn object_well_named(o: ObjectModel) -> bool {
    named(o.constructors, "new"@) && members_distinct(o.constructors, o.methods)
}

/// What building guarantees of the names of a component.
pub open spec fn model_well_named(m: ComponentModel) -> bool {
    &&& names_distinct(m.functions)
    &&& forall|i: int| 0 <= i < m.objects.len() ==> object_well_named(#[trigger] m.objects[i])
}

proof fn lemma_push_distinct(cs: Seq<CallableModel>, c: CallableModel)
    requires
        names_distinct(cs),
        !named(cs, c.name),
    ensures
        names_distinct(cs.push(c)),
{
    let v = cs.push(c);
    assert forall|i: int, j: int| 0 <= i < j < v.len() implies #[trigger] v[i].name
        != #[trigger] v[j].name by {
        assert(v[i] == cs[i]);
        if j < cs.len() {
            assert(v[j] == cs[j]);
        } else {
            assert(v[j] == c);
        }
    }
}

proof fn lemma_method_not_new(
    defs: Map<Seq<char>, Type>,
    known: Seq<Type>,
    op: super::syntax::OperationSyntax,
)
    ensures
        method_built(defs, known, op).0 matches Ok(m) ==> m.name != "new"@,
{
}

proof fn lemma_object_members_named(
    defs: Map<Seq<char>, Type>,
    known: Seq<Type>,
    cs: Seq<CallableModel>,
    mths: Seq<CallableModel>,
    ms: Seq<MemberSyntax>,
)
    requires
        members_distinct(cs, mths),
    ensures
        object_members_built(defs, known, cs, mths, ms).0 matches Ok((a, b)) ==> members_distinct(
            a,
            b,
        ),
    decreases ms.len(),
{
    if ms.len() > 0 {
        match ms[0] {
            MemberSyntax::Constructor { attributes, args, .. } => {
                let (r, k) = constructor_built(defs, known, attributes, args@);
                if let Ok(c) = r {
                    if !named(cs, c.name) && !named(mths, c.name) {
                        lemma_push_distinct(cs, c);
                        let v = cs.push(c);
                        assert forall|i: int, j: int|
                            0 <= i < v.len() && 0 <= j < mths.len() implies #[trigger] v[i].name
                            != #[trigger] mths[j].name by {
                            if i == cs.len() {
                                assert(v[i] == c);
                            } else {
                                assert(v[i] == cs[i]);
                            }
                        }
                        lemma_object_members_named(defs, k, v, mths, ms.drop_first());
                    }
                }
            },
            MemberSyntax::Operation(op) => {
                lemma_method_not_new(defs, known, op);
                let (r, k) = method_built(defs, known, op);
                if let Ok(m) = r {
                    if !named(cs, m.name) && !named(mths, m.name) {
                        lemma_push_distinct(mths, m);
                        let v = mths.push(m);
                        assert forall|i: int, j: int|
                            0 <= i < cs.len() && 0 <= j < v.len() implies #[trigger] cs[i].name
                            != #[trigger] v[j].name by {
                            if j == mths.len() {
                                assert(v[j] == m);
                            } else {
                                assert(v[j] == mths[j]);
                            }
                        }
                        assert(!named(v, "new"@)) by {
                            if named(v, "new"@) {
                                let j = choose|j: int| 0 <= j < v.len() && #[trigger] v[j].name
                                    == "new"@;
                                if j < mths.len() {
                                    assert(v[j] == mths[j]);
                                }
                            }
                        }
                        lemma_object_members_named(defs, k, cs, v, ms.drop_first());
                    }
                }
            },
            _ => {},
        }
    }
}

proof fn lemma_functions_named(
    defs: Map<Seq<char>, Type>,
    known: Seq<Type>,
    existing: Seq<CallableModel>,
    ms: Seq<MemberSyntax>,
)
    requires
        names_distinct(existing),
    ensures
        functions_built(defs, known, existing, ms).0 matches Ok(v) ==> names_distinct(v),
    decreases ms.len(),
{
    if ms.len() > 0 {
        if let MemberSyntax::Operation(op) = ms[0] {
            let (r, k) = function_built(defs, known, op);
            if let Ok(f) = r {
                if !named(existing, f.name) {
                    lemma_push_distinct(existing, f);
                    lemma_functions_named(defs, k, existing.push(f), ms.drop_first());
                }
            }
        }
    }
}

proof fn lemma_processed_named(
    defs: Map<Seq<char>, Type>,
    known: Seq<Type>,
    c: ComponentModel,
    d: DefinitionSyntax,
)
    requires
        model_well_named(c),
    ensures
        processed(defs, known, c, d).0 matches Ok(c2) ==> model_well_named(c2),
{
    let (r, k) = processed(defs, known, c, d);
    if let Ok(c2) = r {
        match d {
            DefinitionSyntax::Namespace { members, .. } => {
                lemma_functions_named(defs, known, c.functions, members@);
            },
            DefinitionSyntax::Interface { name, members, .. } => {
                assert(members_distinct(Seq::empty(), Seq::empty()));
                lemma_object_members_named(defs, known, Seq::empty(), Seq::empty(), members@);
                let (r3, k3) = object_members_built(
                    defs,
                    known,
                    Seq::empty(),
                    Seq::empty(),
                    members@,
                );
                if c2.objects.len() == c.objects.len() {
                    assert(c2.objects == c.objects);
                } else if let Ok((cs, ms)) = r3 {
                    let dc = default_constructor();
                    let cs2 = if named(cs, "new"@) {
                        cs
                    } else {
                        cs.push(dc)
                    };
                    if !named(cs, "new"@) {
                        lemma_push_distinct(cs, dc);
                        assert forall|i: int, j: int|
                            0 <= i < cs2.len() && 0 <= j < ms.len() implies #[trigger] cs2[i].name
                            != #[trigger] ms[j].name by {
                            if i == cs.len() {
                                assert(cs2[i] == dc);
                                assert(!(ms[j].name == "new"@));
                            } else {
                                assert(cs2[i] == cs[i]);
                            }
                        }
                        assert(cs2[cs.len() as int].name == "new"@);
                    }
                    assert(object_well_named(
                        ObjectModel { name: name@, constructors: cs2, methods: ms },
                    ));
                    assert(c2.objects == c.objects.push(
                        ObjectModel { name: name@, constructors: cs2, methods: ms },
                    ));
                    assert forall|i: int| 0 <= i < c2.objects.len() implies object_well_named(
                        #[trigger] c2.objects[i],
                    ) by {
                        if i < c.objects.len() {
                            assert(c2.objects[i] == c.objects[i]);
                        }
                    }
                }
            },
            _ => {},
        }
    }
}

proof fn lemma_processed_all_named(
    defs: Map<Seq<char>, Type>,
    known: Seq<Type>,
    c: ComponentModel,
    ds: Seq<DefinitionSyntax>,
)
    requires
        model_well_named(c),
    ensures
        processed_all(defs, known, c, ds).0 matches Ok(c2) ==> model_well_named(c2),
    decreases ds.len(),
{
    if ds.len() > 0 {
        lemma_processed_named(defs, known, c, ds[0]);
        let (r, k) = processed(defs, known, c, ds[0]);
        if let Ok(c2) = r {
            lemma_processed_all_named(defs, k, c2, ds.drop_first());
        }
    }
}

/// A component built from UDL has functions of distinct names, and each of
/// its objects has a primary constructor named `new`, constructors and
/// methods of distinct names, and no method named `new`.
pub proof fn lemma_built_component_is_well_named(ds: Seq<DefinitionSyntax>)
    ensures
        component_built(ds) matches Ok((m, k)) ==> model_well_named(m),
{
    let s0: UniverseState = (Map::empty(), seq![Type::String]);
    let (r, s) = found_all(s0, ds);
    if r is Ok {
        lemma_processed_all_named(s.0, s.1, empty_component(), ds);
    }
}

} // verus!
