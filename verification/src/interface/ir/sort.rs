//! Sort BindingsIr nodes in dependency order.
//!
//! Dependencies should come before the nodes that depend on them.
//! This avoids attribute errors for languages like Python.
//!
//! Note: this code can't handle circular dependencies correctly (but at least it won't infinitely
//! recurse).

use vstd::prelude::*;

use super::nodes::{
    Argument, FfiArgument, FfiDefinition, FfiField, FfiType, Field, Method, Type, TypeDefinition,
    Variant,
};
use super::nodes::types::ir_name;
use crate::text::{owned, push_str, str_eq};

verus! {

/// The dependency named by one FFI type, if any: a struct or a function
/// pointer, possibly behind references.
pub open spec fn type_dependency(t: FfiType) -> Option<Seq<char>>
    decreases t,
{
    match t {
        FfiType::Struct(name) => Some(name@),
        FfiType::FunctionPointer(name) => Some(name@),
        FfiType::Reference(inner) => type_dependency(*inner),
        FfiType::MutReference(inner) => type_dependency(*inner),
        _ => None,
    }
}

pub open spec fn opt_seq<A>(o: Option<A>) -> Seq<A> {
    match o {
        Some(a) => seq![a],
        None => Seq::empty(),
    }
}

/// The dependencies named by a sequence of FFI types, in order.
pub open spec fn types_dependencies(ts: Seq<FfiType>) -> Seq<Seq<char>>
    decreases ts.len(),
{
    if ts.len() == 0 {
        Seq::empty()
    } else {
        types_dependencies(ts.drop_last()) + opt_seq(type_dependency(ts.last()))
    }
}

pub open spec fn argument_types(args: Seq<FfiArgument>) -> Seq<FfiType> {
    args.map_values(|a: FfiArgument| a.ty)
}

pub open spec fn field_types(fields: Seq<FfiField>) -> Seq<FfiType> {
    fields.map_values(|f: FfiField| f.ty)
}

/// The names that an FFI definition depends on: for a struct, those of its
/// fields; for a function or function type, those of its arguments and
/// then of its return type.
pub open spec fn dependencies(d: FfiDefinition) -> Seq<Seq<char>> {
    match d {
        FfiDefinition::Struct(s) => types_dependencies(field_types(s.fields@)),
        FfiDefinition::Function(f) => types_dependencies(
            argument_types(f.arguments@) + opt_seq(f.return_type),
        ),
        FfiDefinition::FunctionType(f) => types_dependencies(
            argument_types(f.arguments@) + opt_seq(f.return_type),
        ),
    }
}

pub open spec fn opt_view(o: Option<String>) -> Option<Seq<char>> {
    match o {
        Some(s) => Some(s@),
        None => None,
    }
}

pub open spec fn names_view(v: Seq<String>) -> Seq<Seq<char>> {
    v.map_values(|s: String| s@)
}

/// Something sorted by its dependencies: it has a name, and names the items
/// it depends on.
pub trait DependencyItem: Sized {
    spec fn item_name(&self) -> Seq<char>;

    spec fn item_dependencies(&self) -> Seq<Seq<char>>;

    fn name_of(&self) -> (res: String)
        ensures
            res@ == self.item_name(),
    ;

    fn dependency_names_of(&self) -> (res: Vec<String>)
        ensures
            names_view(res@) == self.item_dependencies(),
    ;
}

pub open spec fn def_names<T: DependencyItem>(v: Seq<T>) -> Seq<Seq<char>> {
    v.map_values(|d: T| d.item_name())
}

/// Items keyed by name, where a later item replaces an earlier one of the
/// same name.
pub open spec fn last_by_name<T: DependencyItem>(items: Seq<T>) -> Map<Seq<char>, T>
    decreases items.len(),
{
    if items.len() == 0 {
        Map::empty()
    } else {
        last_by_name(items.drop_last()).insert(items.last().item_name(), items.last())
    }
}

/// `b` is a dependency of `a`, both being defined.
pub open spec fn edge<T: DependencyItem>(m: Map<Seq<char>, T>, a: Seq<char>, b: Seq<char>) -> bool {
    &&& m.contains_key(a)
    &&& m.contains_key(b)
    &&& m[a].item_dependencies().contains(b)
}

/// Consecutive names of `p` are joined by dependency edges.
pub open spec fn is_path<T: DependencyItem>(m: Map<Seq<char>, T>, p: Seq<Seq<char>>) -> bool {
    forall|i: int, j: int|
        #![trigger p[i], p[j]]
        0 <= i && j == i + 1 && j < p.len() ==> edge(m, p[i], p[j])
}

pub open spec fn is_cycle<T: DependencyItem>(m: Map<Seq<char>, T>, p: Seq<Seq<char>>) -> bool {
    &&& p.len() >= 2
    &&& p[0] == p[p.len() - 1]
    &&& is_path(m, p)
}

/// No definition depends, directly or through others, on itself.
pub open spec fn acyclic<T: DependencyItem>(m: Map<Seq<char>, T>) -> bool {
    forall|p: Seq<Seq<char>>| !#[trigger] is_cycle(m, p)
}

/// When the dependencies are acyclic, every defined dependency of an item
/// comes before it.
pub open spec fn deps_come_first<T: DependencyItem>(m: Map<Seq<char>, T>, s: Seq<T>) -> bool {
    acyclic(m) ==> forall|i: int, d: Seq<char>|
        #![trigger s[i].item_dependencies().contains(d)]
        0 <= i < s.len() && s[i].item_dependencies().contains(d) && m.contains_key(d) ==> exists|j: int|
            0 <= j < i && #[trigger] s[j].item_name() == d
}

/// `s` holds exactly the items of `m`, each once.
pub open spec fn holds_exactly<T: DependencyItem>(m: Map<Seq<char>, T>, s: Seq<T>) -> bool {
    &&& def_names(s).no_duplicates()
    &&& forall|i: int|
        0 <= i < s.len() ==> m.contains_key(#[trigger] s[i].item_name()) && m[s[i].item_name()]
            == s[i]
    &&& forall|n: Seq<char>| m.contains_key(n) ==> #[trigger] def_names(s).contains(n)
}

/// The dependency named by an FFI type, if any.
pub fn type_dependency_name(ffi_type: &FfiType) -> (res: Option<String>)
    ensures
        opt_view(res) == type_dependency(*ffi_type),
    decreases ffi_type,
{
    match ffi_type {
        FfiType::Struct(name) | FfiType::FunctionPointer(name) => Some(name.clone()),
        FfiType::Reference(inner) | FfiType::MutReference(inner) => type_dependency_name(inner),
        _ => None,
    }
}

proof fn lemma_types_dependencies_push(ts: Seq<FfiType>, t: FfiType)
    ensures
        types_dependencies(ts.push(t)) == types_dependencies(ts) + opt_seq(type_dependency(t)),
{
    assert(ts.push(t).drop_last() =~= ts);
}

fn push_dependency(res: &mut Vec<String>, t: &FfiType)
    ensures
        names_view(final(res)@) == names_view(old(res)@) + opt_seq(type_dependency(*t)),
{
    match type_dependency_name(t) {
        Some(name) => {
            res.push(name);
            assert(names_view(res@) =~= names_view(old(res)@) + opt_seq(type_dependency(*t)));
        },
        None => {
            assert(names_view(res@) =~= names_view(old(res)@) + opt_seq(type_dependency(*t)));
        },
    }
}

fn arguments_dependencies(args: &Vec<FfiArgument>, return_type: &Option<FfiType>) -> (res: Vec<
    String,
>)
    ensures
        names_view(res@) == types_dependencies(argument_types(args@) + opt_seq(*return_type)),
{
    let mut res: Vec<String> = Vec::new();
    let mut i: usize = 0;
    while i < args.len()
        invariant
            i <= args.len(),
            names_view(res@) == types_dependencies(argument_types(args@).take(i as int)),
        decreases args.len() - i,
    {
        proof {
            let ts = argument_types(args@);
            assert(ts.take(i + 1) =~= ts.take(i as int).push(args@[i as int].ty));
            lemma_types_dependencies_push(ts.take(i as int), args@[i as int].ty);
        }
        push_dependency(&mut res, &args[i].ty);
        i = i + 1;
    }
    let ghost ts = argument_types(args@);
    assert(ts.take(args.len() as int) =~= ts);
    match return_type {
        Some(t) => {
            proof {
                lemma_types_dependencies_push(ts, *t);
                assert(ts + opt_seq(*return_type) =~= ts.push(*t));
            }
            push_dependency(&mut res, t);
        },
        None => {
            assert(ts + opt_seq(*return_type) =~= ts);
        },
    }
    res
}

fn fields_dependencies(fields: &Vec<FfiField>) -> (res: Vec<String>)
    ensures
        names_view(res@) == types_dependencies(field_types(fields@)),
{
    let mut res: Vec<String> = Vec::new();
    let mut i: usize = 0;
    while i < fields.len()
        invariant
            i <= fields.len(),
            names_view(res@) == types_dependencies(field_types(fields@).take(i as int)),
        decreases fields.len() - i,
    {
        proof {
            let ts = field_types(fields@);
            assert(ts.take(i + 1) =~= ts.take(i as int).push(fields@[i as int].ty));
            lemma_types_dependencies_push(ts.take(i as int), fields@[i as int].ty);
        }
        push_dependency(&mut res, &fields[i].ty);
        i = i + 1;
    }
    assert(field_types(fields@).take(fields.len() as int) =~= field_types(fields@));
    res
}

/// The names of the definitions that `ffi_def` depends on.
pub fn dependency_names(ffi_def: &FfiDefinition) -> (res: Vec<String>)
    ensures
        names_view(res@) == dependencies(*ffi_def),
{
    match ffi_def {
        FfiDefinition::Struct(ffi_struct) => fields_dependencies(&ffi_struct.fields),
        FfiDefinition::Function(func) => arguments_dependencies(&func.arguments, &func.return_type),
        FfiDefinition::FunctionType(func_type) => arguments_dependencies(
            &func_type.arguments,
            &func_type.return_type,
        ),
    }
}

impl DependencyItem for FfiDefinition {
    open spec fn item_name(&self) -> Seq<char> {
        self.name_view()
    }

    open spec fn item_dependencies(&self) -> Seq<Seq<char>> {
        dependencies(*self)
    }

    fn name_of(&self) -> (res: String) {
        owned(self.name())
    }

    fn dependency_names_of(&self) -> (res: Vec<String>) {
        dependency_names(self)
    }
}

/// The position of the definition named `name`, if there is one.
fn find_by_name<T: DependencyItem>(v: &Vec<T>, name: &str) -> (res: Option<usize>)
    ensures
        match res {
            Some(i) => i < v.len() && v@[i as int].item_name() == name@,
            None => !def_names(v@).contains(name@),
        },
{
    let mut i: usize = 0;
    while i < v.len()
        invariant
            i <= v.len(),
            forall|j: int| 0 <= j < i ==> v@[j].item_name() != name@,
        decreases v.len() - i,
    {
        let n = v[i].name_of();
        if str_eq(n.as_str(), name) {
            return Some(i);
        }
        i = i + 1;
    }
    proof {
        if def_names(v@).contains(name@) {
            let j = choose|j: int| 0 <= j < def_names(v@).len() && def_names(v@)[j] == name@;
            assert(v@[j].item_name() == name@);
        }
    }
    None
}


proof fn lemma_def_names_remove<T: DependencyItem>(s: Seq<T>, i: int)
    requires
        0 <= i < s.len(),
        def_names(s).no_duplicates(),
    ensures
        def_names(s.remove(i)) =~= def_names(s).remove(i),
        def_names(s.remove(i)).no_duplicates(),
        forall|n: Seq<char>|
            #[trigger] def_names(s.remove(i)).contains(n) <==> def_names(s).contains(n) && n
                != s[i].item_name(),
{
    let r = def_names(s.remove(i));
    let d = def_names(s);
    assert(r =~= d.remove(i));
    assert forall|a: int, b: int| 0 <= a < b < r.len() implies r[a] != r[b] by {
        let a2 = if a < i { a } else { a + 1 };
        let b2 = if b < i { b } else { b + 1 };
        assert(r[a] == d[a2] && r[b] == d[b2]);
    }
    assert forall|n: Seq<char>| #[trigger] r.contains(n) <==> d.contains(n) && n != s[i].item_name() by {
        if r.contains(n) {
            let a = choose|a: int| 0 <= a < r.len() && r[a] == n;
            let a2 = if a < i { a } else { a + 1 };
            assert(d[a2] == n);
            assert(d[i] == s[i].item_name());
        }
        if d.contains(n) && n != s[i].item_name() {
            let a = choose|a: int| 0 <= a < d.len() && d[a] == n;
            assert(a != i);
            let a2 = if a < i { a } else { a - 1 };
            assert(r[a2] == n);
        }
    }
}

proof fn lemma_def_names_push<T: DependencyItem>(s: Seq<T>, x: T)
    ensures
        def_names(s.push(x)) =~= def_names(s).push(x.item_name()),
        forall|n: Seq<char>|
            #[trigger] def_names(s.push(x)).contains(n) <==> def_names(s).contains(n) || n
                == x.item_name(),
{
    let r = def_names(s.push(x));
    let d = def_names(s);
    assert(r =~= d.push(x.item_name()));
    assert forall|n: Seq<char>| #[trigger] r.contains(n) <==> d.contains(n) || n == x.item_name() by {
        if r.contains(n) {
            let a = choose|a: int| 0 <= a < r.len() && r[a] == n;
            if a < d.len() {
                assert(d[a] == n);
            }
        }
        if d.contains(n) {
            let a = choose|a: int| 0 <= a < d.len() && d[a] == n;
            assert(r[a] == n);
        }
        if n == x.item_name() {
            assert(r[d.len() as int] == n);
        }
    }
}

proof fn lemma_deps_prefix<T: DependencyItem>(m: Map<Seq<char>, T>, s: Seq<T>, t: Seq<T>)
    requires
        deps_come_first(m, s),
        s.len() <= t.len(),
        t.subrange(0, s.len() as int) == s,
    ensures
        forall|i: int, d: Seq<char>|
            #![trigger t[i].item_dependencies().contains(d)]
            acyclic(m) && 0 <= i < s.len() && t[i].item_dependencies().contains(d) && m.contains_key(d)
                ==> exists|j: int| 0 <= j < i && #[trigger] t[j].item_name() == d,
{
    assert forall|i: int, d: Seq<char>|
        #![trigger t[i].item_dependencies().contains(d)]
        acyclic(m) && 0 <= i < s.len() && t[i].item_dependencies().contains(d) && m.contains_key(
            d,
        ) implies exists|j: int| 0 <= j < i && #[trigger] t[j].item_name() == d by {
        assert(t[i] == s[i]);
        assert(s[i].item_dependencies().contains(d));
        let j = choose|j: int| 0 <= j < i && #[trigger] s[j].item_name() == d;
        assert(t[j] == s[j]);
    }
}

/// A name on the stack that the top of the stack depends on closes a cycle.
proof fn lemma_back_edge_is_cycle<T: DependencyItem>(
    m: Map<Seq<char>, T>,
    stack: Seq<Seq<char>>,
    k: int,
    d: Seq<char>,
)
    requires
        is_path(m, stack),
        0 <= k < stack.len(),
        stack[k] == d,
        edge(m, stack.last(), d),
    ensures
        !acyclic(m),
{
    let p = stack.subrange(k, stack.len() as int).push(d);
    assert(p[0] == d);
    assert(p[p.len() - 1] == d);
    assert forall|i: int, j: int|
        #![trigger p[i], p[j]]
        0 <= i && j == i + 1 && j < p.len() implies edge(m, p[i], p[j]) by {
        if j < p.len() - 1 {
            assert(p[i] == stack[k + i]);
            assert(p[j] == stack[k + j]);
            assert(edge(m, stack[k + i], stack[k + j]));
        } else {
            assert(p[i] == stack.last());
        }
    }
    assert(is_cycle(m, p));
}

/// Depth-first dependency sorter over FFI definitions.
struct DependencySorter<T: DependencyItem> {
    unsorted: Vec<T>,
    sorted: Vec<T>,
    by_name: Ghost<Map<Seq<char>, T>>,
}

/// Every defined name is waiting, sorted, or on the stack of names being
/// processed, in exactly one place; the stack follows dependency edges; and
/// the sorted items respect the dependency order.
spec fn consistent<T: DependencyItem>(
    m: Map<Seq<char>, T>,
    unsorted: Seq<T>,
    sorted: Seq<T>,
    stack: Seq<Seq<char>>,
) -> bool {
    &&& def_names(unsorted).no_duplicates()
    &&& def_names(sorted).no_duplicates()
    &&& forall|i: int|
        0 <= i < unsorted.len() ==> m.contains_key(#[trigger] unsorted[i].item_name())
            && m[unsorted[i].item_name()] == unsorted[i]
    &&& forall|i: int|
        0 <= i < sorted.len() ==> m.contains_key(#[trigger] sorted[i].item_name())
            && m[sorted[i].item_name()] == sorted[i]
    &&& forall|n: Seq<char>|
        #[trigger] def_names(unsorted).contains(n) ==> !def_names(sorted).contains(n)
            && !stack.contains(n)
    &&& forall|n: Seq<char>| #[trigger] def_names(sorted).contains(n) ==> !stack.contains(n)
    &&& forall|k: int| 0 <= k < stack.len() ==> m.contains_key(#[trigger] stack[k])
    &&& forall|n: Seq<char>|
        #[trigger] m.contains_key(n) ==> def_names(unsorted).contains(n) || def_names(
            sorted,
        ).contains(n) || stack.contains(n)
    &&& is_path(m, stack)
    &&& deps_come_first(m, sorted)
}

proof fn lemma_contains_name<T: DependencyItem>(v: Seq<T>, i: int)
    requires
        0 <= i < v.len(),
    ensures
        def_names(v).contains(v[i].item_name()),
{
    assert(def_names(v)[i] == v[i].item_name());
}

impl<T: DependencyItem> DependencySorter<T> {
    spec fn wf(&self, stack: Seq<Seq<char>>) -> bool {
        consistent(self.by_name@, self.unsorted@, self.sorted@, stack)
    }

    fn new(items: Vec<T>) -> (res: Self)
        ensures
            res.by_name@ == last_by_name(items@),
            res.sorted@.len() == 0,
            res.wf(Seq::empty()),
    {
        let ghost orig = items@;
        let mut items = items;
        assert(orig.len() == items.len());
        let mut unsorted: Vec<T> = Vec::new();
        let mut k: usize = 0;
        while items.len() > 0
            invariant
                orig.len() <= usize::MAX,
                k + items@.len() == orig.len(),
                items@ =~= orig.subrange(k as int, orig.len() as int),
                def_names(unsorted@).no_duplicates(),
                forall|i: int|
                    0 <= i < unsorted@.len() ==> last_by_name(orig.take(k as int)).contains_key(
                        #[trigger] unsorted@[i].item_name(),
                    ) && last_by_name(orig.take(k as int))[unsorted@[i].item_name()]
                        == unsorted@[i],
                forall|n: Seq<char>|
                    #[trigger] last_by_name(orig.take(k as int)).contains_key(n) ==> def_names(
                        unsorted@,
                    ).contains(n),
            decreases items.len(),
        {
            let ghost before = unsorted@;
            let ghost mk = last_by_name(orig.take(k as int));
            let item = items.remove(0);
            proof {
                assert(orig.take(k + 1).drop_last() =~= orig.take(k as int));
                assert(orig.take(k + 1).last() == item);
            }
            let ghost mk1 = last_by_name(orig.take(k + 1));
            assert(mk1 == mk.insert(item.item_name(), item));
            let item_name = item.name_of();
            match find_by_name(&unsorted, item_name.as_str()) {
                Some(idx) => {
                    unsorted.set(idx, item);
                    proof {
                        assert(def_names(unsorted@) =~= def_names(before));
                        assert forall|i: int| 0 <= i < unsorted@.len() implies mk1.contains_key(
                            #[trigger] unsorted@[i].item_name(),
                        ) && mk1[unsorted@[i].item_name()] == unsorted@[i] by {
                            if i != idx {
                                assert(def_names(before)[i] != def_names(before)[idx as int]);
                            }
                        }
                    }
                },
                None => {
                    unsorted.push(item);
                    proof {
                        lemma_def_names_push(before, item);
                        assert forall|a: int, b: int|
                            0 <= a < b < def_names(unsorted@).len() implies def_names(
                            unsorted@,
                        )[a] != def_names(unsorted@)[b] by {
                            if b == before.len() {
                                lemma_contains_name(before, a);
                            }
                        }
                        assert forall|i: int| 0 <= i < unsorted@.len() implies mk1.contains_key(
                            #[trigger] unsorted@[i].item_name(),
                        ) && mk1[unsorted@[i].item_name()] == unsorted@[i] by {
                            if i < before.len() {
                                lemma_contains_name(before, i);
                            }
                        }
                    }
                },
            }
            k = k + 1;
        }
        assert(orig.take(k as int) =~= orig);
        DependencySorter { unsorted, sorted: Vec::new(), by_name: Ghost(last_by_name(orig)) }
    }

    fn recurse(&mut self, current_name: String, Ghost(stack): Ghost<Seq<Seq<char>>>)
        requires
            old(self).wf(stack),
            stack.len() > 0 ==> old(self).by_name@[stack.last()].item_dependencies().contains(
                current_name@,
            ),
        ensures
            final(self).wf(stack),
            final(self).by_name == old(self).by_name,
            old(self).sorted@.len() <= final(self).sorted@.len(),
            final(self).sorted@.subrange(0, old(self).sorted@.len() as int) == old(self).sorted@,
            final(self).unsorted@.len() <= old(self).unsorted@.len(),
            forall|n: Seq<char>| #[trigger]
                def_names(final(self).unsorted@).contains(n) ==> def_names(
                    old(self).unsorted@,
                ).contains(n),
            !def_names(final(self).unsorted@).contains(current_name@),
            def_names(old(self).unsorted@).contains(current_name@) ==> final(self).unsorted@.len()
                < old(self).unsorted@.len(),
        decreases old(self).unsorted@.len(),
    {
        let ghost m = self.by_name@;
        let ghost entry_unsorted = self.unsorted@;
        let ghost entry_sorted = self.sorted@;
        let idx = match find_by_name(&self.unsorted, current_name.as_str()) {
            Some(i) => i,
            None => {
                assert(self.sorted@.subrange(0, self.sorted@.len() as int) =~= self.sorted@);
                return ;
            },
        };
        let current_item = self.unsorted.remove(idx);
        let ghost inner = stack.push(current_name@);
        proof {
            lemma_def_names_remove(entry_unsorted, idx as int);
            lemma_contains_name(entry_unsorted, idx as int);
            assert(m.contains_key(current_name@));
            assert(m[current_name@] == current_item);
            assert forall|i: int, j: int|
                #![trigger inner[i], inner[j]]
                0 <= i && j == i + 1 && j < inner.len() implies edge(m, inner[i], inner[j]) by {
                if j < stack.len() {
                    assert(inner[i] == stack[i] && inner[j] == stack[j]);
                } else {
                    assert(inner[i] == stack.last());
                }
            }
            assert forall|n: Seq<char>| #[trigger]
                def_names(self.unsorted@).contains(n) implies !def_names(self.sorted@).contains(n)
                && !inner.contains(n) by {
                if inner.contains(n) {
                    let k = choose|k: int| 0 <= k < inner.len() && inner[k] == n;
                    if k < stack.len() {
                        assert(stack[k] == n);
                    }
                }
            }
            assert forall|n: Seq<char>| #[trigger]
                def_names(self.sorted@).contains(n) implies !inner.contains(n) by {
                if inner.contains(n) {
                    let k = choose|k: int| 0 <= k < inner.len() && inner[k] == n;
                    if k < stack.len() {
                        assert(stack[k] == n);
                    }
                }
            }
            assert forall|k: int| 0 <= k < inner.len() implies m.contains_key(#[trigger] inner[k]) by {
                if k < stack.len() {
                    assert(inner[k] == stack[k]);
                }
            }
            assert forall|n: Seq<char>| #[trigger]
                m.contains_key(n) implies def_names(self.unsorted@).contains(n) || def_names(
                self.sorted@,
            ).contains(n) || inner.contains(n) by {
                if stack.contains(n) {
                    let k = choose|k: int| 0 <= k < stack.len() && stack[k] == n;
                    assert(inner[k] == n);
                }
                if n == current_name@ {
                    assert(inner[stack.len() as int] == n);
                }
            }
            assert(consistent(m, self.unsorted@, self.sorted@, inner));
        }
        let names = current_item.dependency_names_of();
        let mut i: usize = 0;
        while i < names.len()
            invariant
                self.by_name@ == m,
                consistent(m, self.unsorted@, self.sorted@, inner),
                inner == stack.push(current_name@),
                m.contains_key(current_name@),
                m[current_name@] == current_item,
                names_view(names@) == current_item.item_dependencies(),
                i <= names.len(),
                self.unsorted@.len() < entry_unsorted.len(),
                entry_unsorted == old(self).unsorted@,
                forall|n: Seq<char>| #[trigger]
                    def_names(self.unsorted@).contains(n) ==> def_names(entry_unsorted).contains(n),
                !def_names(self.unsorted@).contains(current_name@),
                entry_sorted.len() <= self.sorted@.len(),
                self.sorted@.subrange(0, entry_sorted.len() as int) == entry_sorted,
                forall|j: int|
                    0 <= j < i ==> !def_names(self.unsorted@).contains(
                        #[trigger] names_view(names@)[j],
                    ),
            decreases names.len() - i,
        {
            let ghost before_unsorted = self.unsorted@;
            let ghost before_sorted = self.sorted@;
            proof {
                assert(names_view(names@)[i as int] == names@[i as int]@);
                assert((m[inner.last()]).item_dependencies().contains(names@[i as int]@));
            }
            let name = names[i].clone();
            self.recurse(name, Ghost(inner));
            proof {
                assert(self.sorted@.subrange(0, entry_sorted.len() as int) =~= before_sorted.subrange(
                    0,
                    entry_sorted.len() as int,
                ));
                assert forall|j: int| 0 <= j < i + 1 implies !def_names(self.unsorted@).contains(
                    #[trigger] names_view(names@)[j],
                ) by {
                    if j < i {
                        assert(!def_names(before_unsorted).contains(names_view(names@)[j]));
                    }
                }
            }
            i = i + 1;
        }
        let ghost pre_push = self.sorted@;
        proof {
            assert forall|d: Seq<char>|
                acyclic(m) && current_item.item_dependencies().contains(d) && m.contains_key(
                    d,
                ) implies #[trigger] def_names(pre_push).contains(d) by {
                let j = choose|j: int|
                    0 <= j < names_view(names@).len() && names_view(names@)[j] == d;
                assert(!def_names(self.unsorted@).contains(names_view(names@)[j]));
                if inner.contains(d) {
                    let k = choose|k: int| 0 <= k < inner.len() && inner[k] == d;
                    lemma_back_edge_is_cycle(m, inner, k, d);
                }
            }
        }
        self.sorted.push(current_item);
        proof {
            let s = self.sorted@;
            lemma_def_names_push(pre_push, current_item);
            assert(s.subrange(0, pre_push.len() as int) =~= pre_push);
            lemma_deps_prefix(m, pre_push, s);
            assert forall|a: int, b: int|
                0 <= a < b < def_names(s).len() implies def_names(s)[a] != def_names(s)[b] by {
                if b == pre_push.len() {
                    lemma_contains_name(pre_push, a);
                }
            }
            assert forall|i: int, d: Seq<char>|
                #![trigger s[i].item_dependencies().contains(d)]
                acyclic(m) && 0 <= i < s.len() && s[i].item_dependencies().contains(d) && m.contains_key(
                    d,
                ) implies exists|j: int| 0 <= j < i && #[trigger] s[j].item_name() == d by {
                if i == pre_push.len() {
                    assert(def_names(pre_push).contains(d));
                    let j = choose|j: int|
                        0 <= j < def_names(pre_push).len() && def_names(pre_push)[j] == d;
                    assert(s[j] == pre_push[j]);
                }
            }
            assert forall|i: int| 0 <= i < s.len() implies m.contains_key(
                #[trigger] s[i].item_name(),
            ) && m[s[i].item_name()] == s[i] by {
                if i < pre_push.len() {
                    assert(s[i] == pre_push[i]);
                }
            }
            assert forall|n: Seq<char>| #[trigger]
                def_names(self.unsorted@).contains(n) implies !def_names(s).contains(n)
                && !stack.contains(n) by {
                if stack.contains(n) {
                    let k = choose|k: int| 0 <= k < stack.len() && stack[k] == n;
                    assert(inner[k] == n);
                }
            }
            assert forall|n: Seq<char>| #[trigger] def_names(s).contains(n) implies !stack.contains(
                n,
            ) by {
                if stack.contains(n) {
                    let k = choose|k: int| 0 <= k < stack.len() && stack[k] == n;
                    assert(inner[k] == n);
                    if n == current_name@ {
                        assert(inner[k] == inner[stack.len() as int]);
                    }
                }
            }
            assert forall|k: int| 0 <= k < stack.len() implies m.contains_key(#[trigger] stack[k]) by {
                assert(inner[k] == stack[k]);
            }
            assert forall|n: Seq<char>| #[trigger]
                m.contains_key(n) implies def_names(self.unsorted@).contains(n) || def_names(
                s,
            ).contains(n) || stack.contains(n) by {
                if inner.contains(n) && !stack.contains(n) {
                    let k = choose|k: int| 0 <= k < inner.len() && inner[k] == n;
                    if k < stack.len() {
                        assert(stack[k] == n);
                    }
                }
            }
            assert forall|a: int, b: int|
                #![trigger stack[a], stack[b]]
                0 <= a && b == a + 1 && b < stack.len() implies edge(m, stack[a], stack[b]) by {
                assert(inner[a] == stack[a] && inner[b] == stack[b]);
            }
            assert(s.subrange(0, entry_sorted.len() as int) =~= pre_push.subrange(
                0,
                entry_sorted.len() as int,
            ));
        }
    }

    fn sort(self) -> (res: Vec<T>)
        requires
            self.wf(Seq::empty()),
        ensures
            holds_exactly(self.by_name@, res@),
            deps_come_first(self.by_name@, res@),
    {
        let mut me = self;
        let ghost m = me.by_name@;
        while me.unsorted.len() > 0
            invariant
                me.by_name@ == m,
                me.wf(Seq::empty()),
            decreases me.unsorted.len(),
        {
            let name = me.unsorted[0].name_of();
            proof {
                lemma_contains_name(me.unsorted@, 0);
            }
            me.recurse(name, Ghost(Seq::empty()));
        }
        proof {
            assert forall|n: Seq<char>| m.contains_key(n) implies #[trigger] def_names(
                me.sorted@,
            ).contains(n) by {
                assert(!def_names(me.unsorted@).contains(n));
                assert(!Seq::<Seq<char>>::empty().contains(n));
            }
        }
        me.sorted
    }
}

/// Sorts FFI definitions so that, when their dependencies are acyclic, every
/// definition comes after the definitions it depends on. Definitions are
/// keyed by name: of several with one name, the last one is kept.
///
/// The result holds one definition for each distinct name; where no two
/// definitions share a name, it is a reordering of them.
pub fn sort_ffi_definitions(items: Vec<FfiDefinition>) -> (res: Vec<FfiDefinition>)
    ensures
        holds_exactly(last_by_name(items@), res@),
        deps_come_first(last_by_name(items@), res@),
        res@.len() == def_names(items@).to_set().len(),
        def_names(items@).no_duplicates() ==> is_reordering(items@, res@),
{
    let ghost input = items@;
    let res = DependencySorter::new(items).sort();
    proof {
        lemma_one_per_distinct_name(input, res@);
        if def_names(input).no_duplicates() {
            lemma_reorders_distinct(input, res@);
        }
    }
    res
}

/// `s` holds the items of `items`, and as many: a reordering of them where
/// no two share a name.
pub open spec fn is_reordering<T>(items: Seq<T>, s: Seq<T>) -> bool {
    &&& s.len() == items.len()
    &&& forall|i: int| 0 <= i < s.len() ==> items.contains(#[trigger] s[i])
    &&& forall|k: int| 0 <= k < items.len() ==> s.contains(#[trigger] items[k])
}

/// What holds exactly the items keyed by name has one item for each distinct
/// name of the items.
pub proof fn lemma_one_per_distinct_name<T: DependencyItem>(items: Seq<T>, s: Seq<T>)
    requires
        holds_exactly(last_by_name(items), s),
    ensures
        s.len() == def_names(items).to_set().len(),
{
    let m = last_by_name(items);
    assert forall|n: Seq<char>| #[trigger] def_names(s).contains(n) == def_names(items).contains(n) by {
        if def_names(s).contains(n) {
            let i = choose|i: int| 0 <= i < def_names(s).len() && def_names(s)[i] == n;
            assert(s[i].item_name() == n);
            let k = lemma_last_by_name_key(items, n);
            assert(def_names(items)[k] == n);
        }
        if def_names(items).contains(n) {
            let k = choose|k: int| 0 <= k < def_names(items).len() && def_names(items)[k] == n;
            lemma_last_by_name_contains(items, k);
        }
    }
    assert(def_names(s).to_set() =~= def_names(items).to_set());
    def_names(s).unique_seq_to_set();
}

/// Where no two items share a name, each name is keyed to its item.
proof fn lemma_last_by_name_distinct<T: DependencyItem>(items: Seq<T>, k: int)
    requires
        def_names(items).no_duplicates(),
        0 <= k < items.len(),
    ensures
        last_by_name(items).contains_key(items[k].item_name()),
        last_by_name(items)[items[k].item_name()] == items[k],
    decreases items.len(),
{
    if k < items.len() - 1 {
        assert(def_names(items.drop_last()) =~= def_names(items).drop_last());
        assert(def_names(items)[k] != def_names(items)[items.len() - 1]);
        lemma_last_by_name_distinct(items.drop_last(), k);
    }
}

/// Where no two items share a name, what holds exactly the items keyed by
/// name is a reordering of them.
pub proof fn lemma_reorders_distinct<T: DependencyItem>(items: Seq<T>, s: Seq<T>)
    requires
        def_names(items).no_duplicates(),
        holds_exactly(last_by_name(items), s),
    ensures
        is_reordering(items, s),
{
    let m = last_by_name(items);
    lemma_one_per_distinct_name(items, s);
    def_names(items).unique_seq_to_set();
    assert forall|i: int| 0 <= i < s.len() implies items.contains(#[trigger] s[i]) by {
        let k = lemma_last_by_name_key(items, s[i].item_name());
        lemma_last_by_name_distinct(items, k);
    }
    assert forall|k: int| 0 <= k < items.len() implies s.contains(#[trigger] items[k]) by {
        lemma_last_by_name_distinct(items, k);
        let n = items[k].item_name();
        assert(def_names(s).contains(n));
        let j = choose|j: int| 0 <= j < def_names(s).len() && def_names(s)[j] == n;
        assert(s[j].item_name() == n);
    }
}


/// The names of the types of fields.
pub open spec fn field_type_names(fs: Seq<Field>) -> Seq<Seq<char>> {
    fs.map_values(|f: Field| ir_name(f.ty.kind))
}

/// The names of the types of arguments.
pub open spec fn argument_type_names(args: Seq<Argument>) -> Seq<Seq<char>> {
    args.map_values(|a: Argument| ir_name(a.ty.kind))
}

pub open spec fn opt_type_name(t: Option<Type>) -> Seq<Seq<char>> {
    match t {
        Some(t) => seq![ir_name(t.kind)],
        None => Seq::empty(),
    }
}

/// The names of the types a method mentions: its arguments', then its return
/// type's, then its error type's.
pub open spec fn method_dependencies(m: Method) -> Seq<Seq<char>> {
    argument_type_names(m.arguments@) + opt_type_name(m.return_type) + opt_type_name(m.throws_type)
}

pub open spec fn methods_dependencies(ms: Seq<Method>) -> Seq<Seq<char>>
    decreases ms.len(),
{
    if ms.len() == 0 {
        Seq::empty()
    } else {
        methods_dependencies(ms.drop_last()) + method_dependencies(ms.last())
    }
}

pub open spec fn variants_dependencies(vs: Seq<Variant>) -> Seq<Seq<char>>
    decreases vs.len(),
{
    if vs.len() == 0 {
        Seq::empty()
    } else {
        variants_dependencies(vs.drop_last()) + field_type_names(vs.last().fields@)
    }
}

/// The names of the traits an interface implements, as the IR names the
/// interfaces that define them.
pub open spec fn trait_names(ts: Seq<String>) -> Seq<Seq<char>> {
    ts.map_values(|t: String| "Type"@ + t@)
}

/// The names of the types that a type definition depends on, in order: the
/// inner types of optionals and sequences, the key and value types of maps,
/// the field types of records and of enum variants, and the types that the
/// methods of interfaces and callback interfaces mention, after the traits
/// that an interface implements.
pub open spec fn type_dependencies(d: TypeDefinition) -> Seq<Seq<char>> {
    match d {
        TypeDefinition::Simple(_) => Seq::empty(),
        TypeDefinition::Optional(o) => seq![ir_name(o.inner.kind)],
        TypeDefinition::Sequence(s) => seq![ir_name(s.inner.kind)],
        TypeDefinition::MapOf(m) => seq![ir_name(m.key.kind), ir_name(m.value.kind)],
        TypeDefinition::Record(r) => field_type_names(r.fields@),
        TypeDefinition::Enum(e) => variants_dependencies(e.variants@),
        TypeDefinition::Interface(i) => trait_names(i.trait_impls@) + methods_dependencies(
            i.methods@,
        ),
        TypeDefinition::CallbackInterface(c) => methods_dependencies(c.methods@),
    }
}

/// The name of the type that an optional or a sequence wraps.
pub open spec fn wrapped_name(d: TypeDefinition) -> Option<Seq<char>> {
    match d {
        TypeDefinition::Optional(o) => Some(ir_name(o.inner.kind)),
        TypeDefinition::Sequence(q) => Some(ir_name(q.inner.kind)),
        _ => None,
    }
}

/// An optional or a sequence depends on exactly the type it wraps.
pub proof fn lemma_wrapper_depends_on_inner(d: TypeDefinition)
    requires
        wrapped_name(d) is Some,
    ensures
        type_dependencies(d) == seq![wrapped_name(d)->Some_0],
{
}

fn push_type_name(res: &mut Vec<String>, t: &Type)
    ensures
        names_view(final(res)@) == names_view(old(res)@).push(ir_name(t.kind)),
{
    res.push(t.canonical_name());
    assert(names_view(res@) =~= names_view(old(res)@).push(ir_name(t.kind)));
}

fn push_opt_type_name(res: &mut Vec<String>, t: &Option<Type>)
    ensures
        names_view(final(res)@) == names_view(old(res)@) + opt_type_name(*t),
{
    match t {
        Some(t) => push_type_name(res, t),
        None => {},
    }
    assert(names_view(res@) =~= names_view(old(res)@) + opt_type_name(*t));
}

fn push_field_type_names(res: &mut Vec<String>, fields: &Vec<Field>)
    ensures
        names_view(final(res)@) == names_view(old(res)@) + field_type_names(fields@),
{
    let ghost start = names_view(res@);
    let mut i: usize = 0;
    while i < fields.len()
        invariant
            i <= fields@.len(),
            names_view(res@) == start + field_type_names(fields@.take(i as int)),
        decreases fields.len() - i,
    {
        assert(field_type_names(fields@.take(i + 1)) =~= field_type_names(fields@.take(i as int)).push(
            ir_name(fields@[i as int].ty.kind),
        ));
        push_type_name(res, &fields[i].ty);
        i = i + 1;
    }
    assert(fields@.take(i as int) =~= fields@);
}

fn push_method_dependencies(res: &mut Vec<String>, m: &Method)
    ensures
        names_view(final(res)@) == names_view(old(res)@) + method_dependencies(*m),
{
    let ghost start = names_view(res@);
    let ghost args = m.arguments@;
    let mut i: usize = 0;
    while i < m.arguments.len()
        invariant
            i <= args.len(),
            args == m.arguments@,
            names_view(res@) == start + argument_type_names(args.take(i as int)),
        decreases args.len() - i,
    {
        assert(argument_type_names(args.take(i + 1)) =~= argument_type_names(args.take(i as int)).push(
            ir_name(args[i as int].ty.kind),
        ));
        push_type_name(res, &m.arguments[i].ty);
        i = i + 1;
    }
    assert(args.take(i as int) =~= args);
    push_opt_type_name(res, &m.return_type);
    push_opt_type_name(res, &m.throws_type);
    assert(names_view(res@) =~= start + method_dependencies(*m));
}

fn push_methods_dependencies(res: &mut Vec<String>, ms: &Vec<Method>)
    ensures
        names_view(final(res)@) == names_view(old(res)@) + methods_dependencies(ms@),
{
    let ghost start = names_view(res@);
    let mut i: usize = 0;
    while i < ms.len()
        invariant
            i <= ms@.len(),
            names_view(res@) == start + methods_dependencies(ms@.take(i as int)),
        decreases ms.len() - i,
    {
        assert(ms@.take(i + 1).drop_last() =~= ms@.take(i as int));
        let ghost before = names_view(res@);
        push_method_dependencies(res, &ms[i]);
        assert(names_view(res@) =~= start + methods_dependencies(ms@.take(i + 1)));
        i = i + 1;
    }
    assert(ms@.take(i as int) =~= ms@);
}

fn push_variants_dependencies(res: &mut Vec<String>, vs: &Vec<Variant>)
    ensures
        names_view(final(res)@) == names_view(old(res)@) + variants_dependencies(vs@),
{
    let ghost start = names_view(res@);
    let mut i: usize = 0;
    while i < vs.len()
        invariant
            i <= vs@.len(),
            names_view(res@) == start + variants_dependencies(vs@.take(i as int)),
        decreases vs.len() - i,
    {
        assert(vs@.take(i + 1).drop_last() =~= vs@.take(i as int));
        push_field_type_names(res, &vs[i].fields);
        assert(names_view(res@) =~= start + variants_dependencies(vs@.take(i + 1)));
        i = i + 1;
    }
    assert(vs@.take(i as int) =~= vs@);
}

fn push_trait_names(res: &mut Vec<String>, ts: &Vec<String>)
    ensures
        names_view(final(res)@) == names_view(old(res)@) + trait_names(ts@),
{
    let ghost start = names_view(res@);
    let mut i: usize = 0;
    while i < ts.len()
        invariant
            i <= ts@.len(),
            names_view(res@) == start + trait_names(ts@.take(i as int)),
        decreases ts.len() - i,
    {
        assert(trait_names(ts@.take(i + 1)) =~= trait_names(ts@.take(i as int)).push(
            "Type"@ + ts@[i as int]@,
        ));
        let ghost before = res@;
        let mut name = owned("Type");
        push_str(&mut name, ts[i].as_str());
        res.push(name);
        assert(names_view(res@) =~= names_view(before).push(name@));
        assert(names_view(res@) =~= start + trait_names(ts@.take(i + 1)));
        i = i + 1;
    }
    assert(ts@.take(i as int) =~= ts@);
}

/// The names of the types that a type definition depends on.
pub fn type_dependency_names(type_def: &TypeDefinition) -> (res: Vec<String>)
    ensures
        names_view(res@) == type_dependencies(*type_def),
{
    let mut res: Vec<String> = Vec::new();
    assert(names_view(res@) =~= Seq::<Seq<char>>::empty());
    match type_def {
        TypeDefinition::Simple(_) => {},
        TypeDefinition::Optional(o) => push_type_name(&mut res, &o.inner),
        TypeDefinition::Sequence(s) => push_type_name(&mut res, &s.inner),
        TypeDefinition::MapOf(m) => {
            push_type_name(&mut res, &m.key);
            push_type_name(&mut res, &m.value);
        },
        TypeDefinition::Record(r) => push_field_type_names(&mut res, &r.fields),
        TypeDefinition::Enum(e) => push_variants_dependencies(&mut res, &e.variants),
        TypeDefinition::Interface(i) => {
            push_trait_names(&mut res, &i.trait_impls);
            push_methods_dependencies(&mut res, &i.methods);
        },
        TypeDefinition::CallbackInterface(c) => push_methods_dependencies(&mut res, &c.methods),
    }
    assert(names_view(res@) =~= type_dependencies(*type_def));
    res
}

impl DependencyItem for TypeDefinition {
    open spec fn item_name(&self) -> Seq<char> {
        self.name_view()
    }

    open spec fn item_dependencies(&self) -> Seq<Seq<char>> {
        type_dependencies(*self)
    }

    fn name_of(&self) -> (res: String) {
        self.canonical_name()
    }

    fn dependency_names_of(&self) -> (res: Vec<String>) {
        type_dependency_names(self)
    }
}

/// Sorts type definitions so that, when their dependencies are acyclic, every
/// definition comes after the definitions of the types it depends on.
/// Definitions are keyed by the IR names of their types: of several
/// with one name, the last one is kept.
pub fn sort_types(items: Vec<TypeDefinition>) -> (res: Vec<TypeDefinition>)
    ensures
        holds_exactly(last_by_name(items@), res@),
        deps_come_first(last_by_name(items@), res@),
        res@.len() == def_names(items@).to_set().len(),
        def_names(items@).no_duplicates() ==> is_reordering(items@, res@),
        acyclic(last_by_name(items@)) ==> forall|i: int|
            0 <= i < res@.len() && #[trigger] wrapped_name(res@[i]) is Some && last_by_name(
                items@,
            ).contains_key(wrapped_name(res@[i])->Some_0) ==> exists|j: int|
                0 <= j < i && res@[j].name_view() == wrapped_name(res@[i])->Some_0,
{
    let ghost input = items@;
    let res = DependencySorter::new(items).sort();
    proof {
        lemma_one_per_distinct_name(input, res@);
        if def_names(input).no_duplicates() {
            lemma_reorders_distinct(input, res@);
        }
        if acyclic(last_by_name(input)) {
            assert forall|i: int|
                0 <= i < res@.len() && #[trigger] wrapped_name(res@[i]) is Some && last_by_name(
                    input,
                ).contains_key(wrapped_name(res@[i])->Some_0) implies exists|j: int|
                0 <= j < i && res@[j].name_view() == wrapped_name(res@[i])->Some_0 by {
                let n = wrapped_name(res@[i])->Some_0;
                lemma_wrapper_depends_on_inner(res@[i]);
                assert(res@[i].item_dependencies()[0] == n);
                assert(res@[i].item_dependencies().contains(n));
                let j = choose|j: int| 0 <= j < i && #[trigger] res@[j].item_name() == n;
                assert(res@[j].name_view() == n);
            }
        }
    }
    res
}


/// Every item's name is a key of the items keyed by name.
pub proof fn lemma_last_by_name_contains<T: DependencyItem>(items: Seq<T>, k: int)
    requires
        0 <= k < items.len(),
    ensures
        last_by_name(items).contains_key(items[k].item_name()),
    decreases items.len(),
{
    if k < items.len() - 1 {
        lemma_last_by_name_contains(items.drop_last(), k);
    }
}

/// Every key of the items keyed by name is the name of one of the items.
pub proof fn lemma_last_by_name_key<T: DependencyItem>(items: Seq<T>, n: Seq<char>) -> (k: int)
    requires
        last_by_name(items).contains_key(n),
    ensures
        0 <= k < items.len(),
        items[k].item_name() == n,
    decreases items.len(),
{
    if items.last().item_name() == n {
        items.len() - 1
    } else {
        let k = lemma_last_by_name_key(items.drop_last(), n);
        k
    }
}

} // verus!
