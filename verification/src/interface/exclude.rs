//! Excluding items of a component, by the names that its configuration
//! lists: functions, records, enums, objects and callback interfaces by their
//! names; constructors and methods as `Type.name`.

use vstd::prelude::*;

use super::component::{
    CallbackInterfaceDef, ComponentView, ConstructorDef, EnumDef, FunctionDef, MethodDef,
    ObjectDef, RecordDef, has_name,
};
use super::types::{defined_name, Type};
use crate::text::{owned, push_str, str_eq};

verus! {

/// An item that is excluded by its name.
pub trait Named: Sized {
    spec fn name_view(&self) -> Seq<char>;

    fn name_str(&self) -> (res: &str)
        ensures
            res@ == self.name_view(),
    ;
}

impl Named for FunctionDef {
    open spec fn name_view(&self) -> Seq<char> {
        self.name@
    }

    fn name_str(&self) -> (res: &str) {
        self.name.as_str()
    }
}

impl Named for RecordDef {
    open spec fn name_view(&self) -> Seq<char> {
        self.name@
    }

    fn name_str(&self) -> (res: &str) {
        self.name.as_str()
    }
}

impl Named for EnumDef {
    open spec fn name_view(&self) -> Seq<char> {
        self.name@
    }

    fn name_str(&self) -> (res: &str) {
        self.name.as_str()
    }
}

impl Named for ObjectDef {
    open spec fn name_view(&self) -> Seq<char> {
        self.name@
    }

    fn name_str(&self) -> (res: &str) {
        self.name.as_str()
    }
}

impl Named for CallbackInterfaceDef {
    open spec fn name_view(&self) -> Seq<char> {
        self.name@
    }

    fn name_str(&self) -> (res: &str) {
        self.name.as_str()
    }
}

impl Named for ConstructorDef {
    open spec fn name_view(&self) -> Seq<char> {
        self.name@
    }

    fn name_str(&self) -> (res: &str) {
        self.name.as_str()
    }
}

impl Named for MethodDef {
    open spec fn name_view(&self) -> Seq<char> {
        self.name@
    }

    fn name_str(&self) -> (res: &str) {
        self.name.as_str()
    }
}

/// The name an item is excluded by: its own, or `Type.name` for a member of a type.
pub open spec fn qualified(owner: Option<Seq<char>>, name: Seq<char>) -> Seq<char> {
    match owner {
        Some(o) => o + "."@ + name,
        None => name,
    }
}

/// Whether the configuration excludes the name.
pub open spec fn excluded(exclusions: Seq<String>, name: Seq<char>) -> bool {
    has_name(exclusions, name)
}

/// The items that survive the exclusions, in order.
pub open spec fn kept<T: Named>(exclusions: Seq<String>, owner: Option<Seq<char>>, items: Seq<T>) -> Seq<T> {
    items.filter(|x: T| !excluded(exclusions, qualified(owner, x.name_view())))
}

fn is_excluded(exclusions: &Vec<String>, name: &str) -> (res: bool)
    ensures
        res == excluded(exclusions@, name@),
{
    let mut k: usize = 0;
    while k < exclusions.len()
        invariant
            k <= exclusions@.len(),
            forall|j: int| 0 <= j < k ==> #[trigger] exclusions@[j]@ != name@,
        decreases exclusions.len() - k,
    {
        if str_eq(exclusions[k].as_str(), name) {
            return true;
        }
        k = k + 1;
    }
    false
}

fn qualified_name(owner: Option<&str>, name: &str) -> (res: String)
    ensures
        res@ == qualified(
            match owner {
                Some(o) => Some(o@),
                None => None,
            },
            name@,
        ),
{
    match owner {
        Some(o) => {
            let mut s = owned(o);
            push_str(&mut s, ".");
            push_str(&mut s, name);
            s
        },
        None => owned(name),
    }
}

proof fn lemma_filter_step<T>(s: Seq<T>, i: int, p: spec_fn(T) -> bool)
    requires
        0 <= i < s.len(),
    ensures
        s.take(i + 1).filter(p) == if p(s[i]) {
            s.take(i).filter(p).push(s[i])
        } else {
            s.take(i).filter(p)
        },
{
    reveal(Seq::filter);
    assert(s.take(i + 1).drop_last() =~= s.take(i));
    assert(s.take(i + 1).last() == s[i]);
}

/// The items that survive the exclusions, in order.
fn retain_named<T: Named>(items: Vec<T>, exclusions: &Vec<String>, owner: Option<&str>) -> (res: Vec<T>)
    ensures
        res@ == kept(
            exclusions@,
            match owner {
                Some(o) => Some(o@),
                None => None,
            },
            items@,
        ),
{
    let ghost o = match owner {
        Some(o) => Some(o@),
        None => None,
    };
    let ghost p = |x: T| !excluded(exclusions@, qualified(o, x.name_view()));
    let ghost orig = items@;
    let mut items = items;
    let len = items.len();
    assert(orig.len() == len);
    let mut res: Vec<T> = Vec::new();
    let mut k: usize = 0;
    while items.len() > 0
        invariant
            orig.len() <= usize::MAX,
            k + items@.len() == orig.len(),
            items@ == orig.subrange(k as int, orig.len() as int),
            res@ == orig.take(k as int).filter(p),
            p == (|x: T| !excluded(exclusions@, qualified(o, x.name_view()))),
            o == match owner {
                Some(o) => Some(o@),
                None => None::<Seq<char>>,
            },
        decreases items.len(),
    {
        let item = items.remove(0);
        assert(item == orig[k as int]);
        proof {
            lemma_filter_step(orig, k as int, p);
        }
        let name = qualified_name(owner, item.name_str());
        if !is_excluded(exclusions, name.as_str()) {
            res.push(item);
        }
        k = k + 1;
        assert(items@ =~= orig.subrange(k as int, orig.len() as int));
    }
    assert(orig.take(k as int) =~= orig);
    res
}

/// Whether an exclusion removes the type from the known types: it is named
/// after an item of the component that is excluded.
pub open spec fn type_removed(ci: ComponentView, exclusions: Seq<String>, t: Type) -> bool {
    match defined_name(t) {
        Some(n) => excluded(exclusions, n) && (ci.record_index(n) is Some || ci.enum_index(n) is Some
            || ci.object_index(n) is Some || ci.callback_interface_index(n) is Some),
        None => false,
    }
}

/// The object with its excluded constructors and methods removed.
pub open spec fn object_kept(exclusions: Seq<String>, o: ObjectDef, r: ObjectDef) -> bool {
    &&& r.name == o.name
    &&& r.module == o.module
    &&& r.remote == o.remote
    &&& r.constructors@ == kept(exclusions, Some(o.name@), o.constructors@)
    &&& r.methods@ == kept(exclusions, Some(o.name@), o.methods@)
    &&& r.trait_impls == o.trait_impls
    &&& r.ffi_func_clone == o.ffi_func_clone
    &&& r.ffi_func_free == o.ffi_func_free
    &&& r.docstring == o.docstring
}

/// The callback interface with its excluded methods removed.
pub open spec fn callback_interface_kept(
    exclusions: Seq<String>,
    c: CallbackInterfaceDef,
    r: CallbackInterfaceDef,
) -> bool {
    &&& r.name == c.name
    &&& r.module == c.module
    &&& r.methods@ == kept(exclusions, Some(c.name@), c.methods@)
    &&& r.docstring == c.docstring
}

fn retain_types(ci: &ComponentView, exclusions: &Vec<String>) -> (res: Vec<Type>)
    ensures
        res@ == ci.types@.filter(|t: Type| !type_removed(*ci, exclusions@, t)),
{
    let ghost p = |t: Type| !type_removed(*ci, exclusions@, t);
    let mut res: Vec<Type> = Vec::new();
    let mut k: usize = 0;
    while k < ci.types.len()
        invariant
            k <= ci.types@.len(),
            res@ == ci.types@.take(k as int).filter(p),
            p == (|t: Type| !type_removed(*ci, exclusions@, t)),
        decreases ci.types.len() - k,
    {
        proof {
            lemma_filter_step(ci.types@, k as int, p);
        }
        let t = &ci.types[k];
        let removed = match t.name() {
            None => false,
            Some(n) => is_excluded(exclusions, n) && (ci.get_record_definition(n).is_some()
                || ci.get_enum_definition(n).is_some() || ci.get_object_definition(n).is_some()
                || ci.get_callback_interface_definition(n).is_some()),
        };
        if !removed {
            res.push(t.clone());
        }
        k = k + 1;
    }
    assert(ci.types@.take(k as int) =~= ci.types@);
    res
}

fn exclude_in_objects(objects: Vec<ObjectDef>, exclusions: &Vec<String>) -> (res: Vec<ObjectDef>)
    ensures
        res@.len() == objects@.len(),
        forall|i: int| 0 <= i < objects@.len() ==> object_kept(exclusions@, objects@[i], #[trigger] res@[i]),
{
    let ghost orig = objects@;
    let mut objects = objects;
    let mut res: Vec<ObjectDef> = Vec::new();
    while objects.len() > 0
        invariant
            res@.len() + objects@.len() == orig.len(),
            objects@ == orig.subrange(res@.len() as int, orig.len() as int),
            forall|i: int| 0 <= i < res@.len() ==> object_kept(exclusions@, orig[i], #[trigger] res@[i]),
        decreases objects.len(),
    {
        let ghost k = res@.len();
        let o = objects.remove(0);
        assert(o == orig[k as int]);
        let ObjectDef {
            name,
            module,
            remote,
            constructors,
            methods,
            trait_impls,
            ffi_func_clone,
            ffi_func_free,
            docstring,
        } = o;
        let constructors = retain_named(constructors, exclusions, Some(name.as_str()));
        let methods = retain_named(methods, exclusions, Some(name.as_str()));
        res.push(
            ObjectDef {
                name,
                module,
                remote,
                constructors,
                methods,
                trait_impls,
                ffi_func_clone,
                ffi_func_free,
                docstring,
            },
        );
        assert(objects@ =~= orig.subrange(res@.len() as int, orig.len() as int));
    }
    res
}

fn exclude_in_callback_interfaces(
    cbs: Vec<CallbackInterfaceDef>,
    exclusions: &Vec<String>,
) -> (res: Vec<CallbackInterfaceDef>)
    ensures
        res@.len() == cbs@.len(),
        forall|i: int|
            0 <= i < cbs@.len() ==> callback_interface_kept(exclusions@, cbs@[i], #[trigger] res@[i]),
{
    let ghost orig = cbs@;
    let mut cbs = cbs;
    let mut res: Vec<CallbackInterfaceDef> = Vec::new();
    while cbs.len() > 0
        invariant
            res@.len() + cbs@.len() == orig.len(),
            cbs@ == orig.subrange(res@.len() as int, orig.len() as int),
            forall|i: int|
                0 <= i < res@.len() ==> callback_interface_kept(exclusions@, orig[i], #[trigger] res@[i]),
        decreases cbs.len(),
    {
        let ghost k = res@.len();
        let c = cbs.remove(0);
        assert(c == orig[k as int]);
        let CallbackInterfaceDef { name, module, methods, docstring } = c;
        let methods = retain_named(methods, exclusions, Some(name.as_str()));
        res.push(CallbackInterfaceDef { name, module, methods, docstring });
        assert(cbs@ =~= orig.subrange(res@.len() as int, orig.len() as int));
    }
    res
}

/// Removes the items that the configuration excludes: functions, records,
/// enums, objects and callback interfaces of the excluded names, with the
/// known types named after them; constructors and methods excluded as
/// `Type.name`. Everything else is kept, in order.
pub fn apply_exclusions(ci: ComponentView, exclusions: &Vec<String>) -> (res: ComponentView)
    ensures
        res.functions@ == kept(exclusions@, None, ci.functions@),
        res.records@ == kept(exclusions@, None, ci.records@),
        res.enums@ == kept(exclusions@, None, ci.enums@),
        res.objects@.len() == kept(exclusions@, None, ci.objects@).len(),
        forall|i: int|
            0 <= i < res.objects@.len() ==> object_kept(
                exclusions@,
                kept(exclusions@, None, ci.objects@)[i],
                #[trigger] res.objects@[i],
            ),
        res.callback_interfaces@.len() == kept(exclusions@, None, ci.callback_interfaces@).len(),
        forall|i: int|
            0 <= i < res.callback_interfaces@.len() ==> callback_interface_kept(
                exclusions@,
                kept(exclusions@, None, ci.callback_interfaces@)[i],
                #[trigger] res.callback_interfaces@[i],
            ),
        res.types@ == ci.types@.filter(|t: Type| !type_removed(ci, exclusions@, t)),
        res.namespace == ci.namespace,
        res.namespace_docstring == ci.namespace_docstring,
        res.ffi_definitions == ci.ffi_definitions,
        res.checksums == ci.checksums,
        res.errors == ci.errors,
        res.ffi_rustbuffer_alloc == ci.ffi_rustbuffer_alloc,
        res.ffi_rustbuffer_reserve == ci.ffi_rustbuffer_reserve,
        res.ffi_rustbuffer_free == ci.ffi_rustbuffer_free,
        res.ffi_uniffi_contract_version == ci.ffi_uniffi_contract_version,
        res.uniffi_contract_version == ci.uniffi_contract_version,
{
    let types = retain_types(&ci, exclusions);
    let ComponentView {
        namespace,
        namespace_docstring,
        records,
        enums,
        objects,
        callback_interfaces,
        functions,
        ffi_definitions,
        types: _,
        checksums,
        errors,
        ffi_rustbuffer_alloc,
        ffi_rustbuffer_reserve,
        ffi_rustbuffer_free,
        ffi_uniffi_contract_version,
        uniffi_contract_version,
    } = ci;
    let functions = retain_named(functions, exclusions, None);
    let records = retain_named(records, exclusions, None);
    let enums = retain_named(enums, exclusions, None);
    let objects = exclude_in_objects(retain_named(objects, exclusions, None), exclusions);
    let callback_interfaces = exclude_in_callback_interfaces(
        retain_named(callback_interfaces, exclusions, None),
        exclusions,
    );
    ComponentView {
        namespace,
        namespace_docstring,
        records,
        enums,
        objects,
        callback_interfaces,
        functions,
        ffi_definitions,
        types,
        checksums,
        errors,
        ffi_rustbuffer_alloc,
        ffi_rustbuffer_reserve,
        ffi_rustbuffer_free,
        ffi_uniffi_contract_version,
        uniffi_contract_version,
    }
}

/// Excluding keeps exactly the items whose (qualified) names the
/// configuration does not exclude: each kept item is one of the items and is
/// not excluded, and each item not excluded is kept.
pub proof fn lemma_kept_exactly<T: Named>(
    exclusions: Seq<String>,
    owner: Option<Seq<char>>,
    items: Seq<T>,
)
    ensures
        forall|i: int|
            0 <= i < kept(exclusions, owner, items).len() ==> !excluded(
                exclusions,
                qualified(owner, #[trigger] kept(exclusions, owner, items)[i].name_view()),
            ) && items.contains(kept(exclusions, owner, items)[i]),
        forall|k: int|
            0 <= k < items.len() && !excluded(exclusions, qualified(owner, items[k].name_view()))
                ==> #[trigger] kept(exclusions, owner, items).contains(items[k]),
{
    let p = |x: T| !excluded(exclusions, qualified(owner, x.name_view()));
    assert forall|i: int| 0 <= i < kept(exclusions, owner, items).len() implies !excluded(
        exclusions,
        qualified(owner, #[trigger] kept(exclusions, owner, items)[i].name_view()),
    ) && items.contains(kept(exclusions, owner, items)[i]) by {
        items.lemma_filter_pred(p, i);
        items.lemma_filter_contains_rev(p, items.filter(p)[i]);
    }
    assert forall|k: int|
        0 <= k < items.len() && !excluded(exclusions, qualified(owner, items[k].name_view()))
            implies #[trigger] kept(exclusions, owner, items).contains(items[k]) by {
        items.lemma_filter_contains(p, k);
    }
}

} // verus!
