//! Renaming the items of a component via TOML configuration: the local names
//! of the items that bindings generate, leaving the FFI names untouched.
//!
//! The renames are TOML tables by crate name. In a crate's table, a key is the
//! name of an item (`OldRecord`), or a dotted path to a part of one
//! (`OldRecord.field`, `OldEnum.Variant`, `OldEnum.Variant.field`,
//! `Object.method`, `Object.method.arg`, `function.arg`), and its string value
//! is the new name. Parts are found by the names their owners had before the
//! renaming. Records, enums, objects and callback interfaces, with the fields
//! and variants of records and enums, are renamed by the table of the crate
//! their module is in; functions, constructors, methods, their arguments,
//! error names and the named types that types refer to, by the table of the
//! component's own crate.

use vstd::prelude::*;

use super::component::{
    ArgumentDef, CallbackInterfaceDef, ComponentView, ConstructorDef, EnumDef, FieldDef, FunctionDef,
    MethodDef, ObjectDef, RecordDef, VariantDef,
};
use super::types::Type;
use super::universe::{module_root, normalize_module_path};
use crate::text::{owned, push_str, str_eq};
use crate::toml_table::{lookup, TomlTable, TomlValue};

verus! {

/// The renames of the crate: the first table of that crate name.
pub open spec fn crate_renames(renames: Seq<(String, TomlTable)>, krate: Seq<char>) -> Option<TomlTable>
    decreases renames.len(),
{
    if renames.len() == 0 {
        None
    } else if renames[0].0@ == krate {
        Some(renames[0].1)
    } else {
        crate_renames(renames.drop_first(), krate)
    }
}

/// The new name that the table gives the path, if it gives a string.
pub open spec fn renamed_in(table: Option<TomlTable>, path: Seq<char>, old: Seq<char>) -> Seq<char> {
    match table {
        Some(t) => match lookup(t, path) {
            Some(TomlValue::String(s)) => s@,
            _ => old,
        },
        None => old,
    }
}

/// The path of a part of an owner.
pub open spec fn dotted(owner: Seq<char>, part: Seq<char>) -> Seq<char> {
    owner + "."@ + part
}

/// `r` is the type `t` with each named type in it renamed by the table.
pub open spec fn type_renamed(table: Option<TomlTable>, t: Type, r: Type) -> bool
    decreases t,
{
    match t {
        Type::Object(n) => r matches Type::Object(m) && m@ == renamed_in(table, n@, n@),
        Type::Record(n) => r matches Type::Record(m) && m@ == renamed_in(table, n@, n@),
        Type::Enum(n) => r matches Type::Enum(m) && m@ == renamed_in(table, n@, n@),
        Type::Error(n) => r matches Type::Error(m) && m@ == renamed_in(table, n@, n@),
        Type::CallbackInterface(n) => r matches Type::CallbackInterface(m) && m@ == renamed_in(
            table,
            n@,
            n@,
        ),
        Type::Optional(i) => r matches Type::Optional(j) && type_renamed(table, *i, *j),
        Type::Sequence(i) => r matches Type::Sequence(j) && type_renamed(table, *i, *j),
        Type::MapOf(i) => r matches Type::MapOf(j) && type_renamed(table, *i, *j),
        _ => r == t,
    }
}

/// The names of the named types that a type refers to, at any depth.
pub open spec fn named_in(t: Type) -> Seq<Seq<char>>
    decreases t,
{
    match t {
        Type::Object(n) => seq![n@],
        Type::Record(n) => seq![n@],
        Type::Enum(n) => seq![n@],
        Type::Error(n) => seq![n@],
        Type::CallbackInterface(n) => seq![n@],
        Type::Optional(i) => named_in(*i),
        Type::Sequence(i) => named_in(*i),
        Type::MapOf(i) => named_in(*i),
        _ => Seq::empty(),
    }
}

/// Two types have the same shape: the same kinds at every depth, whatever
/// their names.
pub open spec fn same_shape(a: Type, b: Type) -> bool
    decreases a,
{
    match (a, b) {
        (Type::Object(_), Type::Object(_)) => true,
        (Type::Record(_), Type::Record(_)) => true,
        (Type::Enum(_), Type::Enum(_)) => true,
        (Type::Error(_), Type::Error(_)) => true,
        (Type::CallbackInterface(_), Type::CallbackInterface(_)) => true,
        (Type::Optional(i), Type::Optional(j)) => same_shape(*i, *j),
        (Type::Sequence(i), Type::Sequence(j)) => same_shape(*i, *j),
        (Type::MapOf(i), Type::MapOf(j)) => same_shape(*i, *j),
        (x, y) => named_in(x).len() == 0 && x == y && !(x is Optional) && !(x is Sequence)
            && !(x is MapOf),
    }
}

/// Renaming a type keeps its shape and renames every named type inside it,
/// at any depth: the names it refers to are those of the type, each renamed
/// by the table.
pub proof fn lemma_renaming_reaches_every_depth(table: Option<TomlTable>, t: Type, r: Type)
    requires
        type_renamed(table, t, r),
    ensures
        same_shape(t, r),
        named_in(r) == named_in(t).map_values(|n: Seq<char>| renamed_in(table, n, n)),
    decreases t,
{
    match t {
        Type::Optional(i) => {
            if let Type::Optional(j) = r {
                lemma_renaming_reaches_every_depth(table, *i, *j);
            }
        },
        Type::Sequence(i) => {
            if let Type::Sequence(j) = r {
                lemma_renaming_reaches_every_depth(table, *i, *j);
            }
        },
        Type::MapOf(i) => {
            if let Type::MapOf(j) = r {
                lemma_renaming_reaches_every_depth(table, *i, *j);
            }
        },
        _ => {
            assert(named_in(r) =~= named_in(t).map_values(|n: Seq<char>| renamed_in(table, n, n)));
        },
    }
}

pub open spec fn opt_type_renamed(table: Option<TomlTable>, t: Option<Type>, r: Option<Type>) -> bool {
    match t {
        Some(x) => r matches Some(y) && type_renamed(table, x, y),
        None => r is None,
    }
}

/// A field renamed: its name by the path under its owner, in the table of
/// names; its type by the table of types.
pub open spec fn field_renamed(
    types: Option<TomlTable>,
    names: Option<TomlTable>,
    owner: Seq<char>,
    f: FieldDef,
    r: FieldDef,
) -> bool {
    &&& r.name@ == renamed_in(names, dotted(owner, f.name@), f.name@)
    &&& type_renamed(types, f.ty, r.ty)
    &&& r.docstring == f.docstring
}

pub open spec fn fields_renamed(
    types: Option<TomlTable>,
    names: Option<TomlTable>,
    owner: Seq<char>,
    fs: Seq<FieldDef>,
    rs: Seq<FieldDef>,
) -> bool {
    &&& rs.len() == fs.len()
    &&& forall|i: int|
        0 <= i < fs.len() ==> field_renamed(types, names, owner, fs[i], #[trigger] rs[i])
}

pub open spec fn arg_renamed(table: Option<TomlTable>, owner: Seq<char>, a: ArgumentDef, r: ArgumentDef) -> bool {
    &&& r.name@ == renamed_in(table, dotted(owner, a.name@), a.name@)
    &&& type_renamed(table, a.ty, r.ty)
}

pub open spec fn args_renamed(
    table: Option<TomlTable>,
    owner: Seq<char>,
    a: Seq<ArgumentDef>,
    r: Seq<ArgumentDef>,
) -> bool {
    &&& r.len() == a.len()
    &&& forall|i: int| 0 <= i < a.len() ==> arg_renamed(table, owner, a[i], #[trigger] r[i])
}

pub open spec fn function_renamed(table: Option<TomlTable>, f: FunctionDef, r: FunctionDef) -> bool {
    &&& r.name@ == renamed_in(table, f.name@, f.name@)
    &&& r.module == f.module
    &&& args_renamed(table, f.name@, f.arguments@, r.arguments@)
    &&& opt_type_renamed(table, f.return_type, r.return_type)
    &&& opt_type_renamed(table, f.throws_type, r.throws_type)
    &&& r.docstring == f.docstring
}

/// A method renamed by the path under its owner; its arguments by the path
/// under the method.
pub open spec fn method_renamed(table: Option<TomlTable>, owner: Seq<char>, m: MethodDef, r: MethodDef) -> bool {
    &&& r.name@ == renamed_in(table, dotted(owner, m.name@), m.name@)
    &&& args_renamed(table, dotted(owner, m.name@), m.arguments@, r.arguments@)
    &&& opt_type_renamed(table, m.return_type, r.return_type)
    &&& opt_type_renamed(table, m.throws_type, r.throws_type)
    &&& r.docstring == m.docstring
}

pub open spec fn methods_renamed(
    table: Option<TomlTable>,
    owner: Seq<char>,
    ms: Seq<MethodDef>,
    rs: Seq<MethodDef>,
) -> bool {
    &&& rs.len() == ms.len()
    &&& forall|i: int| 0 <= i < ms.len() ==> method_renamed(table, owner, ms[i], #[trigger] rs[i])
}

pub open spec fn constructor_renamed(
    table: Option<TomlTable>,
    owner: Seq<char>,
    c: ConstructorDef,
    r: ConstructorDef,
) -> bool {
    &&& r.name@ == renamed_in(table, dotted(owner, c.name@), c.name@)
    &&& args_renamed(table, dotted(owner, c.name@), c.arguments@, r.arguments@)
    &&& opt_type_renamed(table, c.throws_type, r.throws_type)
    &&& r.docstring == c.docstring
}

pub open spec fn constructors_renamed(
    table: Option<TomlTable>,
    owner: Seq<char>,
    cs: Seq<ConstructorDef>,
    rs: Seq<ConstructorDef>,
) -> bool {
    &&& rs.len() == cs.len()
    &&& forall|i: int|
        0 <= i < cs.len() ==> constructor_renamed(table, owner, cs[i], #[trigger] rs[i])
}

/// The renames of the crate that a module is in.
pub open spec fn module_renames(renames: Seq<(String, TomlTable)>, module: Seq<char>) -> Option<TomlTable> {
    crate_renames(renames, module_root(module))
}

pub open spec fn record_renamed(
    renames: Seq<(String, TomlTable)>,
    types: Option<TomlTable>,
    x: RecordDef,
    r: RecordDef,
) -> bool {
    let names = module_renames(renames, x.module@);
    &&& r.name@ == renamed_in(names, x.name@, x.name@)
    &&& r.module == x.module
    &&& r.remote == x.remote
    &&& fields_renamed(types, names, x.name@, x.fields@, r.fields@)
    &&& r.docstring == x.docstring
}

pub open spec fn variant_renamed(
    types: Option<TomlTable>,
    names: Option<TomlTable>,
    owner: Seq<char>,
    v: VariantDef,
    r: VariantDef,
) -> bool {
    &&& r.name@ == renamed_in(names, dotted(owner, v.name@), v.name@)
    &&& fields_renamed(types, names, dotted(owner, v.name@), v.fields@, r.fields@)
    &&& r.docstring == v.docstring
}

pub open spec fn enum_renamed(
    renames: Seq<(String, TomlTable)>,
    types: Option<TomlTable>,
    x: EnumDef,
    r: EnumDef,
) -> bool {
    let names = module_renames(renames, x.module@);
    &&& r.name@ == renamed_in(names, x.name@, x.name@)
    &&& r.module == x.module
    &&& r.remote == x.remote
    &&& r.variants@.len() == x.variants@.len()
    &&& forall|i: int|
        0 <= i < x.variants@.len() ==> variant_renamed(
            types,
            names,
            x.name@,
            x.variants@[i],
            #[trigger] r.variants@[i],
        )
    &&& r.non_exhaustive == x.non_exhaustive
    &&& r.docstring == x.docstring
}

pub open spec fn object_renamed(
    renames: Seq<(String, TomlTable)>,
    types: Option<TomlTable>,
    x: ObjectDef,
    r: ObjectDef,
) -> bool {
    &&& r.name@ == renamed_in(module_renames(renames, x.module@), x.name@, x.name@)
    &&& r.module == x.module
    &&& r.remote == x.remote
    &&& constructors_renamed(types, x.name@, x.constructors@, r.constructors@)
    &&& methods_renamed(types, x.name@, x.methods@, r.methods@)
    &&& r.trait_impls == x.trait_impls
    &&& r.ffi_func_clone == x.ffi_func_clone
    &&& r.ffi_func_free == x.ffi_func_free
    &&& r.docstring == x.docstring
}

pub open spec fn callback_renamed(
    renames: Seq<(String, TomlTable)>,
    types: Option<TomlTable>,
    x: CallbackInterfaceDef,
    r: CallbackInterfaceDef,
) -> bool {
    &&& r.name@ == renamed_in(module_renames(renames, x.module@), x.name@, x.name@)
    &&& r.module == x.module
    &&& methods_renamed(types, x.name@, x.methods@, r.methods@)
    &&& r.docstring == x.docstring
}

/// The component renamed: every item and part as the renames say, the rest
/// (its namespace, its FFI layer) unchanged.
pub open spec fn component_renamed(
    renames: Seq<(String, TomlTable)>,
    krate: Seq<char>,
    ci: ComponentView,
    r: ComponentView,
) -> bool {
    let types = crate_renames(renames, module_root(krate));
    &&& r.namespace == ci.namespace
    &&& r.namespace_docstring == ci.namespace_docstring
    &&& r.records@.len() == ci.records@.len()
    &&& forall|i: int|
        0 <= i < ci.records@.len() ==> record_renamed(renames, types, ci.records@[i], #[trigger] r.records@[i])
    &&& r.enums@.len() == ci.enums@.len()
    &&& forall|i: int|
        0 <= i < ci.enums@.len() ==> enum_renamed(renames, types, ci.enums@[i], #[trigger] r.enums@[i])
    &&& r.objects@.len() == ci.objects@.len()
    &&& forall|i: int|
        0 <= i < ci.objects@.len() ==> object_renamed(renames, types, ci.objects@[i], #[trigger] r.objects@[i])
    &&& r.callback_interfaces@.len() == ci.callback_interfaces@.len()
    &&& forall|i: int|
        0 <= i < ci.callback_interfaces@.len() ==> callback_renamed(
            renames,
            types,
            ci.callback_interfaces@[i],
            #[trigger] r.callback_interfaces@[i],
        )
    &&& r.functions@.len() == ci.functions@.len()
    &&& forall|i: int|
        0 <= i < ci.functions@.len() ==> function_renamed(types, ci.functions@[i], #[trigger] r.functions@[i])
    &&& r.types@.len() == ci.types@.len()
    &&& forall|i: int| 0 <= i < ci.types@.len() ==> type_renamed(types, ci.types@[i], #[trigger] r.types@[i])
    &&& r.errors@.len() == ci.errors@.len()
    &&& forall|i: int|
        0 <= i < ci.errors@.len() ==> #[trigger] r.errors@[i]@ == renamed_in(
            types,
            ci.errors@[i]@,
            ci.errors@[i]@,
        )
    &&& r.ffi_definitions == ci.ffi_definitions
    &&& r.checksums == ci.checksums
    &&& r.ffi_rustbuffer_alloc == ci.ffi_rustbuffer_alloc
    &&& r.ffi_rustbuffer_reserve == ci.ffi_rustbuffer_reserve
    &&& r.ffi_rustbuffer_free == ci.ffi_rustbuffer_free
    &&& r.ffi_uniffi_contract_version == ci.ffi_uniffi_contract_version
    &&& r.uniffi_contract_version == ci.uniffi_contract_version
}

pub open spec fn opt_table(t: Option<&TomlTable>) -> Option<TomlTable> {
    match t {
        Some(x) => Some(*x),
        None => None,
    }
}

fn table_for<'a>(renames: &'a Vec<(String, TomlTable)>, krate: &str) -> (res: Option<&'a TomlTable>)
    ensures
        opt_table(res) == crate_renames(renames@, krate@),
{
    let mut k: usize = 0;
    assert(renames@.skip(0) =~= renames@);
    while k < renames.len()
        invariant
            k <= renames@.len(),
            crate_renames(renames@, krate@) == crate_renames(renames@.skip(k as int), krate@),
        decreases renames.len() - k,
    {
        assert(renames@.skip(k as int)[0] == renames@[k as int]);
        assert(renames@.skip(k as int).drop_first() =~= renames@.skip(k + 1));
        if str_eq(renames[k].0.as_str(), krate) {
            return Some(&renames[k].1);
        }
        k = k + 1;
    }
    None
}

fn renamed_name(table: Option<&TomlTable>, path: &str, old: String) -> (res: String)
    ensures
        res@ == renamed_in(opt_table(table), path@, old@),
{
    if let Some(t) = table {
        if let Some(TomlValue::String(s)) = t.get(path) {
            return s.clone();
        }
    }
    old
}

fn dotted_path(owner: &str, part: &str) -> (res: String)
    ensures
        res@ == dotted(owner@, part@),
{
    let mut s = owned(owner);
    push_str(&mut s, ".");
    push_str(&mut s, part);
    s
}

fn rename_type(table: Option<&TomlTable>, t: &Type) -> (res: Type)
    ensures
        type_renamed(opt_table(table), *t, res),
    decreases t,
{
    match t {
        Type::Object(n) => Type::Object(renamed_name(table, n.as_str(), n.clone())),
        Type::Record(n) => Type::Record(renamed_name(table, n.as_str(), n.clone())),
        Type::Enum(n) => Type::Enum(renamed_name(table, n.as_str(), n.clone())),
        Type::Error(n) => Type::Error(renamed_name(table, n.as_str(), n.clone())),
        Type::CallbackInterface(n) => Type::CallbackInterface(
            renamed_name(table, n.as_str(), n.clone()),
        ),
        Type::Optional(i) => Type::Optional(Box::new(rename_type(table, &**i))),
        Type::Sequence(i) => Type::Sequence(Box::new(rename_type(table, &**i))),
        Type::MapOf(i) => Type::MapOf(Box::new(rename_type(table, &**i))),
        _ => t.clone(),
    }
}

fn rename_opt_type(table: Option<&TomlTable>, t: Option<Type>) -> (res: Option<Type>)
    ensures
        opt_type_renamed(opt_table(table), t, res),
{
    match t {
        Some(x) => Some(rename_type(table, &x)),
        None => None,
    }
}

fn rename_types(table: Option<&TomlTable>, ts: &Vec<Type>) -> (res: Vec<Type>)
    ensures
        res@.len() == ts@.len(),
        forall|i: int| 0 <= i < ts@.len() ==> type_renamed(opt_table(table), ts@[i], #[trigger] res@[i]),
{
    let mut res: Vec<Type> = Vec::new();
    let mut k: usize = 0;
    while k < ts.len()
        invariant
            k <= ts@.len(),
            res@.len() == k,
            forall|i: int| 0 <= i < k ==> type_renamed(opt_table(table), ts@[i], #[trigger] res@[i]),
        decreases ts.len() - k,
    {
        res.push(rename_type(table, &ts[k]));
        k = k + 1;
    }
    res
}

fn rename_fields(
    types: Option<&TomlTable>,
    names: Option<&TomlTable>,
    owner: &str,
    fs: Vec<FieldDef>,
) -> (res: Vec<FieldDef>)
    ensures
        fields_renamed(opt_table(types), opt_table(names), owner@, fs@, res@),
{
    let ghost orig = fs@;
    let mut fs = fs;
    let mut res: Vec<FieldDef> = Vec::new();
    while fs.len() > 0
        invariant
            res@.len() + fs@.len() == orig.len(),
            fs@ == orig.subrange(res@.len() as int, orig.len() as int),
            forall|i: int|
                0 <= i < res@.len() ==> field_renamed(
                    opt_table(types),
                    opt_table(names),
                    owner@,
                    orig[i],
                    #[trigger] res@[i],
                ),
        decreases fs.len(),
    {
        let ghost k = res@.len();
        let f = fs.remove(0);
        assert(f == orig[k as int]);
        let path = dotted_path(owner, f.name.as_str());
        let ty = rename_type(types, &f.ty);
        let FieldDef { name, docstring, .. } = f;
        let name = renamed_name(names, path.as_str(), name);
        res.push(FieldDef { name, ty, docstring });
        assert(fs@ =~= orig.subrange(res@.len() as int, orig.len() as int));
    }
    res
}

fn rename_args(table: Option<&TomlTable>, owner: &str, args: Vec<ArgumentDef>) -> (res: Vec<ArgumentDef>)
    ensures
        args_renamed(opt_table(table), owner@, args@, res@),
{
    let ghost orig = args@;
    let mut args = args;
    let mut res: Vec<ArgumentDef> = Vec::new();
    while args.len() > 0
        invariant
            res@.len() + args@.len() == orig.len(),
            args@ == orig.subrange(res@.len() as int, orig.len() as int),
            forall|i: int|
                0 <= i < res@.len() ==> arg_renamed(opt_table(table), owner@, orig[i], #[trigger] res@[i]),
        decreases args.len(),
    {
        let ghost k = res@.len();
        let a = args.remove(0);
        assert(a == orig[k as int]);
        let path = dotted_path(owner, a.name.as_str());
        let ty = rename_type(table, &a.ty);
        let name = renamed_name(table, path.as_str(), a.name);
        res.push(ArgumentDef { name, ty });
        assert(args@ =~= orig.subrange(res@.len() as int, orig.len() as int));
    }
    res
}

fn rename_methods(table: Option<&TomlTable>, owner: &str, ms: Vec<MethodDef>) -> (res: Vec<MethodDef>)
    ensures
        methods_renamed(opt_table(table), owner@, ms@, res@),
{
    let ghost orig = ms@;
    let mut ms = ms;
    let mut res: Vec<MethodDef> = Vec::new();
    while ms.len() > 0
        invariant
            res@.len() + ms@.len() == orig.len(),
            ms@ == orig.subrange(res@.len() as int, orig.len() as int),
            forall|i: int|
                0 <= i < res@.len() ==> method_renamed(opt_table(table), owner@, orig[i], #[trigger] res@[i]),
        decreases ms.len(),
    {
        let ghost k = res@.len();
        let m = ms.remove(0);
        assert(m == orig[k as int]);
        let path = dotted_path(owner, m.name.as_str());
        let MethodDef { name, arguments, return_type, throws_type, docstring } = m;
        let arguments = rename_args(table, path.as_str(), arguments);
        let return_type = rename_opt_type(table, return_type);
        let throws_type = rename_opt_type(table, throws_type);
        let name = renamed_name(table, path.as_str(), name);
        res.push(MethodDef { name, arguments, return_type, throws_type, docstring });
        assert(ms@ =~= orig.subrange(res@.len() as int, orig.len() as int));
    }
    res
}

fn rename_constructors(
    table: Option<&TomlTable>,
    owner: &str,
    cs: Vec<ConstructorDef>,
) -> (res: Vec<ConstructorDef>)
    ensures
        constructors_renamed(opt_table(table), owner@, cs@, res@),
{
    let ghost orig = cs@;
    let mut cs = cs;
    let mut res: Vec<ConstructorDef> = Vec::new();
    while cs.len() > 0
        invariant
            res@.len() + cs@.len() == orig.len(),
            cs@ == orig.subrange(res@.len() as int, orig.len() as int),
            forall|i: int|
                0 <= i < res@.len() ==> constructor_renamed(
                    opt_table(table),
                    owner@,
                    orig[i],
                    #[trigger] res@[i],
                ),
        decreases cs.len(),
    {
        let ghost k = res@.len();
        let c = cs.remove(0);
        assert(c == orig[k as int]);
        let path = dotted_path(owner, c.name.as_str());
        let ConstructorDef { name, arguments, throws_type, docstring } = c;
        let arguments = rename_args(table, path.as_str(), arguments);
        let throws_type = rename_opt_type(table, throws_type);
        let name = renamed_name(table, path.as_str(), name);
        res.push(ConstructorDef { name, arguments, throws_type, docstring });
        assert(cs@ =~= orig.subrange(res@.len() as int, orig.len() as int));
    }
    res
}

fn rename_functions(table: Option<&TomlTable>, fs: Vec<FunctionDef>) -> (res: Vec<FunctionDef>)
    ensures
        res@.len() == fs@.len(),
        forall|i: int| 0 <= i < fs@.len() ==> function_renamed(opt_table(table), fs@[i], #[trigger] res@[i]),
{
    let ghost orig = fs@;
    let mut fs = fs;
    let mut res: Vec<FunctionDef> = Vec::new();
    while fs.len() > 0
        invariant
            res@.len() + fs@.len() == orig.len(),
            fs@ == orig.subrange(res@.len() as int, orig.len() as int),
            forall|i: int|
                0 <= i < res@.len() ==> function_renamed(opt_table(table), orig[i], #[trigger] res@[i]),
        decreases fs.len(),
    {
        let ghost k = res@.len();
        let f = fs.remove(0);
        assert(f == orig[k as int]);
        let FunctionDef { name, module, arguments, return_type, throws_type, docstring } = f;
        let arguments = rename_args(table, name.as_str(), arguments);
        let return_type = rename_opt_type(table, return_type);
        let throws_type = rename_opt_type(table, throws_type);
        let path = owned(name.as_str());
        let name = renamed_name(table, path.as_str(), name);
        res.push(FunctionDef { name, module, arguments, return_type, throws_type, docstring });
        assert(fs@ =~= orig.subrange(res@.len() as int, orig.len() as int));
    }
    res
}

fn rename_records(
    renames: &Vec<(String, TomlTable)>,
    types: Option<&TomlTable>,
    xs: Vec<RecordDef>,
) -> (res: Vec<RecordDef>)
    ensures
        res@.len() == xs@.len(),
        forall|i: int|
            0 <= i < xs@.len() ==> record_renamed(renames@, opt_table(types), xs@[i], #[trigger] res@[i]),
{
    let ghost orig = xs@;
    let mut xs = xs;
    let mut res: Vec<RecordDef> = Vec::new();
    while xs.len() > 0
        invariant
            res@.len() + xs@.len() == orig.len(),
            xs@ == orig.subrange(res@.len() as int, orig.len() as int),
            forall|i: int|
                0 <= i < res@.len() ==> record_renamed(
                    renames@,
                    opt_table(types),
                    orig[i],
                    #[trigger] res@[i],
                ),
        decreases xs.len(),
    {
        let ghost k = res@.len();
        let x = xs.remove(0);
        assert(x == orig[k as int]);
        let RecordDef { name, module, remote, fields, docstring } = x;
        let krate = normalize_module_path(module.as_str());
        let names = table_for(renames, krate.as_str());
        let fields = rename_fields(types, names, name.as_str(), fields);
        let path = owned(name.as_str());
        let name = renamed_name(names, path.as_str(), name);
        res.push(RecordDef { name, module, remote, fields, docstring });
        assert(xs@ =~= orig.subrange(res@.len() as int, orig.len() as int));
    }
    res
}

fn rename_variants(
    types: Option<&TomlTable>,
    names: Option<&TomlTable>,
    owner: &str,
    vs: Vec<VariantDef>,
) -> (res: Vec<VariantDef>)
    ensures
        res@.len() == vs@.len(),
        forall|i: int|
            0 <= i < vs@.len() ==> variant_renamed(
                opt_table(types),
                opt_table(names),
                owner@,
                vs@[i],
                #[trigger] res@[i],
            ),
{
    let ghost orig = vs@;
    let mut vs = vs;
    let mut res: Vec<VariantDef> = Vec::new();
    while vs.len() > 0
        invariant
            res@.len() + vs@.len() == orig.len(),
            vs@ == orig.subrange(res@.len() as int, orig.len() as int),
            forall|i: int|
                0 <= i < res@.len() ==> variant_renamed(
                    opt_table(types),
                    opt_table(names),
                    owner@,
                    orig[i],
                    #[trigger] res@[i],
                ),
        decreases vs.len(),
    {
        let ghost k = res@.len();
        let v = vs.remove(0);
        assert(v == orig[k as int]);
        let VariantDef { name, fields, docstring } = v;
        let path = dotted_path(owner, name.as_str());
        let fields = rename_fields(types, names, path.as_str(), fields);
        let name = renamed_name(names, path.as_str(), name);
        res.push(VariantDef { name, fields, docstring });
        assert(vs@ =~= orig.subrange(res@.len() as int, orig.len() as int));
    }
    res
}

fn rename_enums(
    renames: &Vec<(String, TomlTable)>,
    types: Option<&TomlTable>,
    xs: Vec<EnumDef>,
) -> (res: Vec<EnumDef>)
    ensures
        res@.len() == xs@.len(),
        forall|i: int|
            0 <= i < xs@.len() ==> enum_renamed(renames@, opt_table(types), xs@[i], #[trigger] res@[i]),
{
    let ghost orig = xs@;
    let mut xs = xs;
    let mut res: Vec<EnumDef> = Vec::new();
    while xs.len() > 0
        invariant
            res@.len() + xs@.len() == orig.len(),
            xs@ == orig.subrange(res@.len() as int, orig.len() as int),
            forall|i: int|
                0 <= i < res@.len() ==> enum_renamed(renames@, opt_table(types), orig[i], #[trigger] res@[i]),
        decreases xs.len(),
    {
        let ghost k = res@.len();
        let x = xs.remove(0);
        assert(x == orig[k as int]);
        let EnumDef { name, module, remote, variants, non_exhaustive, docstring } = x;
        let krate = normalize_module_path(module.as_str());
        let names = table_for(renames, krate.as_str());
        let variants = rename_variants(types, names, name.as_str(), variants);
        let path = owned(name.as_str());
        let name = renamed_name(names, path.as_str(), name);
        res.push(EnumDef { name, module, remote, variants, non_exhaustive, docstring });
        assert(xs@ =~= orig.subrange(res@.len() as int, orig.len() as int));
    }
    res
}

fn rename_objects(
    renames: &Vec<(String, TomlTable)>,
    types: Option<&TomlTable>,
    xs: Vec<ObjectDef>,
) -> (res: Vec<ObjectDef>)
    ensures
        res@.len() == xs@.len(),
        forall|i: int|
            0 <= i < xs@.len() ==> object_renamed(renames@, opt_table(types), xs@[i], #[trigger] res@[i]),
{
    let ghost orig = xs@;
    let mut xs = xs;
    let mut res: Vec<ObjectDef> = Vec::new();
    while xs.len() > 0
        invariant
            res@.len() + xs@.len() == orig.len(),
            xs@ == orig.subrange(res@.len() as int, orig.len() as int),
            forall|i: int|
                0 <= i < res@.len() ==> object_renamed(
                    renames@,
                    opt_table(types),
                    orig[i],
                    #[trigger] res@[i],
                ),
        decreases xs.len(),
    {
        let ghost k = res@.len();
        let x = xs.remove(0);
        assert(x == orig[k as int]);
        let ObjectDef {
            name,
            module,
            remote,
            constructors,
            methods,
            trait_impls,
            ffi_func_clone,
            ffi_func_free,
            docstring,
        } = x;
        let krate = normalize_module_path(module.as_str());
        let names = table_for(renames, krate.as_str());
        let constructors = rename_constructors(types, name.as_str(), constructors);
        let methods = rename_methods(types, name.as_str(), methods);
        let path = owned(name.as_str());
        let name = renamed_name(names, path.as_str(), name);
        res.push(
            ObjectDef {
                name,
                module,
                remote,
                constructors,
                methods,
                trait_impls,
                ffi_func_clone,
                ffi_func_free,
                docstring,
            },
        );
        assert(xs@ =~= orig.subrange(res@.len() as int, orig.len() as int));
    }
    res
}

fn rename_callbacks(
    renames: &Vec<(String, TomlTable)>,
    types: Option<&TomlTable>,
    xs: Vec<CallbackInterfaceDef>,
) -> (res: Vec<CallbackInterfaceDef>)
    ensures
        res@.len() == xs@.len(),
        forall|i: int|
            0 <= i < xs@.len() ==> callback_renamed(renames@, opt_table(types), xs@[i], #[trigger] res@[i]),
{
    let ghost orig = xs@;
    let mut xs = xs;
    let mut res: Vec<CallbackInterfaceDef> = Vec::new();
    while xs.len() > 0
        invariant
            res@.len() + xs@.len() == orig.len(),
            xs@ == orig.subrange(res@.len() as int, orig.len() as int),
            forall|i: int|
                0 <= i < res@.len() ==> callback_renamed(
                    renames@,
                    opt_table(types),
                    orig[i],
                    #[trigger] res@[i],
                ),
        decreases xs.len(),
    {
        let ghost k = res@.len();
        let x = xs.remove(0);
        assert(x == orig[k as int]);
        let CallbackInterfaceDef { name, module, methods, docstring } = x;
        let krate = normalize_module_path(module.as_str());
        let names = table_for(renames, krate.as_str());
        let methods = rename_methods(types, name.as_str(), methods);
        let path = owned(name.as_str());
        let name = renamed_name(names, path.as_str(), name);
        res.push(CallbackInterfaceDef { name, module, methods, docstring });
        assert(xs@ =~= orig.subrange(res@.len() as int, orig.len() as int));
    }
    res
}

fn rename_errors(table: Option<&TomlTable>, es: &Vec<String>) -> (res: Vec<String>)
    ensures
        res@.len() == es@.len(),
        forall|i: int|
            0 <= i < es@.len() ==> #[trigger] res@[i]@ == renamed_in(opt_table(table), es@[i]@, es@[i]@),
{
    let mut res: Vec<String> = Vec::new();
    let mut k: usize = 0;
    while k < es.len()
        invariant
            k <= es@.len(),
            res@.len() == k,
            forall|i: int|
                0 <= i < k ==> #[trigger] res@[i]@ == renamed_in(opt_table(table), es@[i]@, es@[i]@),
        decreases es.len() - k,
    {
        res.push(renamed_name(table, es[k].as_str(), es[k].clone()));
        k = k + 1;
    }
    res
}

/// Renames the items of a component of the crate `crate_name` by the renames,
/// TOML tables by crate name: the local names that bindings generate; the
/// FFI layer is left as it is.
pub fn rename(ci: ComponentView, renames: &Vec<(String, TomlTable)>, crate_name: &str) -> (res: ComponentView)
    ensures
        component_renamed(renames@, crate_name@, ci, res),
{
    let ghost c0 = ci;
    let krate = normalize_module_path(crate_name);
    let types = table_for(renames, krate.as_str());
    let known = rename_types(types, &ci.types);
    let errors = rename_errors(types, &ci.errors);
    let ComponentView {
        namespace,
        namespace_docstring,
        records,
        enums,
        objects,
        callback_interfaces,
        functions,
        ffi_definitions,
        types: _,
        checksums,
        errors: _,
        ffi_rustbuffer_alloc,
        ffi_rustbuffer_reserve,
        ffi_rustbuffer_free,
        ffi_uniffi_contract_version,
        uniffi_contract_version,
    } = ci;
    let records = rename_records(renames, types, records);
    let enums = rename_enums(renames, types, enums);
    let objects = rename_objects(renames, types, objects);
    let callback_interfaces = rename_callbacks(renames, types, callback_interfaces);
    let functions = rename_functions(types, functions);
    ComponentView {
        namespace,
        namespace_docstring,
        records,
        enums,
        objects,
        callback_interfaces,
        functions,
        ffi_definitions,
        types: known,
        checksums,
        errors,
        ffi_rustbuffer_alloc,
        ffi_rustbuffer_reserve,
        ffi_rustbuffer_free,
        ffi_uniffi_contract_version,
        uniffi_contract_version,
    }
}

} // verus!
