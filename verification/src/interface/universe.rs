//! Module paths of the types of a component interface.

use vstd::prelude::*;

verus! {

/// Whether a `::` starts at position `j` of the path.
pub open spec fn separator_at(path: Seq<char>, j: int) -> bool {
    j + 1 < path.len() && path[j] == ':' && path[j + 1] == ':'
}

/// The first segment of a module path: what comes before the first `::`, or
/// the whole path where it has none.
pub open spec fn module_root(path: Seq<char>) -> Seq<char>
    decreases path.len(),
{
    if path.len() == 0 {
        Seq::empty()
    } else if path.len() >= 2 && path[0] == ':' && path[1] == ':' {
        Seq::empty()
    } else {
        seq![path[0]] + module_root(path.drop_first())
    }
}

proof fn lemma_module_root_prefix(path: Seq<char>, k: int)
    requires
        0 <= k <= path.len(),
        forall|j: int| 0 <= j < k ==> !#[trigger] separator_at(path, j),
    ensures
        module_root(path) == path.take(k) + module_root(path.skip(k)),
    decreases k,
{
    if k == 0 {
        assert(path.take(0) =~= Seq::<char>::empty());
        assert(path.skip(0) =~= path);
    } else {
        let rest = path.drop_first();
        assert(!separator_at(path, 0));
        assert forall|j: int| 0 <= j < k - 1 implies !#[trigger] separator_at(rest, j) by {
            assert(!separator_at(path, j + 1));
            assert(rest[j] == path[j + 1]);
            if j + 2 < path.len() {
                assert(rest[j + 1] == path[j + 2]);
            }
        }
        lemma_module_root_prefix(rest, k - 1);
        assert(rest.skip(k - 1) =~= path.skip(k));
        assert(seq![path[0]] + rest.take(k - 1) =~= path.take(k));
    }
}

/// The crate that a module path is in: its first segment.
pub fn normalize_module_path(path: &str) -> (res: String)
    ensures
        res@ == module_root(path@),
{
    let n = path.unicode_len();
    let mut k: usize = 0;
    while k < n
        invariant
            n == path@.len(),
            k <= n,
            forall|j: int| 0 <= j < k ==> !#[trigger] separator_at(path@, j),
        ensures
            k <= n,
            forall|j: int| 0 <= j < k ==> !#[trigger] separator_at(path@, j),
            k < n ==> separator_at(path@, k as int),
        decreases n - k,
    {
        if k + 1 < n && path.get_char(k) == ':' && path.get_char(k + 1) == ':' {
            break;
        }
        k = k + 1;
    }
    proof {
        lemma_module_root_prefix(path@, k as int);
        let rest = path@.skip(k as int);
        if k < n {
            assert(rest[0] == path@[k as int] && rest[1] == path@[k + 1]);
        }
        assert(module_root(rest) =~= Seq::<char>::empty());
        assert(path@.take(k as int) + Seq::<char>::empty() =~= path@.take(k as int));
    }
    let res = path.substring_char(0, k);
    proof {
        assert(res@ =~= path@.take(k as int));
    }
    res.to_owned()
}

/// The root of a module path has no `::` in it, so it is its own root.
pub proof fn lemma_module_root_idempotent(path: Seq<char>)
    ensures
        module_root(module_root(path)) == module_root(path),
    decreases path.len(),
{
    if path.len() == 0 {
    } else if path.len() >= 2 && path[0] == ':' && path[1] == ':' {
    } else {
        let rest = path.drop_first();
        lemma_module_root_idempotent(rest);
        let r = module_root(rest);
        let m = seq![path[0]] + r;
        assert(m.drop_first() =~= r);
        if m.len() >= 2 && m[0] == ':' && m[1] == ':' {
            // `path` would then start with `::`.
            assert(path[0] == ':');
            assert(r.len() > 0 && r[0] == ':');
            lemma_module_root_starts(rest);
            assert(false);
        }
    }
}

/// A non-empty module root starts as the path does.
proof fn lemma_module_root_starts(path: Seq<char>)
    ensures
        module_root(path).len() > 0 ==> module_root(path)[0] == path[0] && !(path.len() >= 2
            && path[0] == ':' && path[1] == ':'),
        module_root(path).len() > 1 ==> module_root(path)[1] == path[1],
    decreases path.len(),
{
    if path.len() > 0 && !(path.len() >= 2 && path[0] == ':' && path[1] == ':') {
        lemma_module_root_starts(path.drop_first());
    }
}

/// How an object type is implemented.
#[derive(Debug, Clone, Copy, PartialEq, Eq, Structural)]
pub enum ObjectImpl {
    Struct,
    Trait,
    CallbackTrait,
}

/// A type as component metadata describes it: named types carry the module
/// path that defines them.
#[derive(Debug)]
pub enum MetaType {
    UInt8,
    Int8,
    UInt16,
    Int16,
    UInt32,
    Int32,
    UInt64,
    Int64,
    Float32,
    Float64,
    Boolean,
    String,
    Bytes,
    Timestamp,
    Duration,
    Object { module: String, name: String, imp: ObjectImpl },
    Record { module: String, name: String },
    Enum { module: String, name: String },
    CallbackInterface { module: String, name: String },
    Optional { inner_type: Box<MetaType> },
    Sequence { inner_type: Box<MetaType> },
    MapOf { key_type: Box<MetaType>, value_type: Box<MetaType> },
    Custom { module: String, name: String, builtin: Box<MetaType> },
}

/// `r` is the type `t` with each module path cut to its crate name, its
/// first segment; everything else is kept.
pub open spec fn normalized_as(t: MetaType, r: MetaType) -> bool
    decreases t,
{
    match t {
        MetaType::Object { module, name, imp } => r matches MetaType::Object {
            module: m,
            name: n,
            imp: i,
        } && m@ == module_root(module@) && n == name && i == imp,
        MetaType::Record { module, name } => r matches MetaType::Record { module: m, name: n }
            && m@ == module_root(module@) && n == name,
        MetaType::Enum { module, name } => r matches MetaType::Enum { module: m, name: n }
            && m@ == module_root(module@) && n == name,
        MetaType::CallbackInterface { module, name } => r matches MetaType::CallbackInterface {
            module: m,
            name: n,
        } && m@ == module_root(module@) && n == name,
        MetaType::Optional { inner_type } => r matches MetaType::Optional { inner_type: i }
            && normalized_as(*inner_type, *i),
        MetaType::Sequence { inner_type } => r matches MetaType::Sequence { inner_type: i }
            && normalized_as(*inner_type, *i),
        MetaType::MapOf { key_type, value_type } => r matches MetaType::MapOf {
            key_type: k,
            value_type: v,
        } && normalized_as(*key_type, *k) && normalized_as(*value_type, *v),
        MetaType::Custom { module, name, builtin } => r matches MetaType::Custom {
            module: m,
            name: n,
            builtin: b,
        } && m@ == module_root(module@) && n == name && normalized_as(*builtin, *b),
        _ => r == t,
    }
}

/// Normalizes the module paths of a type: types from proc-macros carry the
/// entire module path while types from UDL carry only the crate name, so
/// each module path is cut to the crate name.
pub fn normalize_type_module_path(ty: &MetaType) -> (res: MetaType)
    ensures
        normalized_as(*ty, res),
    decreases ty,
{
    match ty {
        MetaType::Object { module, name, imp } => MetaType::Object {
            module: normalize_module_path(module.as_str()),
            name: name.clone(),
            imp: *imp,
        },
        MetaType::Record { module, name } => MetaType::Record {
            module: normalize_module_path(module.as_str()),
            name: name.clone(),
        },
        MetaType::Enum { module, name } => MetaType::Enum {
            module: normalize_module_path(module.as_str()),
            name: name.clone(),
        },
        MetaType::CallbackInterface { module, name } => MetaType::CallbackInterface {
            module: normalize_module_path(module.as_str()),
            name: name.clone(),
        },
        MetaType::Optional { inner_type } => MetaType::Optional {
            inner_type: Box::new(normalize_type_module_path(&**inner_type)),
        },
        MetaType::Sequence { inner_type } => MetaType::Sequence {
            inner_type: Box::new(normalize_type_module_path(&**inner_type)),
        },
        MetaType::MapOf { key_type, value_type } => MetaType::MapOf {
            key_type: Box::new(normalize_type_module_path(&**key_type)),
            value_type: Box::new(normalize_type_module_path(&**value_type)),
        },
        MetaType::Custom { module, name, builtin } => MetaType::Custom {
            module: normalize_module_path(module.as_str()),
            name: name.clone(),
            builtin: Box::new(normalize_type_module_path(&**builtin)),
        },
        MetaType::UInt8 => MetaType::UInt8,
        MetaType::Int8 => MetaType::Int8,
        MetaType::UInt16 => MetaType::UInt16,
        MetaType::Int16 => MetaType::Int16,
        MetaType::UInt32 => MetaType::UInt32,
        MetaType::Int32 => MetaType::Int32,
        MetaType::UInt64 => MetaType::UInt64,
        MetaType::Int64 => MetaType::Int64,
        MetaType::Float32 => MetaType::Float32,
        MetaType::Float64 => MetaType::Float64,
        MetaType::Boolean => MetaType::Boolean,
        MetaType::String => MetaType::String,
        MetaType::Bytes => MetaType::Bytes,
        MetaType::Timestamp => MetaType::Timestamp,
        MetaType::Duration => MetaType::Duration,
    }
}

/// Normalizing is idempotent: a normalized type is its own normalization.
pub proof fn lemma_normalized_is_normal(t: MetaType, r: MetaType)
    requires
        normalized_as(t, r),
    ensures
        normalized_as(r, r),
    decreases t,
{
    match t {
        MetaType::Object { module, .. } => lemma_module_root_idempotent(module@),
        MetaType::Record { module, .. } => lemma_module_root_idempotent(module@),
        MetaType::Enum { module, .. } => lemma_module_root_idempotent(module@),
        MetaType::CallbackInterface { module, .. } => lemma_module_root_idempotent(
            module@,
        ),
        MetaType::Optional { inner_type } => {
            if let MetaType::Optional { inner_type: i } = r {
                lemma_normalized_is_normal(*inner_type, *i);
            }
        },
        MetaType::Sequence { inner_type } => {
            if let MetaType::Sequence { inner_type: i } = r {
                lemma_normalized_is_normal(*inner_type, *i);
            }
        },
        MetaType::MapOf { key_type, value_type } => {
            if let MetaType::MapOf { key_type: k, value_type: v } = r {
                lemma_normalized_is_normal(*key_type, *k);
                lemma_normalized_is_normal(*value_type, *v);
            }
        },
        MetaType::Custom { module, builtin, .. } => {
            lemma_module_root_idempotent(module@);
            if let MetaType::Custom { builtin: b, .. } = r {
                lemma_normalized_is_normal(*builtin, *b);
            }
        },
        _ => {},
    }
}

} // verus!
