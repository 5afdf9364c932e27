//! The parts of a component interface that the bindings IR is built from:
//! its namespace, its type definitions with their docstrings, its functions,
//! its FFI definitions and its known types, held as plain values.

use vstd::prelude::*;

use super::ffi::{FfiDefinition as CiFfiDefinition, FfiFunction};
use super::types::Type;
use crate::text::str_eq;

verus! {

/// A named, typed field of a record or of an enum variant.
#[derive(Debug)]
pub struct FieldDef {
    pub name: String,
    pub ty: Type,
    pub docstring: Option<String>,
}

/// A named, typed argument of a callable.
#[derive(Debug)]
pub struct ArgumentDef {
    pub name: String,
    pub ty: Type,
}

/// A method of an object or of a callback interface.
#[derive(Debug)]
pub struct MethodDef {
    pub name: String,
    pub arguments: Vec<ArgumentDef>,
    pub return_type: Option<Type>,
    pub throws_type: Option<Type>,
    pub docstring: Option<String>,
}

/// A constructor of an object.
#[derive(Debug)]
pub struct ConstructorDef {
    pub name: String,
    pub arguments: Vec<ArgumentDef>,
    pub throws_type: Option<Type>,
    pub docstring: Option<String>,
}

/// A top-level function.
#[derive(Debug)]
pub struct FunctionDef {
    pub name: String,
    pub module: String,
    pub arguments: Vec<ArgumentDef>,
    pub return_type: Option<Type>,
    pub throws_type: Option<Type>,
    pub docstring: Option<String>,
}

/// A record: a "data class" passed by value.
#[derive(Debug)]
pub struct RecordDef {
    pub name: String,
    pub module: String,
    pub remote: bool,
    pub fields: Vec<FieldDef>,
    pub docstring: Option<String>,
}

/// A variant of an enum.
#[derive(Debug)]
pub struct VariantDef {
    pub name: String,
    pub fields: Vec<FieldDef>,
    pub docstring: Option<String>,
}

/// An enum, or an error enum.
#[derive(Debug)]
pub struct EnumDef {
    pub name: String,
    pub module: String,
    pub remote: bool,
    pub variants: Vec<VariantDef>,
    pub non_exhaustive: bool,
    pub docstring: Option<String>,
}

/// An object: an interface passed by reference, with methods.
#[derive(Debug)]
pub struct ObjectDef {
    pub name: String,
    pub module: String,
    pub remote: bool,
    pub constructors: Vec<ConstructorDef>,
    pub methods: Vec<MethodDef>,
    /// The names of the traits that the object declares it implements.
    pub trait_impls: Vec<String>,
    /// The FFI functions that clone and free a pointer to the object.
    pub ffi_func_clone: FfiFunction,
    pub ffi_func_free: FfiFunction,
    pub docstring: Option<String>,
}

/// A callback interface: implemented on the foreign side of the FFI.
#[derive(Debug)]
pub struct CallbackInterfaceDef {
    pub name: String,
    pub module: String,
    pub methods: Vec<MethodDef>,
    pub docstring: Option<String>,
}

/// What the bindings IR is built from.
#[derive(Debug)]
pub struct ComponentView {
    pub namespace: String,
    pub namespace_docstring: Option<String>,
    pub records: Vec<RecordDef>,
    pub enums: Vec<EnumDef>,
    pub objects: Vec<ObjectDef>,
    pub callback_interfaces: Vec<CallbackInterfaceDef>,
    pub functions: Vec<FunctionDef>,
    /// The FFI definitions of the component.
    pub ffi_definitions: Vec<CiFfiDefinition>,
    /// The types that the component knows, in order.
    pub types: Vec<Type>,
    /// The checksums of the component's API, by the name of the scaffolding
    /// function that gives each.
    pub checksums: Vec<(String, u16)>,
    /// The names of the types used as the error half of a result.
    pub errors: Vec<String>,
    /// The FFI functions that every component has, and its contract version.
    pub ffi_rustbuffer_alloc: FfiFunction,
    pub ffi_rustbuffer_reserve: FfiFunction,
    pub ffi_rustbuffer_free: FfiFunction,
    pub ffi_uniffi_contract_version: FfiFunction,
    pub uniffi_contract_version: u32,
}

/// The first position, from `k` on, at which a name of `names` is `name`.
pub open spec fn first_named(names: Seq<Seq<char>>, name: Seq<char>, k: int) -> Option<int>
    decreases names.len() - k,
{
    if k < 0 || k >= names.len() {
        None
    } else if names[k] == name {
        Some(k)
    } else {
        first_named(names, name, k + 1)
    }
}

pub proof fn lemma_first_named_found(names: Seq<Seq<char>>, name: Seq<char>, k: int)
    requires
        first_named(names, name, k) matches Some(i),
    ensures
        first_named(names, name, k) matches Some(i) && k <= i < names.len() && names[i] == name,
    decreases names.len() - k,
{
    if k >= 0 && k < names.len() && names[k] != name {
        lemma_first_named_found(names, name, k + 1);
    }
}

pub open spec fn record_names(s: Seq<RecordDef>) -> Seq<Seq<char>> {
    s.map_values(|d: RecordDef| d.name@)
}

pub open spec fn enum_names(s: Seq<EnumDef>) -> Seq<Seq<char>> {
    s.map_values(|d: EnumDef| d.name@)
}

pub open spec fn object_names(s: Seq<ObjectDef>) -> Seq<Seq<char>> {
    s.map_values(|d: ObjectDef| d.name@)
}

pub open spec fn callback_interface_names(s: Seq<CallbackInterfaceDef>) -> Seq<Seq<char>> {
    s.map_values(|d: CallbackInterfaceDef| d.name@)
}

/// Whether a name is one of the names.
pub open spec fn has_name(names: Seq<String>, n: Seq<char>) -> bool {
    exists|i: int| 0 <= i < names.len() && #[trigger] names[i]@ == n
}

pub open spec fn constructor_names(s: Seq<ConstructorDef>) -> Seq<Seq<char>> {
    s.map_values(|d: ConstructorDef| d.name@)
}

/// The constructors not named `new`, in order.
pub open spec fn alternates(s: Seq<ConstructorDef>) -> Seq<ConstructorDef>
    decreases s.len(),
{
    if s.len() == 0 {
        Seq::empty()
    } else if s.last().name@ == "new"@ {
        alternates(s.drop_last())
    } else {
        alternates(s.drop_last()).push(s.last())
    }
}

impl ObjectDef {
    /// The primary constructor: the first one named `new`.
    pub fn primary_constructor(&self) -> (res: Option<&ConstructorDef>)
        ensures
            match first_named(constructor_names(self.constructors@), "new"@, 0) {
                Some(i) => res matches Some(c) && *c == self.constructors@[i],
                None => res is None,
            },
    {
        let ghost names = constructor_names(self.constructors@);
        let mut k: usize = 0;
        while k < self.constructors.len()
            invariant
                k <= self.constructors@.len(),
                names == constructor_names(self.constructors@),
                first_named(names, "new"@, 0) == first_named(names, "new"@, k as int),
            decreases self.constructors.len() - k,
        {
            if str_eq(self.constructors[k].name.as_str(), "new") {
                return Some(&self.constructors[k]);
            }
            k = k + 1;
        }
        None
    }

    /// The constructors other than those named `new`, in order.
    pub fn alternate_constructors(&self) -> (res: Vec<&ConstructorDef>)
        ensures
            res@.len() == alternates(self.constructors@).len(),
            forall|i: int| 0 <= i < res@.len() ==> *#[trigger] res@[i] == alternates(self.constructors@)[i],
    {
        let mut res: Vec<&ConstructorDef> = Vec::new();
        let mut k: usize = 0;
        while k < self.constructors.len()
            invariant
                k <= self.constructors@.len(),
                res@.len() == alternates(self.constructors@.take(k as int)).len(),
                forall|i: int|
                    0 <= i < res@.len() ==> *#[trigger] res@[i] == alternates(
                        self.constructors@.take(k as int),
                    )[i],
            decreases self.constructors.len() - k,
        {
            assert(self.constructors@.take(k + 1).drop_last() =~= self.constructors@.take(k as int));
            if !str_eq(self.constructors[k].name.as_str(), "new") {
                res.push(&self.constructors[k]);
            }
            k = k + 1;
        }
        assert(self.constructors@.take(k as int) =~= self.constructors@);
        res
    }
}

impl ComponentView {
    /// The position of the first record of the name, if any.
    pub open spec fn record_index(&self, name: Seq<char>) -> Option<int> {
        first_named(record_names(self.records@), name, 0)
    }

    pub open spec fn enum_index(&self, name: Seq<char>) -> Option<int> {
        first_named(enum_names(self.enums@), name, 0)
    }

    pub open spec fn object_index(&self, name: Seq<char>) -> Option<int> {
        first_named(object_names(self.objects@), name, 0)
    }

    pub open spec fn callback_interface_index(&self, name: Seq<char>) -> Option<int> {
        first_named(callback_interface_names(self.callback_interfaces@), name, 0)
    }

    /// Whether the type of the name is used as an error.
    pub open spec fn is_error_name(&self, name: Seq<char>) -> bool {
        has_name(self.errors@, name)
    }

    /// The position of the first record of the name, if any.
    pub fn get_record_definition(&self, name: &str) -> (res: Option<usize>)
        ensures
            match res {
                Some(i) => self.record_index(name@) == Some(i as int),
                None => self.record_index(name@) is None,
            },
    {
        let ghost names = record_names(self.records@);
        let mut k: usize = 0;
        while k < self.records.len()
            invariant
                k <= self.records@.len(),
                names == record_names(self.records@),
                first_named(names, name@, 0) == first_named(names, name@, k as int),
            decreases self.records.len() - k,
        {
            if str_eq(self.records[k].name.as_str(), name) {
                return Some(k);
            }
            k = k + 1;
        }
        None
    }

    /// The position of the first enum of the name, if any.
    pub fn get_enum_definition(&self, name: &str) -> (res: Option<usize>)
        ensures
            match res {
                Some(i) => self.enum_index(name@) == Some(i as int),
                None => self.enum_index(name@) is None,
            },
    {
        let ghost names = enum_names(self.enums@);
        let mut k: usize = 0;
        while k < self.enums.len()
            invariant
                k <= self.enums@.len(),
                names == enum_names(self.enums@),
                first_named(names, name@, 0) == first_named(names, name@, k as int),
            decreases self.enums.len() - k,
        {
            if str_eq(self.enums[k].name.as_str(), name) {
                return Some(k);
            }
            k = k + 1;
        }
        None
    }

    /// The position of the first object of the name, if any.
    pub fn get_object_definition(&self, name: &str) -> (res: Option<usize>)
        ensures
            match res {
                Some(i) => self.object_index(name@) == Some(i as int),
                None => self.object_index(name@) is None,
            },
    {
        let ghost names = object_names(self.objects@);
        let mut k: usize = 0;
        while k < self.objects.len()
            invariant
                k <= self.objects@.len(),
                names == object_names(self.objects@),
                first_named(names, name@, 0) == first_named(names, name@, k as int),
            decreases self.objects.len() - k,
        {
            if str_eq(self.objects[k].name.as_str(), name) {
                return Some(k);
            }
            k = k + 1;
        }
        None
    }

    /// The position of the first callback interface of the name, if any.
    pub fn get_callback_interface_definition(&self, name: &str) -> (res: Option<usize>)
        ensures
            match res {
                Some(i) => self.callback_interface_index(name@) == Some(i as int),
                None => self.callback_interface_index(name@) is None,
            },
    {
        let ghost names = callback_interface_names(self.callback_interfaces@);
        let mut k: usize = 0;
        while k < self.callback_interfaces.len()
            invariant
                k <= self.callback_interfaces@.len(),
                names == callback_interface_names(self.callback_interfaces@),
                first_named(names, name@, 0) == first_named(names, name@, k as int),
            decreases self.callback_interfaces.len() - k,
        {
            if str_eq(self.callback_interfaces[k].name.as_str(), name) {
                return Some(k);
            }
            k = k + 1;
        }
        None
    }

    /// Whether the type of the name is used as an error.
    pub fn is_error(&self, name: &str) -> (res: bool)
        ensures
            res == self.is_error_name(name@),
    {
        let mut k: usize = 0;
        while k < self.errors.len()
            invariant
                k <= self.errors@.len(),
                forall|j: int| 0 <= j < k ==> #[trigger] self.errors@[j]@ != name@,
            decreases self.errors.len() - k,
        {
            if str_eq(self.errors[k].as_str(), name) {
                return true;
            }
            k = k + 1;
        }
        false
    }
}

} // verus!
