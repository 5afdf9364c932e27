//! Mapping from the interface's FFI layer to the bindings IR.

use vstd::prelude::*;

use crate::interface::component::{
    ArgumentDef, ComponentView, ConstructorDef, FieldDef, FunctionDef, MethodDef, VariantDef,
};
use crate::interface::ffi as ci;
use crate::interface::types::{defined_name, lowered, Type as MetaType};
use super::sort::{deps_come_first, holds_exactly, last_by_name, sort_ffi_definitions, sort_types};
use super::nodes::{
    Argument, CallbackInterface, ChecksumCheck, Constructor, Enum, ExternalFfiMetadata, FfiArgument, FfiDefinition, FfiField,
    FfiFunction, FfiFunctionRef, FfiFunctionType, FfiStruct, FfiType, Field, Function, Interface,
    MapType, Method, OptionalType, Record, SequenceType, Type, TypeDefinition, Variant,
};
use crate::text::{owned, str_eq};

verus! {

/// The FFI type has a counterpart in the bindings IR: it uses none of the
/// executor and future-callback types of the older async protocol, which the
/// IR does not model.
pub open spec fn maps_to_ir(t: ci::FfiType) -> bool
    decreases t,
{
    match t {
        ci::FfiType::ForeignCallback => false,
        ci::FfiType::ForeignExecutorHandle => false,
        ci::FfiType::ForeignExecutorCallback => false,
        ci::FfiType::FutureCallback { .. } => false,
        ci::FfiType::FutureCallbackData => false,
        ci::FfiType::Reference(inner) => maps_to_ir(*inner),
        ci::FfiType::MutReference(inner) => maps_to_ir(*inner),
        _ => true,
    }
}

/// The IR counterpart of an FFI type: callbacks become function pointers,
/// everything else keeps its shape and names.
pub open spec fn ir_type(t: ci::FfiType) -> FfiType
    decreases t,
{
    match t {
        ci::FfiType::UInt8 => FfiType::UInt8,
        ci::FfiType::Int8 => FfiType::Int8,
        ci::FfiType::UInt16 => FfiType::UInt16,
        ci::FfiType::Int16 => FfiType::Int16,
        ci::FfiType::UInt32 => FfiType::UInt32,
        ci::FfiType::Int32 => FfiType::Int32,
        ci::FfiType::UInt64 => FfiType::UInt64,
        ci::FfiType::Int64 => FfiType::Int64,
        ci::FfiType::Float32 => FfiType::Float32,
        ci::FfiType::Float64 => FfiType::Float64,
        ci::FfiType::RustArcPtr(name) => FfiType::RustArcPtr(name),
        ci::FfiType::RustBuffer(meta) => FfiType::RustBuffer(
            match meta {
                Some(m) => Some(ExternalFfiMetadata { module: m.module, namespace: m.namespace }),
                None => None,
            },
        ),
        ci::FfiType::ForeignBytes => FfiType::ForeignBytes,
        ci::FfiType::Callback(name) => FfiType::FunctionPointer(name),
        ci::FfiType::Struct(name) => FfiType::Struct(name),
        ci::FfiType::Handle => FfiType::Handle,
        ci::FfiType::RustCallStatus => FfiType::RustCallStatus,
        ci::FfiType::Reference(inner) => FfiType::Reference(Box::new(ir_type(*inner))),
        ci::FfiType::MutReference(inner) => FfiType::MutReference(Box::new(ir_type(*inner))),
        _ => FfiType::VoidPointer,
    }
}

pub open spec fn all_map_to_ir(args: Seq<ci::FfiArgument>) -> bool {
    forall|i: int| 0 <= i < args.len() ==> maps_to_ir(#[trigger] args[i].type_)
}

pub open spec fn opt_maps_to_ir(t: Option<ci::FfiType>) -> bool {
    match t {
        Some(t) => maps_to_ir(t),
        None => true,
    }
}

pub open spec fn ir_opt_type(t: Option<ci::FfiType>) -> Option<FfiType> {
    match t {
        Some(t) => Some(ir_type(t)),
        None => None,
    }
}

/// The IR arguments carry the same names, with the types mapped.
pub open spec fn ir_arguments_match(args: Seq<ci::FfiArgument>, res: Seq<FfiArgument>) -> bool {
    &&& res.len() == args.len()
    &&& forall|i: int|
        0 <= i < args.len() ==> (#[trigger] res[i]).name == args[i].name && res[i].ty == ir_type(
            args[i].type_,
        )
}

/// The definition maps to the IR: every type it mentions does.
pub open spec fn definition_maps_to_ir(d: ci::FfiDefinition) -> bool {
    match d {
        ci::FfiDefinition::Function(f) => all_map_to_ir(f.arguments@) && opt_maps_to_ir(
            f.return_type,
        ),
        ci::FfiDefinition::CallbackFunction(c) => all_map_to_ir(c.arguments@) && opt_maps_to_ir(
            c.return_type,
        ),
        ci::FfiDefinition::Struct(s) => forall|i: int|
            0 <= i < s.fields@.len() ==> maps_to_ir(#[trigger] s.fields@[i].type_),
    }
}

/// How a scalar FFI type of the interface is laid out: whether it is a
/// float, whether it is signed, and its width in bits.
pub open spec fn ci_scalar_layout(t: ci::FfiType) -> Option<(bool, bool, nat)> {
    match t {
        ci::FfiType::UInt8 => Some((false, false, 8)),
        ci::FfiType::Int8 => Some((false, true, 8)),
        ci::FfiType::UInt16 => Some((false, false, 16)),
        ci::FfiType::Int16 => Some((false, true, 16)),
        ci::FfiType::UInt32 => Some((false, false, 32)),
        ci::FfiType::Int32 => Some((false, true, 32)),
        ci::FfiType::UInt64 => Some((false, false, 64)),
        ci::FfiType::Int64 => Some((false, true, 64)),
        ci::FfiType::Float32 => Some((true, true, 32)),
        ci::FfiType::Float64 => Some((true, true, 64)),
        _ => None,
    }
}

/// How a scalar FFI type of the IR is laid out, as for the interface's.
pub open spec fn ir_scalar_layout(t: FfiType) -> Option<(bool, bool, nat)> {
    match t {
        FfiType::UInt8 => Some((false, false, 8)),
        FfiType::Int8 => Some((false, true, 8)),
        FfiType::UInt16 => Some((false, false, 16)),
        FfiType::Int16 => Some((false, true, 16)),
        FfiType::UInt32 => Some((false, false, 32)),
        FfiType::Int32 => Some((false, true, 32)),
        FfiType::UInt64 => Some((false, false, 64)),
        FfiType::Int64 => Some((false, true, 64)),
        FfiType::Float32 => Some((true, true, 32)),
        FfiType::Float64 => Some((true, true, 64)),
        _ => None,
    }
}

/// Mapping an FFI type into the IR keeps every scalar as the scalar of the
/// same kind, signedness and width, and makes no other type a scalar; named
/// pointers keep their names, only callbacks becoming function pointers.
pub proof fn lemma_ffi_types_keep_their_layout(t: ci::FfiType)
    requires
        maps_to_ir(t),
    ensures
        ir_scalar_layout(ir_type(t)) == ci_scalar_layout(t),
        t matches ci::FfiType::Callback(n) ==> ir_type(t) == FfiType::FunctionPointer(n),
        t matches ci::FfiType::Struct(n) ==> ir_type(t) == FfiType::Struct(n),
        t matches ci::FfiType::RustArcPtr(n) ==> ir_type(t) == FfiType::RustArcPtr(n),
{
}

/// Maps an FFI type to its IR counterpart.
pub fn map_ffi_type(ty: ci::FfiType) -> (res: FfiType)
    requires
        maps_to_ir(ty),
    ensures
        res == ir_type(ty),
    decreases ty,
{
    match ty {
        ci::FfiType::UInt8 => FfiType::UInt8,
        ci::FfiType::Int8 => FfiType::Int8,
        ci::FfiType::UInt16 => FfiType::UInt16,
        ci::FfiType::Int16 => FfiType::Int16,
        ci::FfiType::UInt32 => FfiType::UInt32,
        ci::FfiType::Int32 => FfiType::Int32,
        ci::FfiType::UInt64 => FfiType::UInt64,
        ci::FfiType::Int64 => FfiType::Int64,
        ci::FfiType::Float32 => FfiType::Float32,
        ci::FfiType::Float64 => FfiType::Float64,
        ci::FfiType::RustArcPtr(name) => FfiType::RustArcPtr(name),
        ci::FfiType::RustBuffer(meta) => FfiType::RustBuffer(
            match meta {
                Some(m) => Some(ExternalFfiMetadata { namespace: m.namespace, module: m.module }),
                None => None,
            },
        ),
        ci::FfiType::ForeignBytes => FfiType::ForeignBytes,
        ci::FfiType::Callback(name) => FfiType::FunctionPointer(name),
        ci::FfiType::Struct(name) => FfiType::Struct(name),
        ci::FfiType::Handle => FfiType::Handle,
        ci::FfiType::RustCallStatus => FfiType::RustCallStatus,
        ci::FfiType::Reference(inner_type) => FfiType::Reference(
            Box::new(map_ffi_type(*inner_type)),
        ),
        ci::FfiType::MutReference(inner_type) => FfiType::MutReference(
            Box::new(map_ffi_type(*inner_type)),
        ),
        ci::FfiType::VoidPointer => FfiType::VoidPointer,
        ci::FfiType::ForeignCallback
        | ci::FfiType::ForeignExecutorHandle
        | ci::FfiType::ForeignExecutorCallback
        | ci::FfiType::FutureCallback { .. }
        | ci::FfiType::FutureCallbackData => unreached(),
    }
}

fn map_opt_ffi_type(ty: Option<ci::FfiType>) -> (res: Option<FfiType>)
    requires
        opt_maps_to_ir(ty),
    ensures
        res == ir_opt_type(ty),
{
    match ty {
        Some(t) => Some(map_ffi_type(t)),
        None => None,
    }
}

pub fn map_ffi_argument(arg: ci::FfiArgument) -> (res: FfiArgument)
    requires
        maps_to_ir(arg.type_),
    ensures
        res.name == arg.name,
        res.ty == ir_type(arg.type_),
{
    FfiArgument { name: arg.name, ty: map_ffi_type(arg.type_) }
}

pub fn map_ffi_field(field: ci::FfiField) -> (res: FfiField)
    requires
        maps_to_ir(field.type_),
    ensures
        res.name == field.name,
        res.ty == ir_type(field.type_),
{
    FfiField { name: field.name, ty: map_ffi_type(field.type_) }
}

fn map_ffi_arguments(args: Vec<ci::FfiArgument>) -> (res: Vec<FfiArgument>)
    requires
        all_map_to_ir(args@),
    ensures
        ir_arguments_match(args@, res@),
{
    let ghost orig = args@;
    let mut args = args;
    let mut res: Vec<FfiArgument> = Vec::new();
    while args.len() > 0
        invariant
            res@.len() + args@.len() == orig.len(),
            args@ == orig.subrange(res@.len() as int, orig.len() as int),
            all_map_to_ir(orig),
            forall|i: int|
                0 <= i < res@.len() ==> (#[trigger] res@[i]).name == orig[i].name && res@[i].ty
                    == ir_type(orig[i].type_),
        decreases args.len(),
    {
        let ghost k = res@.len();
        let a = args.remove(0);
        assert(a == orig[k as int]);
        res.push(map_ffi_argument(a));
        assert(args@ =~= orig.subrange(res@.len() as int, orig.len() as int));
    }
    res
}

pub fn map_ffi_struct(ffi_struct: ci::FfiStruct) -> (res: FfiStruct)
    requires
        forall|i: int|
            0 <= i < ffi_struct.fields@.len() ==> maps_to_ir(#[trigger] ffi_struct.fields@[i].type_),
    ensures
        res.name == ffi_struct.name,
        res.fields@.len() == ffi_struct.fields@.len(),
        forall|i: int|
            0 <= i < res.fields@.len() ==> (#[trigger] res.fields@[i]).name
                == ffi_struct.fields@[i].name && res.fields@[i].ty == ir_type(
                ffi_struct.fields@[i].type_,
            ),
{
    let ghost orig = ffi_struct.fields@;
    let mut fields = ffi_struct.fields;
    let mut res: Vec<FfiField> = Vec::new();
    while fields.len() > 0
        invariant
            res@.len() + fields@.len() == orig.len(),
            fields@ == orig.subrange(res@.len() as int, orig.len() as int),
            forall|i: int| 0 <= i < orig.len() ==> maps_to_ir(#[trigger] orig[i].type_),
            forall|i: int|
                0 <= i < res@.len() ==> (#[trigger] res@[i]).name == orig[i].name && res@[i].ty
                    == ir_type(orig[i].type_),
        decreases fields.len(),
    {
        let ghost k = res@.len();
        let f = fields.remove(0);
        assert(f == orig[k as int]);
        res.push(map_ffi_field(f));
        assert(fields@ =~= orig.subrange(res@.len() as int, orig.len() as int));
    }
    FfiStruct { name: ffi_struct.name, fields: res }
}

pub fn map_ffi_func(ffi_func: ci::FfiFunction) -> (res: FfiFunction)
    requires
        all_map_to_ir(ffi_func.arguments@),
        opt_maps_to_ir(ffi_func.return_type),
    ensures
        res.name == ffi_func.name,
        res.is_async == ffi_func.is_async,
        ir_arguments_match(ffi_func.arguments@, res.arguments@),
        res.return_type == ir_opt_type(ffi_func.return_type),
        res.has_rust_call_status_arg == ffi_func.has_rust_call_status_arg,
        res.is_object_free_function == ffi_func.is_object_free_function,
{
    FfiFunction {
        name: ffi_func.name,
        is_async: ffi_func.is_async,
        arguments: map_ffi_arguments(ffi_func.arguments),
        return_type: map_opt_ffi_type(ffi_func.return_type),
        has_rust_call_status_arg: ffi_func.has_rust_call_status_arg,
        is_object_free_function: ffi_func.is_object_free_function,
    }
}

pub fn map_ffi_func_ref(ffi_func: ci::FfiFunction) -> (res: FfiFunctionRef)
    ensures
        res.name == ffi_func.name,
        res.is_object_free_function == ffi_func.is_object_free_function,
{
    FfiFunctionRef {
        name: ffi_func.name,
        is_object_free_function: ffi_func.is_object_free_function,
    }
}

pub fn map_ffi_func_type(callback: ci::FfiCallbackFunction) -> (res: FfiFunctionType)
    requires
        all_map_to_ir(callback.arguments@),
        opt_maps_to_ir(callback.return_type),
    ensures
        res.name == callback.name,
        ir_arguments_match(callback.arguments@, res.arguments@),
        res.return_type == ir_opt_type(callback.return_type),
        res.has_rust_call_status_arg == callback.has_rust_call_status_arg,
{
    FfiFunctionType {
        name: callback.name,
        arguments: map_ffi_arguments(callback.arguments),
        return_type: map_opt_ffi_type(callback.return_type),
        has_rust_call_status_arg: callback.has_rust_call_status_arg,
    }
}

/// The IR struct is the struct mapped: same name, fields of the same names
/// with their types mapped, in order.
pub open spec fn struct_maps(s: ci::FfiStruct, r: FfiStruct) -> bool {
    &&& r.name == s.name
    &&& r.fields@.len() == s.fields@.len()
    &&& forall|i: int|
        0 <= i < r.fields@.len() ==> (#[trigger] r.fields@[i]).name == s.fields@[i].name
            && r.fields@[i].ty == ir_type(s.fields@[i].type_)
}

/// The IR function is the function mapped: arguments and return type mapped,
/// name and flags kept.
pub open spec fn func_maps(f: ci::FfiFunction, r: FfiFunction) -> bool {
    &&& r.name == f.name
    &&& r.is_async == f.is_async
    &&& ir_arguments_match(f.arguments@, r.arguments@)
    &&& r.return_type == ir_opt_type(f.return_type)
    &&& r.has_rust_call_status_arg == f.has_rust_call_status_arg
    &&& r.is_object_free_function == f.is_object_free_function
}

/// The IR function type is the callback function mapped: arguments and return
/// type mapped, name and flag kept.
pub open spec fn func_type_maps(c: ci::FfiCallbackFunction, r: FfiFunctionType) -> bool {
    &&& r.name == c.name
    &&& ir_arguments_match(c.arguments@, r.arguments@)
    &&& r.return_type == ir_opt_type(c.return_type)
    &&& r.has_rust_call_status_arg == c.has_rust_call_status_arg
}

/// Maps a definition of the FFI layer to the IR: functions to functions,
/// callback functions to function types, structs to structs. The name is kept.
pub fn map_ffi_definition(ffi_def: ci::FfiDefinition) -> (res: FfiDefinition)
    requires
        definition_maps_to_ir(ffi_def),
    ensures
        match ffi_def {
            ci::FfiDefinition::Struct(s) => res matches FfiDefinition::Struct(r) && struct_maps(s, r),
            ci::FfiDefinition::Function(f) => res matches FfiDefinition::Function(r) && func_maps(
                f,
                r,
            ),
            ci::FfiDefinition::CallbackFunction(c) => res matches FfiDefinition::FunctionType(r)
                && func_type_maps(c, r),
        },
{
    match ffi_def {
        ci::FfiDefinition::Struct(s) => FfiDefinition::Struct(map_ffi_struct(s)),
        ci::FfiDefinition::Function(f) => FfiDefinition::Function(map_ffi_func(f)),
        ci::FfiDefinition::CallbackFunction(c) => FfiDefinition::FunctionType(map_ffi_func_type(c)),
    }
}

/// A reference to the scaffolding function of the given name.
pub fn name_to_ffi_func_ref(name: String) -> (res: FfiFunctionRef)
    ensures
        res.name == name,
        !res.is_object_free_function,
{
    FfiFunctionRef { name, is_object_free_function: false }
}


/// The IR node for a type of the component: the type, the FFI type it is
/// lowered to, and whether a type of its name is used as an error.
pub open spec fn ir_type_of(ci: ComponentView, t: MetaType) -> Type {
    Type {
        kind: t,
        ffi_type: lowered(t),
        is_used_as_error: match defined_name(t) {
            Some(n) => ci.is_error_name(n),
            None => false,
        },
    }
}

pub open spec fn opt_ir_type(ci: ComponentView, t: Option<MetaType>) -> Option<Type> {
    match t {
        Some(t) => Some(ir_type_of(ci, t)),
        None => None,
    }
}

/// The IR field is the field, its type mapped.
pub open spec fn field_maps(ci: ComponentView, f: FieldDef, r: Field) -> bool {
    &&& r.name == f.name
    &&& r.ty == ir_type_of(ci, f.ty)
    &&& r.docstring == f.docstring
}

pub open spec fn fields_map(ci: ComponentView, fs: Seq<FieldDef>, rs: Seq<Field>) -> bool {
    &&& rs.len() == fs.len()
    &&& forall|i: int| 0 <= i < fs.len() ==> field_maps(ci, fs[i], #[trigger] rs[i])
}

pub open spec fn arguments_map(ci: ComponentView, a: Seq<ArgumentDef>, r: Seq<Argument>) -> bool {
    &&& r.len() == a.len()
    &&& forall|i: int|
        0 <= i < a.len() ==> (#[trigger] r[i]).name == a[i].name && r[i].ty == ir_type_of(
            ci,
            a[i].ty,
        )
}

/// The IR method is the method of the interface of type `self_type`, its
/// types mapped.
pub open spec fn method_maps(ci: ComponentView, self_type: Type, m: MethodDef, r: Method) -> bool {
    &&& r.name == m.name
    &&& r.interface == self_type
    &&& arguments_map(ci, m.arguments@, r.arguments@)
    &&& r.return_type == opt_ir_type(ci, m.return_type)
    &&& r.throws_type == opt_ir_type(ci, m.throws_type)
    &&& r.docstring == m.docstring
}

pub open spec fn methods_map(
    ci: ComponentView,
    self_type: Type,
    ms: Seq<MethodDef>,
    rs: Seq<Method>,
) -> bool {
    &&& rs.len() == ms.len()
    &&& forall|i: int| 0 <= i < ms.len() ==> method_maps(ci, self_type, ms[i], #[trigger] rs[i])
}

/// The IR constructor is the constructor of the interface of type
/// `self_type`, its types mapped; it is the primary one where it is named `new`.
pub open spec fn constructor_maps(
    ci: ComponentView,
    self_type: Type,
    c: ConstructorDef,
    r: Constructor,
) -> bool {
    &&& r.name == c.name
    &&& r.primary == (c.name@ == "new"@)
    &&& r.interface == self_type
    &&& arguments_map(ci, c.arguments@, r.arguments@)
    &&& r.throws_type == opt_ir_type(ci, c.throws_type)
    &&& r.docstring == c.docstring
}

pub open spec fn constructors_map(
    ci: ComponentView,
    self_type: Type,
    cs: Seq<ConstructorDef>,
    rs: Seq<Constructor>,
) -> bool {
    &&& rs.len() == cs.len()
    &&& forall|i: int| 0 <= i < cs.len() ==> constructor_maps(ci, self_type, cs[i], #[trigger] rs[i])
}

pub open spec fn variant_maps(ci: ComponentView, v: VariantDef, r: Variant) -> bool {
    &&& r.name == v.name
    &&& fields_map(ci, v.fields@, r.fields@)
    &&& r.docstring == v.docstring
}

pub open spec fn variants_map(ci: ComponentView, vs: Seq<VariantDef>, rs: Seq<Variant>) -> bool {
    &&& rs.len() == vs.len()
    &&& forall|i: int| 0 <= i < vs.len() ==> variant_maps(ci, vs[i], #[trigger] rs[i])
}

/// The IR function is the function, its types mapped.
pub open spec fn function_maps(ci: ComponentView, f: FunctionDef, r: Function) -> bool {
    &&& r.name == f.name
    &&& r.module == f.module
    &&& arguments_map(ci, f.arguments@, r.arguments@)
    &&& r.return_type == opt_ir_type(ci, f.return_type)
    &&& r.throws_type == opt_ir_type(ci, f.throws_type)
    &&& r.docstring == f.docstring
}

/// The reference names the FFI function and keeps its flag.
pub open spec fn func_ref_of(f: ci::FfiFunction, r: FfiFunctionRef) -> bool {
    r.name == f.name && r.is_object_free_function == f.is_object_free_function
}

fn ffi_func_ref(f: &ci::FfiFunction) -> (res: FfiFunctionRef)
    ensures
        func_ref_of(*f, res),
{
    FfiFunctionRef { name: f.name.clone(), is_object_free_function: f.is_object_free_function }
}

/// Why a type has no definition: a named type whose definition the component
/// lacks.
pub open spec fn type_definition_error(ci: ComponentView, t: MetaType) -> Option<Seq<char>> {
    match t {
        MetaType::Object(n) => if ci.object_index(n@) is None {
            Some("missing object definition"@)
        } else {
            None
        },
        MetaType::Record(n) => if ci.record_index(n@) is None {
            Some("missing record definition"@)
        } else {
            None
        },
        MetaType::Enum(n) => if ci.enum_index(n@) is None {
            Some("missing enum definition"@)
        } else {
            None
        },
        MetaType::Error(n) => if ci.enum_index(n@) is None {
            Some("missing enum definition"@)
        } else {
            None
        },
        MetaType::CallbackInterface(n) => if ci.callback_interface_index(n@) is None {
            Some("missing callback interface definition"@)
        } else {
            None
        },
        _ => None,
    }
}

/// The IR definition of a type: builtin types are simple; optional, sequence
/// and map types carry their inner types; records, enums (errors among them),
/// objects and callback interfaces carry the first definition of their name,
/// with every type in it mapped and its docstrings.
pub open spec fn type_definition_matches(ci: ComponentView, t: MetaType, d: TypeDefinition) -> bool {
    match t {
        MetaType::Optional(inner) => d matches TypeDefinition::Optional(o) && o.inner == ir_type_of(
            ci,
            *inner,
        ) && o.self_type == ir_type_of(ci, t),
        MetaType::Sequence(inner) => d matches TypeDefinition::Sequence(s) && s.inner == ir_type_of(
            ci,
            *inner,
        ) && s.self_type == ir_type_of(ci, t),
        MetaType::MapOf(inner) => d matches TypeDefinition::MapOf(m) && m.key == ir_type_of(
            ci,
            MetaType::String,
        ) && m.value == ir_type_of(ci, *inner) && m.self_type == ir_type_of(ci, t),
        MetaType::Record(n) => {
            let def = ci.records@[ci.record_index(n@)->0];
            d matches TypeDefinition::Record(r) && r.name == def.name && r.module == def.module
                && r.remote == def.remote && fields_map(ci, def.fields@, r.fields@) && r.docstring
                == def.docstring && r.self_type == ir_type_of(ci, t)
        },
        MetaType::Enum(n) => enum_matches(ci, t, ci.enums@[ci.enum_index(n@)->0], d),
        MetaType::Error(n) => enum_matches(ci, t, ci.enums@[ci.enum_index(n@)->0], d),
        MetaType::Object(n) => {
            let def = ci.objects@[ci.object_index(n@)->0];
            d matches TypeDefinition::Interface(i) && i.name == def.name && i.module == def.module
                && i.remote == def.remote && constructors_map(
                ci,
                ir_type_of(ci, t),
                def.constructors@,
                i.constructors@,
            ) && methods_map(
                ci,
                ir_type_of(ci, t),
                def.methods@,
                i.methods@,
            ) && i.trait_impls@ == def.trait_impls@ && func_ref_of(def.ffi_func_clone, i.ffi_clone)
                && func_ref_of(def.ffi_func_free, i.ffi_free) && i.docstring == def.docstring
                && i.self_type == ir_type_of(ci, t)
        },
        MetaType::CallbackInterface(n) => {
            let def = ci.callback_interfaces@[ci.callback_interface_index(n@)->0];
            d matches TypeDefinition::CallbackInterface(c) && c.name == def.name && c.module
                == def.module && methods_map(ci, ir_type_of(ci, t), def.methods@, c.methods@)
                && c.docstring == def.docstring && c.self_type == ir_type_of(ci, t)
        },
        _ => d == TypeDefinition::Simple(ir_type_of(ci, t)),
    }
}

pub open spec fn enum_matches(
    ci: ComponentView,
    t: MetaType,
    def: crate::interface::component::EnumDef,
    d: TypeDefinition,
) -> bool {
    d matches TypeDefinition::Enum(e) && e.name == def.name && e.module == def.module && e.remote
        == def.remote && variants_map(ci, def.variants@, e.variants@) && e.non_exhaustive
        == def.non_exhaustive && e.docstring == def.docstring && e.self_type == ir_type_of(ci, t)
}

fn clone_opt_string(o: &Option<String>) -> (res: Option<String>)
    ensures
        res == *o,
{
    match o {
        Some(s) => Some(s.clone()),
        None => None,
    }
}

fn clone_strings(v: &Vec<String>) -> (res: Vec<String>)
    ensures
        res@ == v@,
{
    let mut res: Vec<String> = Vec::new();
    let mut i: usize = 0;
    while i < v.len()
        invariant
            i <= v@.len(),
            res@ == v@.take(i as int),
        decreases v.len() - i,
    {
        res.push(v[i].clone());
        i = i + 1;
        assert(res@ =~= v@.take(i as int));
    }
    assert(v@.take(i as int) =~= v@);
    res
}

fn clone_type(t: &Type) -> (res: Type)
    ensures
        res == *t,
{
    Type { kind: t.kind.clone(), ffi_type: t.ffi_type, is_used_as_error: t.is_used_as_error }
}

/// The IR node for a type of the component.
pub fn map_type(ci: &ComponentView, ty: &MetaType) -> (res: Type)
    ensures
        res == ir_type_of(*ci, *ty),
{
    let is_used_as_error = match ty.name() {
        None => false,
        Some(name) => ci.is_error(name),
    };
    Type { kind: ty.clone(), ffi_type: ty.to_ffi(), is_used_as_error }
}

fn map_opt_type(ci: &ComponentView, ty: &Option<MetaType>) -> (res: Option<Type>)
    ensures
        res == opt_ir_type(*ci, *ty),
{
    match ty {
        Some(t) => Some(map_type(ci, t)),
        None => None,
    }
}

fn map_fields(ci: &ComponentView, fields: &Vec<FieldDef>) -> (res: Vec<Field>)
    ensures
        fields_map(*ci, fields@, res@),
{
    let mut res: Vec<Field> = Vec::new();
    let mut i: usize = 0;
    while i < fields.len()
        invariant
            i <= fields@.len(),
            res@.len() == i,
            forall|j: int| 0 <= j < i ==> field_maps(*ci, fields@[j], #[trigger] res@[j]),
        decreases fields.len() - i,
    {
        let f = &fields[i];
        res.push(
            Field {
                name: f.name.clone(),
                ty: map_type(ci, &f.ty),
                docstring: clone_opt_string(&f.docstring),
            },
        );
        i = i + 1;
    }
    res
}

fn map_arguments(ci: &ComponentView, args: &Vec<ArgumentDef>) -> (res: Vec<Argument>)
    ensures
        arguments_map(*ci, args@, res@),
{
    let mut res: Vec<Argument> = Vec::new();
    let mut i: usize = 0;
    while i < args.len()
        invariant
            i <= args@.len(),
            res@.len() == i,
            forall|j: int|
                0 <= j < i ==> (#[trigger] res@[j]).name == args@[j].name && res@[j].ty
                    == ir_type_of(*ci, args@[j].ty),
        decreases args.len() - i,
    {
        let a = &args[i];
        res.push(Argument { name: a.name.clone(), ty: map_type(ci, &a.ty) });
        i = i + 1;
    }
    res
}

fn map_method(ci: &ComponentView, interface: &Type, meth: &MethodDef) -> (res: Method)
    ensures
        method_maps(*ci, *interface, *meth, res),
{
    Method {
        name: meth.name.clone(),
        interface: clone_type(interface),
        arguments: map_arguments(ci, &meth.arguments),
        return_type: map_opt_type(ci, &meth.return_type),
        throws_type: map_opt_type(ci, &meth.throws_type),
        docstring: clone_opt_string(&meth.docstring),
    }
}

fn map_methods(ci: &ComponentView, interface: &Type, methods: &Vec<MethodDef>) -> (res: Vec<Method>)
    ensures
        methods_map(*ci, *interface, methods@, res@),
{
    let mut res: Vec<Method> = Vec::new();
    let mut i: usize = 0;
    while i < methods.len()
        invariant
            i <= methods@.len(),
            res@.len() == i,
            forall|j: int| 0 <= j < i ==> method_maps(*ci, *interface, methods@[j], #[trigger] res@[j]),
        decreases methods.len() - i,
    {
        res.push(map_method(ci, interface, &methods[i]));
        i = i + 1;
    }
    res
}

fn map_constructors(
    ci: &ComponentView,
    interface: &Type,
    constructors: &Vec<ConstructorDef>,
) -> (res: Vec<Constructor>)
    ensures
        constructors_map(*ci, *interface, constructors@, res@),
{
    let mut res: Vec<Constructor> = Vec::new();
    let mut i: usize = 0;
    while i < constructors.len()
        invariant
            i <= constructors@.len(),
            res@.len() == i,
            forall|j: int|
                0 <= j < i ==> constructor_maps(*ci, *interface, constructors@[j], #[trigger] res@[j]),
        decreases constructors.len() - i,
    {
        let c = &constructors[i];
        res.push(
            Constructor {
                name: c.name.clone(),
                primary: str_eq(c.name.as_str(), "new"),
                interface: clone_type(interface),
                arguments: map_arguments(ci, &c.arguments),
                throws_type: map_opt_type(ci, &c.throws_type),
                docstring: clone_opt_string(&c.docstring),
            },
        );
        i = i + 1;
    }
    res
}

fn map_variants(ci: &ComponentView, variants: &Vec<VariantDef>) -> (res: Vec<Variant>)
    ensures
        variants_map(*ci, variants@, res@),
{
    let mut res: Vec<Variant> = Vec::new();
    let mut i: usize = 0;
    while i < variants.len()
        invariant
            i <= variants@.len(),
            res@.len() == i,
            forall|j: int| 0 <= j < i ==> variant_maps(*ci, variants@[j], #[trigger] res@[j]),
        decreases variants.len() - i,
    {
        let v = &variants[i];
        res.push(
            Variant {
                name: v.name.clone(),
                fields: map_fields(ci, &v.fields),
                docstring: clone_opt_string(&v.docstring),
            },
        );
        i = i + 1;
    }
    res
}

/// Maps a top-level function to the IR.
pub fn map_func_definition(ci: &ComponentView, func: &FunctionDef) -> (res: Function)
    ensures
        function_maps(*ci, *func, res),
{
    Function {
        name: func.name.clone(),
        module: func.module.clone(),
        arguments: map_arguments(ci, &func.arguments),
        return_type: map_opt_type(ci, &func.return_type),
        throws_type: map_opt_type(ci, &func.throws_type),
        docstring: clone_opt_string(&func.docstring),
    }
}

fn map_enum_definition(ci: &ComponentView, ty: MetaType, idx: usize) -> (res: TypeDefinition)
    requires
        idx < ci.enums@.len(),
    ensures
        enum_matches(*ci, ty, ci.enums@[idx as int], res),
{
    let def = &ci.enums[idx];
    let self_type = map_type(ci, &ty);
    TypeDefinition::Enum(
        Enum {
            name: def.name.clone(),
            module: def.module.clone(),
            remote: def.remote,
            variants: map_variants(ci, &def.variants),
            non_exhaustive: def.non_exhaustive,
            docstring: clone_opt_string(&def.docstring),
            self_type,
        },
    )
}

/// Maps a type of the component to its definition in the IR; an error where
/// the component lacks the definition of a named type.
pub fn map_type_definition(ci: &ComponentView, ty: MetaType) -> (res: Result<TypeDefinition, String>)
    ensures
        match res {
            Ok(d) => type_definition_error(*ci, ty) is None && type_definition_matches(*ci, ty, d),
            Err(e) => type_definition_error(*ci, ty) == Some(e@),
        },
{
    match &ty {
        MetaType::Optional(inner) => {
            let inner = map_type(ci, inner);
            let self_type = map_type(ci, &ty);
            Ok(TypeDefinition::Optional(OptionalType { inner, self_type }))
        },
        MetaType::Sequence(inner) => {
            let inner = map_type(ci, inner);
            let self_type = map_type(ci, &ty);
            Ok(TypeDefinition::Sequence(SequenceType { inner, self_type }))
        },
        MetaType::MapOf(inner) => {
            let key = map_type(ci, &MetaType::String);
            let value = map_type(ci, inner);
            let self_type = map_type(ci, &ty);
            Ok(TypeDefinition::MapOf(MapType { key, value, self_type }))
        },
        MetaType::Record(name) => {
            let idx = match ci.get_record_definition(name.as_str()) {
                Some(i) => i,
                None => {
                    return Err(owned("missing record definition"));
                },
            };
            proof {
                crate::interface::component::lemma_first_named_found(
                    crate::interface::component::record_names(ci.records@),
                    name@,
                    0,
                );
            }
            let def = &ci.records[idx];
            let self_type = map_type(ci, &ty);
            Ok(
                TypeDefinition::Record(
                    Record {
                        name: def.name.clone(),
                        module: def.module.clone(),
                        remote: def.remote,
                        fields: map_fields(ci, &def.fields),
                        docstring: clone_opt_string(&def.docstring),
                        self_type,
                    },
                ),
            )
        },
        MetaType::Enum(name) | MetaType::Error(name) => {
            let idx = match ci.get_enum_definition(name.as_str()) {
                Some(i) => i,
                None => {
                    return Err(owned("missing enum definition"));
                },
            };
            proof {
                crate::interface::component::lemma_first_named_found(
                    crate::interface::component::enum_names(ci.enums@),
                    name@,
                    0,
                );
            }
            Ok(map_enum_definition(ci, ty.clone(), idx))
        },
        MetaType::Object(name) => {
            let idx = match ci.get_object_definition(name.as_str()) {
                Some(i) => i,
                None => {
                    return Err(owned("missing object definition"));
                },
            };
            proof {
                crate::interface::component::lemma_first_named_found(
                    crate::interface::component::object_names(ci.objects@),
                    name@,
                    0,
                );
            }
            let def = &ci.objects[idx];
            let self_type = map_type(ci, &ty);
            let constructors = map_constructors(ci, &self_type, &def.constructors);
            let methods = map_methods(ci, &self_type, &def.methods);
            Ok(
                TypeDefinition::Interface(
                    Interface {
                        name: def.name.clone(),
                        module: def.module.clone(),
                        remote: def.remote,
                        constructors,
                        methods,
                        trait_impls: clone_strings(&def.trait_impls),
                        ffi_clone: ffi_func_ref(&def.ffi_func_clone),
                        ffi_free: ffi_func_ref(&def.ffi_func_free),
                        docstring: clone_opt_string(&def.docstring),
                        self_type,
                    },
                ),
            )
        },
        MetaType::CallbackInterface(name) => {
            let idx = match ci.get_callback_interface_definition(name.as_str()) {
                Some(i) => i,
                None => {
                    return Err(owned("missing callback interface definition"));
                },
            };
            proof {
                crate::interface::component::lemma_first_named_found(
                    crate::interface::component::callback_interface_names(ci.callback_interfaces@),
                    name@,
                    0,
                );
            }
            let def = &ci.callback_interfaces[idx];
            let self_type = map_type(ci, &ty);
            let methods = map_methods(ci, &self_type, &def.methods);
            Ok(
                TypeDefinition::CallbackInterface(
                    CallbackInterface {
                        name: def.name.clone(),
                        module: def.module.clone(),
                        methods,
                        docstring: clone_opt_string(&def.docstring),
                        self_type,
                    },
                ),
            )
        },
        _ => Ok(TypeDefinition::Simple(map_type(ci, &ty))),
    }
}


/// The IR definition is the definition of the FFI layer mapped.
pub open spec fn ffi_definition_maps(d: ci::FfiDefinition, r: FfiDefinition) -> bool {
    match d {
        ci::FfiDefinition::Struct(s) => r matches FfiDefinition::Struct(x) && struct_maps(s, x),
        ci::FfiDefinition::Function(f) => r matches FfiDefinition::Function(x) && func_maps(f, x),
        ci::FfiDefinition::CallbackFunction(c) => r matches FfiDefinition::FunctionType(x)
            && func_type_maps(c, x),
    }
}

/// Nodes that the bindings of every component use.
#[derive(Debug)]
pub struct GlobalNodes {
    pub ffi_rustbuffer_alloc: FfiFunctionRef,
    pub ffi_rustbuffer_reserve: FfiFunctionRef,
    pub ffi_rustbuffer_free: FfiFunctionRef,
    pub ffi_uniffi_contract_version: FfiFunctionRef,
    pub callback_interface_free_type: FfiType,
    pub string_type: Type,
    pub contract_version: u32,
}

/// The global nodes are those of the component.
pub open spec fn globals_of(ci: ComponentView, g: GlobalNodes) -> bool {
    &&& func_ref_of(ci.ffi_rustbuffer_alloc, g.ffi_rustbuffer_alloc)
    &&& func_ref_of(ci.ffi_rustbuffer_reserve, g.ffi_rustbuffer_reserve)
    &&& func_ref_of(ci.ffi_rustbuffer_free, g.ffi_rustbuffer_free)
    &&& func_ref_of(ci.ffi_uniffi_contract_version, g.ffi_uniffi_contract_version)
    &&& g.callback_interface_free_type matches FfiType::FunctionPointer(n) && n@ == "CallbackInterfaceFree"@
    &&& g.string_type == ir_type_of(ci, MetaType::String)
    &&& g.contract_version == ci.uniffi_contract_version
}

fn map_globals(ci: &ComponentView) -> (res: GlobalNodes)
    ensures
        globals_of(*ci, res),
{
    GlobalNodes {
        ffi_rustbuffer_alloc: ffi_func_ref(&ci.ffi_rustbuffer_alloc),
        ffi_rustbuffer_reserve: ffi_func_ref(&ci.ffi_rustbuffer_reserve),
        ffi_rustbuffer_free: ffi_func_ref(&ci.ffi_rustbuffer_free),
        ffi_uniffi_contract_version: ffi_func_ref(&ci.ffi_uniffi_contract_version),
        callback_interface_free_type: FfiType::FunctionPointer(owned("CallbackInterfaceFree")),
        string_type: map_type(ci, &MetaType::String),
        contract_version: ci.uniffi_contract_version,
    }
}

/// The bindings IR of a component.
#[derive(Debug)]
pub struct BindingsIr {
    pub namespace: String,
    pub crate_docstring: Option<String>,
    pub globals: GlobalNodes,
    pub checksum_checks: Vec<ChecksumCheck>,
    pub ffi_definitions: Vec<FfiDefinition>,
    pub type_definitions: Vec<TypeDefinition>,
    pub functions: Vec<Function>,
}

/// `defs` are the definitions of the component's types, in order, and `sorted`
/// holds them, each name once, dependencies first.
pub open spec fn types_sorted_from(
    ci: ComponentView,
    defs: Seq<TypeDefinition>,
    sorted: Seq<TypeDefinition>,
) -> bool {
    &&& defs.len() == ci.types@.len()
    &&& forall|k: int|
        0 <= k < defs.len() ==> type_definition_matches(ci, ci.types@[k], #[trigger] defs[k])
    &&& holds_exactly(last_by_name(defs), sorted)
    &&& deps_come_first(last_by_name(defs), sorted)
}

/// `defs` are the component's FFI definitions mapped, in order, and `sorted`
/// holds them, each name once, dependencies first.
pub open spec fn ffi_sorted_from(
    ci: ComponentView,
    defs: Seq<FfiDefinition>,
    sorted: Seq<FfiDefinition>,
) -> bool {
    &&& defs.len() == ci.ffi_definitions@.len()
    &&& forall|k: int|
        0 <= k < defs.len() ==> ffi_definition_maps(ci.ffi_definitions@[k], #[trigger] defs[k])
    &&& holds_exactly(last_by_name(defs), sorted)
    &&& deps_come_first(last_by_name(defs), sorted)
}

/// Every type of the component has its definition.
pub open spec fn all_types_defined(ci: ComponentView) -> bool {
    forall|k: int| 0 <= k < ci.types@.len() ==> type_definition_error(ci, #[trigger] ci.types@[k]) is None
}

/// The error of the first type of the component that lacks its definition.
pub open spec fn first_type_error(ci: ComponentView, e: Seq<char>) -> bool {
    exists|k: int|
        0 <= k < ci.types@.len() && type_definition_error(ci, #[trigger] ci.types@[k]) == Some(e)
            && forall|j: int|
            0 <= j < k ==> type_definition_error(ci, #[trigger] ci.types@[j]) is None
}

fn map_type_definitions(ci: &ComponentView) -> (res: Result<Vec<TypeDefinition>, String>)
    ensures
        match res {
            Ok(defs) => all_types_defined(*ci) && defs@.len() == ci.types@.len() && forall|k: int|
                0 <= k < defs@.len() ==> type_definition_matches(
                    *ci,
                    ci.types@[k],
                    #[trigger] defs@[k],
                ),
            Err(e) => first_type_error(*ci, e@),
        },
{
    let mut defs: Vec<TypeDefinition> = Vec::new();
    let mut i: usize = 0;
    while i < ci.types.len()
        invariant
            i <= ci.types@.len(),
            defs@.len() == i,
            forall|k: int| 0 <= k < i ==> type_definition_error(*ci, #[trigger] ci.types@[k]) is None,
            forall|k: int|
                0 <= k < i ==> type_definition_matches(*ci, ci.types@[k], #[trigger] defs@[k]),
        decreases ci.types.len() - i,
    {
        match map_type_definition(ci, ci.types[i].clone()) {
            Ok(d) => defs.push(d),
            Err(e) => {
                assert(type_definition_error(*ci, ci.types@[i as int]) == Some(e@));
                return Err(e);
            },
        }
        i = i + 1;
    }
    Ok(defs)
}

fn map_ffi_definitions(defs: Vec<ci::FfiDefinition>) -> (res: Vec<FfiDefinition>)
    requires
        forall|k: int| 0 <= k < defs@.len() ==> definition_maps_to_ir(#[trigger] defs@[k]),
    ensures
        res@.len() == defs@.len(),
        forall|k: int| 0 <= k < defs@.len() ==> ffi_definition_maps(defs@[k], #[trigger] res@[k]),
{
    let ghost orig = defs@;
    let mut defs = defs;
    let mut res: Vec<FfiDefinition> = Vec::new();
    while defs.len() > 0
        invariant
            res@.len() + defs@.len() == orig.len(),
            defs@ == orig.subrange(res@.len() as int, orig.len() as int),
            forall|k: int| 0 <= k < orig.len() ==> definition_maps_to_ir(#[trigger] orig[k]),
            forall|k: int| 0 <= k < res@.len() ==> ffi_definition_maps(orig[k], #[trigger] res@[k]),
        decreases defs.len(),
    {
        let ghost k = res@.len();
        let d = defs.remove(0);
        assert(d == orig[k as int]);
        res.push(map_ffi_definition(d));
        assert(defs@ =~= orig.subrange(res@.len() as int, orig.len() as int));
    }
    res
}

fn map_checksums(checksums: &Vec<(String, u16)>) -> (res: Vec<ChecksumCheck>)
    ensures
        res@.len() == checksums@.len(),
        forall|k: int|
            0 <= k < checksums@.len() ==> (#[trigger] res@[k]).func.name == checksums@[k].0
                && !res@[k].func.is_object_free_function && res@[k].checksum == checksums@[k].1,
{
    let mut res: Vec<ChecksumCheck> = Vec::new();
    let mut i: usize = 0;
    while i < checksums.len()
        invariant
            i <= checksums@.len(),
            res@.len() == i,
            forall|k: int|
                0 <= k < i ==> (#[trigger] res@[k]).func.name == checksums@[k].0
                    && !res@[k].func.is_object_free_function && res@[k].checksum == checksums@[k].1,
        decreases checksums.len() - i,
    {
        let (name, checksum) = &checksums[i];
        res.push(ChecksumCheck { func: name_to_ffi_func_ref(name.clone()), checksum: *checksum });
        i = i + 1;
    }
    res
}

/// Builds the bindings IR of a component: its namespace and docstring, a
/// check for each checksum, its FFI definitions mapped and its type
/// definitions, each sorted so that dependencies come first, and its
/// functions mapped, in order. An error where a type of the component lacks
/// its definition: that of the first such type.
pub fn bindings_ir_from(ci: ComponentView) -> (res: Result<BindingsIr, String>)
    requires
        forall|k: int|
            0 <= k < ci.ffi_definitions@.len() ==> definition_maps_to_ir(
                #[trigger] ci.ffi_definitions@[k],
            ),
    ensures
        match res {
            Err(e) => first_type_error(ci, e@),
            Ok(ir) => {
                &&& all_types_defined(ci)
                &&& ir.namespace == ci.namespace
                &&& ir.crate_docstring == ci.namespace_docstring
                &&& globals_of(ci, ir.globals)
                &&& ir.checksum_checks@.len() == ci.checksums@.len()
                &&& forall|k: int|
                    0 <= k < ci.checksums@.len() ==> (#[trigger] ir.checksum_checks@[k]).func.name
                        == ci.checksums@[k].0 && !ir.checksum_checks@[k].func.is_object_free_function
                        && ir.checksum_checks@[k].checksum == ci.checksums@[k].1
                &&& exists|defs: Seq<FfiDefinition>| #[trigger]
                    ffi_sorted_from(ci, defs, ir.ffi_definitions@)
                &&& exists|defs: Seq<TypeDefinition>| #[trigger]
                    types_sorted_from(ci, defs, ir.type_definitions@)
                &&& ir.functions@.len() == ci.functions@.len()
                &&& forall|k: int|
                    0 <= k < ci.functions@.len() ==> function_maps(
                        ci,
                        ci.functions@[k],
                        #[trigger] ir.functions@[k],
                    )
            },
        },
{
    let defs = match map_type_definitions(&ci) {
        Ok(defs) => defs,
        Err(e) => {
            assert(first_type_error(ci, e@));
            return Err(e);
        },
    };
    let ghost type_defs = defs@;
    let type_definitions = sort_types(defs);
    // No need to sort functions, since they don't depend on other functions.
    let mut functions: Vec<Function> = Vec::new();
    let mut i: usize = 0;
    while i < ci.functions.len()
        invariant
            i <= ci.functions@.len(),
            functions@.len() == i,
            forall|k: int|
                0 <= k < i ==> function_maps(ci, ci.functions@[k], #[trigger] functions@[k]),
        decreases ci.functions.len() - i,
    {
        functions.push(map_func_definition(&ci, &ci.functions[i]));
        i = i + 1;
    }
    let checksum_checks = map_checksums(&ci.checksums);
    let globals = map_globals(&ci);
    let ghost view = ci;
    let ComponentView { namespace, namespace_docstring, ffi_definitions, .. } = ci;
    let mapped = map_ffi_definitions(ffi_definitions);
    let ghost ffi_defs = mapped@;
    let ffi_definitions = sort_ffi_definitions(mapped);
    let ir = BindingsIr {
        namespace,
        crate_docstring: namespace_docstring,
        globals,
        checksum_checks,
        ffi_definitions,
        type_definitions,
        functions,
    };
    assert(ffi_sorted_from(view, ffi_defs, ir.ffi_definitions@));
    assert(types_sorted_from(view, type_defs, ir.type_definitions@));
    Ok(ir)
}


/// The definition of a type is named after the type: its IR name.
pub proof fn lemma_definition_named_after_type(ci: ComponentView, t: MetaType, d: TypeDefinition)
    requires
        type_definition_matches(ci, t, d),
    ensures
        d.name_view() == super::nodes::types::ir_name(t),
{
}

/// The bindings IR defines every type that the component knows, under the
/// type's IR name, and nothing else.
pub proof fn lemma_ir_defines_every_known_type(
    ci: ComponentView,
    defs: Seq<TypeDefinition>,
    sorted: Seq<TypeDefinition>,
)
    requires
        types_sorted_from(ci, defs, sorted),
    ensures
        forall|k: int|
            0 <= k < ci.types@.len() ==> #[trigger] super::sort::def_names(sorted).contains(
                super::nodes::types::ir_name(ci.types@[k]),
            ),
        forall|i: int|
            0 <= i < sorted.len() ==> exists|k: int|
                0 <= k < ci.types@.len() && #[trigger] sorted[i].name_view()
                    == super::nodes::types::ir_name(ci.types@[k]),
{
    assert forall|k: int| 0 <= k < ci.types@.len() implies #[trigger] super::sort::def_names(
        sorted,
    ).contains(super::nodes::types::ir_name(ci.types@[k])) by {
        lemma_definition_named_after_type(ci, ci.types@[k], defs[k]);
        super::sort::lemma_last_by_name_contains(defs, k);
    }
    assert forall|i: int| 0 <= i < sorted.len() implies exists|k: int|
        0 <= k < ci.types@.len() && #[trigger] sorted[i].name_view()
            == super::nodes::types::ir_name(ci.types@[k]) by {
        let n = super::sort::DependencyItem::item_name(&sorted[i]);
        assert(last_by_name(defs).contains_key(n));
        let k = super::sort::lemma_last_by_name_key(defs, n);
        lemma_definition_named_after_type(ci, ci.types@[k], defs[k]);
    }
}

} // verus!
