use uniffi_bindgen::codegen::codetype::NewCodeType;
use uniffi_bindgen::codegen::template::TemplateRenderSet;
use uniffi_bindgen::interface::component::{
    ArgumentDef, CallbackInterfaceDef, ComponentView, ConstructorDef, EnumDef, FieldDef, FunctionDef, MethodDef,
    ObjectDef, RecordDef, VariantDef,
};
use uniffi_bindgen::interface::exclude::apply_exclusions;
use uniffi_bindgen::interface::ffi::{FfiDefinition as CiFfiDefinition, FfiFunction, FfiType as CiFfiType};
use uniffi_bindgen::interface::ir::from_ci::{bindings_ir_from, map_type, map_type_definition};
use uniffi_bindgen::interface::ir::nodes::types::ir_type_name;
use uniffi_bindgen::interface::ir::nodes::{FfiDefinition, FfiType, TypeDefinition};
use uniffi_bindgen::interface::ir::sort::{sort_types, type_dependency_names};
use uniffi_bindgen::interface::types::{FFIType, Type};
use uniffi_bindgen::bindings::swift::gen_swift::filters::type_swift;
use uniffi_bindgen::bindings::udl::type_udl;

fn field(name: &str, ty: Type) -> FieldDef {
    FieldDef { name: name.into(), ty, docstring: None }
}

fn method(name: &str, args: Vec<(&str, Type)>, ret: Option<Type>, throws: Option<Type>) -> MethodDef {
    MethodDef {
        name: name.into(),
        arguments: args.into_iter().map(|(n, t)| ArgumentDef { name: n.into(), ty: t }).collect(),
        return_type: ret,
        throws_type: throws,
        docstring: None,
    }
}

fn ffi_fn(name: &str, free: bool) -> FfiFunction {
    FfiFunction {
        name: name.into(),
        is_async: false,
        arguments: vec![],
        return_type: None,
        has_rust_call_status_arg: true,
        is_object_free_function: free,
    }
}

fn seq(t: Type) -> Type {
    Type::Sequence(Box::new(t))
}

fn component() -> ComponentView {
    ComponentView {
        namespace: "geometry".into(),
        namespace_docstring: Some("Shapes and points.".into()),
        records: vec![RecordDef {
            name: "Point".into(),
            module: "geometry".into(),
            remote: false,
            fields: vec![field("x", Type::Float64), field("tags", seq(Type::String))],
            docstring: Some("A point.".into()),
        }],
        enums: vec![
            EnumDef {
                name: "Shape".into(),
                module: "geometry".into(),
                remote: false,
                variants: vec![
                    VariantDef { name: "Dot".into(), fields: vec![field("at", Type::Record("Point".into()))], docstring: Some("A dot.".into()) },
                    VariantDef { name: "Empty".into(), fields: vec![], docstring: None },
                ],
                non_exhaustive: true,
                docstring: None,
            },
            EnumDef {
                name: "GeoError".into(),
                module: "geometry".into(),
                remote: false,
                variants: vec![VariantDef { name: "Bad".into(), fields: vec![], docstring: None }],
                non_exhaustive: false,
                docstring: None,
            },
        ],
        objects: vec![ObjectDef {
            name: "Canvas".into(),
            module: "geometry".into(),
            remote: true,
            constructors: vec![
                ConstructorDef { name: "new".into(), arguments: vec![], throws_type: None, docstring: None },
                ConstructorDef {
                    name: "with_size".into(),
                    arguments: vec![ArgumentDef { name: "size".into(), ty: Type::UInt32 }],
                    throws_type: Some(Type::Error("GeoError".into())),
                    docstring: Some("Sized.".into()),
                },
            ],
            methods: vec![method(
                "draw",
                vec![("shape", Type::Enum("Shape".into()))],
                Some(Type::Boolean),
                Some(Type::Error("GeoError".into())),
            )],
            trait_impls: vec!["Drawable".into()],
            ffi_func_clone: ffi_fn("uniffi_geometry_fn_clone_canvas", false),
            ffi_func_free: ffi_fn("uniffi_geometry_fn_free_canvas", true),
            docstring: Some("Where shapes go.".into()),
        }],
        callback_interfaces: vec![CallbackInterfaceDef {
            name: "Listener".into(),
            module: "geometry".into(),
            methods: vec![method("on_point", vec![("p", Type::Record("Point".into()))], None, None)],
            docstring: None,
        }],
        functions: vec![FunctionDef {
            name: "origin".into(),
            module: "geometry".into(),
            arguments: vec![],
            return_type: Some(Type::Record("Point".into())),
            throws_type: None,
            docstring: Some("The origin.".into()),
        }],
        ffi_definitions: vec![CiFfiDefinition::Function(FfiFunction {
            name: "uniffi_geometry_fn_origin".into(),
            is_async: false,
            arguments: vec![],
            return_type: Some(CiFfiType::Int32),
            has_rust_call_status_arg: true,
            is_object_free_function: false,
        })],
        types: vec![
            Type::Enum("Shape".into()),
            Type::Record("Point".into()),
            seq(Type::String),
            Type::String,
        ],
        checksums: vec![("uniffi_geometry_checksum_func_origin".into(), 4242)],
        errors: vec!["GeoError".into()],
        ffi_rustbuffer_alloc: ffi_fn("ffi_geometry_rustbuffer_alloc", false),
        ffi_rustbuffer_reserve: ffi_fn("ffi_geometry_rustbuffer_reserve", false),
        ffi_rustbuffer_free: ffi_fn("ffi_geometry_rustbuffer_free", false),
        ffi_uniffi_contract_version: ffi_fn("ffi_geometry_uniffi_contract_version", false),
        uniffi_contract_version: 29,
    }
}

#[test]
fn mapping_type_definitions() {
    let ci = component();
    match map_type_definition(&ci, Type::Record("Point".into())).unwrap() {
        TypeDefinition::Record(r) => {
            assert_eq!(r.name, "Point");
            assert_eq!(r.docstring.as_deref(), Some("A point."));
            assert_eq!(r.fields.len(), 2);
            assert_eq!(r.fields[1].name, "tags");
            assert_eq!(r.fields[1].ty.canonical_name(), "SequenceString");
            assert_eq!(r.fields[1].ty.ffi_type, FFIType::RustBuffer);
            assert_eq!(r.self_type.canonical_name(), "TypePoint");
        },
        other => panic!("unexpected {other:?}"),
    }
    match map_type_definition(&ci, Type::Enum("Shape".into())).unwrap() {
        TypeDefinition::Enum(e) => {
            assert_eq!(e.variants.len(), 2);
            assert_eq!(e.variants[0].docstring.as_deref(), Some("A dot."));
            assert!(e.non_exhaustive);
            assert!(!e.self_type.is_used_as_error);
        },
        other => panic!("unexpected {other:?}"),
    }
    match map_type_definition(&ci, Type::Error("GeoError".into())).unwrap() {
        TypeDefinition::Enum(e) => {
            assert_eq!(e.name, "GeoError");
            assert!(e.self_type.is_used_as_error);
            assert_eq!(e.self_type.canonical_name(), "TypeGeoError");
        },
        other => panic!("unexpected {other:?}"),
    }
    match map_type_definition(&ci, Type::Object("Canvas".into())).unwrap() {
        TypeDefinition::Interface(i) => {
            assert!(i.remote);
            assert_eq!(i.docstring.as_deref(), Some("Where shapes go."));
            assert_eq!(i.trait_impls, vec!["Drawable".to_string()]);
            assert_eq!(i.methods[0].name, "draw");
            assert_eq!(i.methods[0].interface.canonical_name(), "TypeCanvas");
            assert!(i.methods[0].throws_type.as_ref().unwrap().is_used_as_error);
            assert_eq!(i.self_type.ffi_type, FFIType::UInt64);
            assert_eq!(i.ffi_free.name, "uniffi_geometry_fn_free_canvas");
            assert!(i.ffi_free.is_object_free_function);
            assert!(!i.ffi_clone.is_object_free_function);
            assert_eq!(i.constructors.len(), 2);
            assert!(i.constructors[0].primary);
            assert!(!i.constructors[1].primary);
            assert_eq!(i.constructors[1].arguments[0].ty.canonical_name(), "UInt32");
            assert_eq!(i.constructors[1].interface.canonical_name(), "TypeCanvas");
            assert_eq!(i.constructors[1].docstring.as_deref(), Some("Sized."));
        },
        other => panic!("unexpected {other:?}"),
    }
    match map_type_definition(&ci, Type::CallbackInterface("Listener".into())).unwrap() {
        TypeDefinition::CallbackInterface(c) => {
            assert_eq!(c.name, "Listener");
            assert_eq!(c.methods[0].arguments[0].name, "p");
            assert_eq!(c.self_type.canonical_name(), "TypeListener");
        },
        other => panic!("unexpected {other:?}"),
    }
    match map_type_definition(&ci, Type::MapOf(Box::new(Type::UInt8))).unwrap() {
        TypeDefinition::MapOf(m) => {
            assert_eq!(m.key.canonical_name(), "String");
            assert_eq!(m.value.canonical_name(), "UInt8");
            assert_eq!(m.self_type.canonical_name(), "MapStringUInt8");
        },
        other => panic!("unexpected {other:?}"),
    }
    assert!(matches!(map_type_definition(&ci, Type::Timestamp).unwrap(), TypeDefinition::Simple(t) if t.canonical_name() == "Timestamp"));
    // A map from strings to optional records, as the IR names it.
    let t = Type::MapOf(Box::new(Type::Optional(Box::new(Type::Record("Foo".into())))));
    assert_eq!(ir_type_name(&t), "MapStringOptionalTypeFoo");
    assert_eq!(ir_type_name(&Type::Int16), "Int16");
    assert_eq!(ir_type_name(&Type::Float32), "Float32");
}

#[test]
fn missing_type_definitions() {
    let ci = component();
    let err = |t: Type| map_type_definition(&ci, t).unwrap_err();
    assert_eq!(err(Type::Record("Nope".into())), "missing record definition");
    assert_eq!(err(Type::Enum("Nope".into())), "missing enum definition");
    assert_eq!(err(Type::Error("Nope".into())), "missing enum definition");
    assert_eq!(err(Type::Object("Nope".into())), "missing object definition");
    assert_eq!(err(Type::CallbackInterface("Nope".into())), "missing callback interface definition");
}

#[test]
fn dependencies_of_type_definitions() {
    let ci = component();
    let deps = |t: Type| type_dependency_names(&map_type_definition(&ci, t).unwrap());
    assert!(deps(Type::String).is_empty());
    assert_eq!(deps(seq(Type::String)), vec!["String"]);
    assert_eq!(deps(Type::MapOf(Box::new(Type::UInt8))), vec!["String", "UInt8"]);
    assert_eq!(deps(Type::Record("Point".into())), vec!["Float64", "SequenceString"]);
    assert_eq!(deps(Type::Enum("Shape".into())), vec!["TypePoint"]);
    assert_eq!(
        deps(Type::Object("Canvas".into())),
        vec!["TypeDrawable", "TypeShape", "Boolean", "TypeGeoError"]
    );
    assert_eq!(deps(Type::CallbackInterface("Listener".into())), vec!["TypePoint"]);
}

#[test]
fn sorting_type_definitions() {
    let ci = component();
    let defs: Vec<TypeDefinition> = ci
        .types
        .iter()
        .map(|t| map_type_definition(&ci, t.clone()).unwrap())
        .collect();
    let names: Vec<String> = sort_types(defs).iter().map(|d| d.canonical_name()).collect();
    // A dependency comes before what depends on it; `Float64` has no definition here.
    assert_eq!(names, vec!["String", "SequenceString", "TypePoint", "TypeShape"]);
    // Of two definitions of one name, the last is kept.
    let a = map_type_definition(&ci, Type::UInt8).unwrap();
    let b = map_type_definition(&ci, Type::UInt8).unwrap();
    assert_eq!(sort_types(vec![a, b]).len(), 1);
}

#[test]
fn building_the_bindings_ir() {
    let ir = bindings_ir_from(component()).unwrap();
    assert_eq!(ir.namespace, "geometry");
    assert_eq!(ir.crate_docstring.as_deref(), Some("Shapes and points."));
    assert_eq!(ir.globals.contract_version, 29);
    assert_eq!(ir.globals.ffi_rustbuffer_free.name, "ffi_geometry_rustbuffer_free");
    assert!(matches!(&ir.globals.callback_interface_free_type, FfiType::FunctionPointer(n) if n == "CallbackInterfaceFree"));
    assert_eq!(ir.globals.string_type.canonical_name(), "String");
    assert_eq!(ir.checksum_checks.len(), 1);
    assert_eq!(ir.checksum_checks[0].func.name, "uniffi_geometry_checksum_func_origin");
    assert_eq!(ir.checksum_checks[0].checksum, 4242);
    assert_eq!(ir.ffi_definitions.len(), 1);
    assert!(matches!(&ir.ffi_definitions[0], FfiDefinition::Function(f) if f.name == "uniffi_geometry_fn_origin"));
    let names: Vec<String> = ir.type_definitions.iter().map(|d| d.canonical_name()).collect();
    assert_eq!(names, vec!["String", "SequenceString", "TypePoint", "TypeShape"]);
    assert_eq!(ir.functions.len(), 1);
    assert_eq!(ir.functions[0].docstring.as_deref(), Some("The origin."));
    assert_eq!(ir.functions[0].return_type.as_ref().unwrap().canonical_name(), "TypePoint");

    let mut broken = component();
    broken.types.push(Type::Object("Missing".into()));
    broken.types.push(Type::Record("AlsoMissing".into()));
    assert_eq!(bindings_ir_from(broken).unwrap_err(), "missing object definition");
}

#[test]
fn callback_interface_and_time_types() {
    let cb = Type::CallbackInterface("Listener".into());
    assert_eq!(cb.canonical_name(), "CallbackInterfaceListener");
    assert_eq!(cb.to_ffi(), FFIType::UInt64);
    assert_eq!(cb.name(), Some("Listener"));
    assert_eq!(Type::Timestamp.canonical_name(), "Timestamp");
    assert_eq!(Type::Duration.to_ffi(), FFIType::RustBuffer);
    assert_eq!(type_swift(&cb), "Listener");
    assert_eq!(type_swift(&Type::Timestamp), "Date");
    assert_eq!(type_swift(&Type::Duration), "TimeInterval");
    assert_eq!(type_udl(&cb), "Listener");
    assert_eq!(NewCodeType::canonical_name(&cb), "CallbackInterfaceListener");
    assert_eq!(NewCodeType::ffi_type(&cb), FFIType::UInt64);
    assert_eq!(NewCodeType::canonical_name(&Type::Duration), "Duration");
    let ci = component();
    assert!(!map_type(&ci, &cb).is_used_as_error);
}

#[test]
fn template_render_set_contains() {
    let mut set = TemplateRenderSet::new();
    assert!(!set.contains(7));
    assert!(set.insert(7, "seven".into()));
    assert!(set.contains(7));
    assert!(!set.contains(8));
    assert!(!set.insert(7, "again".into()));
}

#[test]
fn excluding_items() {
    let exclusions: Vec<String> =
        vec!["Point".into(), "Canvas.with_size".into(), "Listener.on_point".into(), "origin".into(), "Nothing".into()];
    let ci = apply_exclusions(component(), &exclusions);
    assert!(ci.records.is_empty());
    assert!(ci.functions.is_empty());
    assert_eq!(ci.enums.len(), 2);
    assert_eq!(ci.objects.len(), 1);
    assert_eq!(ci.objects[0].constructors.len(), 1);
    assert_eq!(ci.objects[0].constructors[0].name, "new");
    assert_eq!(ci.objects[0].methods.len(), 1);
    assert!(ci.callback_interfaces[0].methods.is_empty());
    let names: Vec<String> = ci.types.iter().map(|t| t.canonical_name()).collect();
    assert_eq!(names, vec!["EnumShape", "Sequencestring", "string"]);
    assert_eq!(ci.namespace, "geometry");
    // Excluding the object itself removes it, and its type.
    let mut with_object = component();
    with_object.types.push(Type::Object("Canvas".into()));
    let ci = apply_exclusions(with_object, &vec!["Canvas".into()]);
    assert!(ci.objects.is_empty());
    assert_eq!(ci.types.len(), 4);
}
