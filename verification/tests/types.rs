use uniffi_bindgen::interface::ffi::{FfiArgument, FfiFunction, FfiType as CiFfiType};
use uniffi_bindgen::interface::ir::nodes::{
    CallableType, FfiArgument as IrArgument, FfiCallable, FfiDefinition, FfiField,
    FfiFunction as IrFunction, FfiStruct, FfiType,
};
use uniffi_bindgen::interface::ir::sort::{dependency_names, sort_ffi_definitions, type_dependency_name};
use uniffi_bindgen::interface::types::{resolve_builtin_type, types_equal, FFIType, Type};

#[test]
fn canonical_names() {
    assert_eq!(Type::String.canonical_name(), "string");
    assert_eq!(Type::Object("Obj".into()).canonical_name(), "ObjectObj");
    assert_eq!(Type::Error("E".into()).canonical_name(), "ErrorE");
    assert_eq!(Type::Enum("E".into()).canonical_name(), "EnumE");
    let t = Type::MapOf(Box::new(Type::Sequence(Box::new(Type::Optional(Box::new(Type::Boolean))))));
    assert_eq!(t.canonical_name(), "MapSequenceOptionalbool");
    // A record named like a recursive type does not collide with it.
    let a = Type::Record("Sequencebool".into());
    let b = Type::Sequence(Box::new(Type::Boolean));
    assert_ne!(a.canonical_name(), b.canonical_name());
    assert!(!types_equal(&a, &b));
    assert!(types_equal(&t, &t.clone()));
}

#[test]
fn lowering_types() {
    assert_eq!(Type::Boolean.to_ffi(), FFIType::Int8);
    assert_eq!(Type::String.to_ffi(), FFIType::RustBuffer);
    assert_eq!(Type::Object("O".into()).to_ffi(), FFIType::UInt64);
    assert_eq!(Type::Enum("E".into()).to_ffi(), FFIType::UInt32);
    assert_eq!(Type::Error("E".into()).to_ffi(), FFIType::RustError);
    assert_eq!(Type::Optional(Box::new(Type::UInt8)).to_ffi(), FFIType::RustBuffer);
}

#[test]
fn builtin_types() {
    assert!(matches!(resolve_builtin_type("string"), Some(Type::String)));
    assert!(matches!(resolve_builtin_type("f64"), Some(Type::Float64)));
    assert!(matches!(resolve_builtin_type("u16"), Some(Type::UInt16)));
    assert!(resolve_builtin_type("bool").is_none());
    assert!(resolve_builtin_type("String").is_none());
}

fn function(name: &str, is_async: bool) -> FfiFunction {
    FfiFunction {
        name: name.into(),
        is_async,
        arguments: vec![],
        return_type: None,
        has_rust_call_status_arg: true,
        is_object_free_function: false,
    }
}

#[test]
fn ffi_function_init() {
    let mut f = function("f", false);
    f.init(Some(CiFfiType::Int32), vec![FfiArgument { name: "a".into(), type_: CiFfiType::UInt8 }]);
    assert_eq!(f.name(), "f");
    assert_eq!(f.arguments().len(), 1);
    assert_eq!(f.arguments()[0].name(), "a");
    assert!(matches!(f.return_type(), Some(CiFfiType::Int32)));
    assert!(f.has_rust_call_status_arg());
    assert!(!f.is_object_free_function());

    let mut g = function("g", true);
    g.init(Some(CiFfiType::Int32), vec![FfiArgument { name: "a".into(), type_: CiFfiType::UInt8 }]);
    assert!(g.is_async());
    assert!(g.return_type().is_none());
    let names: Vec<&str> = g.arguments().iter().map(|a| a.name()).collect();
    assert_eq!(names, vec!["a", "uniffi_executor", "uniffi_callback", "uniffi_callback_data"]);
    assert!(matches!(g.arguments()[1].type_(), CiFfiType::ForeignExecutorHandle));
    assert!(matches!(g.arguments()[2].type_(), CiFfiType::FutureCallback { return_type } if matches!(*return_type, CiFfiType::Int32)));
    assert!(matches!(g.arguments()[3].type_(), CiFfiType::FutureCallbackData));
}

fn ffi_struct(name: &str, deps: &[&str]) -> FfiDefinition {
    FfiDefinition::Struct(FfiStruct {
        name: name.into(),
        fields: deps
            .iter()
            .enumerate()
            .map(|(i, d)| FfiField {
                name: format!("f{}", i),
                ty: FfiType::Reference(Box::new(FfiType::Struct(d.to_string()))),
            })
            .collect(),
    })
}

#[test]
fn sorting_puts_dependencies_first() {
    let defs = vec![
        ffi_struct("A", &["B", "C"]),
        ffi_struct("B", &["C"]),
        ffi_struct("C", &[]),
        ffi_struct("D", &["Unknown"]),
    ];
    let sorted = sort_ffi_definitions(defs);
    let names: Vec<&str> = sorted.iter().map(|d| d.name()).collect();
    assert_eq!(names.len(), 4);
    let pos = |n: &str| names.iter().position(|x| *x == n).unwrap();
    assert!(pos("C") < pos("B"));
    assert!(pos("B") < pos("A"));
    assert!(names.contains(&"D"));
}

#[test]
fn sorting_keeps_the_last_of_a_name() {
    let defs = vec![ffi_struct("A", &[]), ffi_struct("A", &["B"]), ffi_struct("B", &[])];
    let sorted = sort_ffi_definitions(defs);
    assert_eq!(sorted.len(), 2);
    assert_eq!(sorted[0].name(), "B");
    assert!(matches!(&sorted[1], FfiDefinition::Struct(s) if s.fields.len() == 1));
    // Cycles do not loop forever: each definition still comes out once.
    let sorted = sort_ffi_definitions(vec![ffi_struct("X", &["Y"]), ffi_struct("Y", &["X"])]);
    assert_eq!(sorted.len(), 2);
}

#[test]
fn ffi_callables_and_callable_types() {
    let f = IrFunction {
        name: "f".into(),
        is_async: false,
        arguments: vec![IrArgument { name: "a".into(), ty: FfiType::Int8 }],
        return_type: Some(FfiType::Handle),
        has_rust_call_status_arg: true,
        is_object_free_function: false,
    };
    assert_eq!(FfiCallable::arguments(&f).len(), 1);
    assert!(matches!(FfiCallable::return_type(&f), Some(FfiType::Handle)));
    assert!(CallableType::Function.is_function());
    assert!(CallableType::Method.is_method());
    assert!(CallableType::Constructor { primary: true }.is_primary_constructor());
    assert!(CallableType::Constructor { primary: false }.is_alternate_constructor());
    assert!(!CallableType::Constructor { primary: false }.is_primary_constructor());
    assert!(CallableType::Constructor { primary: true }.is_constructor());
}

#[test]
fn dependency_names_of_definitions() {
    use_dependency_names();
}

fn use_dependency_names() {
    let f = FfiDefinition::Function(IrFunction {
        name: "f".into(),
        is_async: false,
        arguments: vec![
            IrArgument { name: "a".into(), ty: FfiType::MutReference(Box::new(FfiType::Struct("S".into()))) },
            IrArgument { name: "b".into(), ty: FfiType::UInt8 },
        ],
        return_type: Some(FfiType::FunctionPointer("Cb".into())),
        has_rust_call_status_arg: false,
        is_object_free_function: false,
    });
    assert_eq!(dependency_names(&f), vec!["S".to_string(), "Cb".to_string()]);
    assert_eq!(type_dependency_name(&FfiType::Handle), None);
    assert_eq!(
        type_dependency_name(&FfiType::Reference(Box::new(FfiType::Struct("T".into())))),
        Some("T".to_string())
    );
}
