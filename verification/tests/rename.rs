use uniffi_bindgen::interface::component::{
    ArgumentDef, CallbackInterfaceDef, ComponentView, EnumDef, FieldDef, FunctionDef, ObjectDef, RecordDef,
    VariantDef,
};
use uniffi_bindgen::interface::ffi::FfiFunction;
use uniffi_bindgen::interface::rename::rename;
use uniffi_bindgen::interface::types::Type;
use uniffi_bindgen::toml_table::TomlTable;

fn empty_ci() -> ComponentView {
    ComponentView {
        namespace: "test".into(),
        namespace_docstring: None,
        records: vec![],
        enums: vec![],
        objects: vec![],
        callback_interfaces: vec![],
        functions: vec![],
        ffi_definitions: vec![],
        types: vec![],
        checksums: vec![],
        errors: vec![],
        ffi_rustbuffer_alloc: FfiFunction::default(),
        ffi_rustbuffer_reserve: FfiFunction::default(),
        ffi_rustbuffer_free: FfiFunction::default(),
        ffi_uniffi_contract_version: FfiFunction::default(),
        uniffi_contract_version: 0,
    }
}

fn optional(t: Type) -> Type {
    Type::Optional(Box::new(t))
}

fn create_test_ci() -> ComponentView {
    let mut ci = empty_ci();
    // A record with an optional `OldEnum` field.
    ci.records.push(RecordDef {
        name: "OldRecord".into(),
        module: "test_crate".into(),
        remote: false,
        fields: vec![FieldDef {
            name: "field".into(),
            ty: optional(Type::Enum("OldEnum".into())),
            docstring: None,
        }],
        docstring: None,
    });
    ci.objects.push(ObjectDef {
        name: "OldObject".into(),
        module: "test_crate".into(),
        remote: false,
        constructors: vec![],
        methods: vec![],
        trait_impls: vec![],
        ffi_func_clone: FfiFunction::default(),
        ffi_func_free: FfiFunction::default(),
        docstring: None,
    });
    // An enum with an optional `OldRecord` variant field.
    ci.enums.push(EnumDef {
        name: "OldEnum".into(),
        module: "test_crate".into(),
        remote: false,
        variants: vec![VariantDef {
            name: "WithRecord".into(),
            fields: vec![FieldDef {
                name: "record".into(),
                ty: optional(Type::Record("OldRecord".into())),
                docstring: None,
            }],
            docstring: None,
        }],
        non_exhaustive: false,
        docstring: None,
    });
    // A function with an optional `OldRecord` argument.
    ci.functions.push(FunctionDef {
        name: "old_function".into(),
        module: "test_crate".into(),
        arguments: vec![ArgumentDef { name: "arg".into(), ty: optional(Type::Record("OldRecord".into())) }],
        return_type: None,
        throws_type: None,
        docstring: None,
    });
    ci
}

#[test]
fn test_dot_notation_renaming() {
    let ci = create_test_ci();

    // Test dot notation for field and variant renaming
    let toml_str = r#"
    OldRecord = "NewRecord"
    "OldRecord.field" = "new_field"
    OldEnum = "NewEnum"
    "OldEnum.WithRecord" = "WithNewRecord"
    "OldEnum.WithRecord.record" = "new_record"
    old_function = "new_function"
    "old_function.arg" = "new_arg"
    "#;

    let renames = TomlTable::parse(toml_str).unwrap();
    let renames_map = vec![("test_crate".to_string(), renames)];
    let ci = rename(ci, &renames_map, "test_crate");

    // Check that types were renamed
    assert_eq!(ci.records[0].name, "NewRecord");
    assert_eq!(ci.enums[0].name, "NewEnum");
    assert_eq!(ci.functions[0].name, "new_function");

    // Check that field was renamed
    assert_eq!(ci.records[0].fields[0].name, "new_field");

    // Check that enum variant was renamed
    assert_eq!(ci.enums[0].variants[0].name, "WithNewRecord");

    // Check that variant field was renamed
    assert_eq!(ci.enums[0].variants[0].fields[0].name, "new_record");

    // Check that function argument was renamed
    assert_eq!(ci.functions[0].arguments[0].name, "new_arg");

    // The named types that types refer to are renamed too.
    assert_eq!(ci.records[0].fields[0].ty.canonical_name(), "OptionalEnumNewEnum");
    assert_eq!(ci.functions[0].arguments[0].ty.canonical_name(), "OptionalRecordNewRecord");
    // The object has no rename.
    assert_eq!(ci.objects[0].name, "OldObject");
}

#[test]
fn test_callback_interface_renaming() {
    let mut ci = empty_ci();
    ci.callback_interfaces.push(CallbackInterfaceDef {
        name: "OldTrait".into(),
        module: "test_crate".into(),
        methods: vec![],
        docstring: None,
    });

    // Test callback interface renaming
    let toml_str = r#"
    OldTrait = "NewTrait"
    "#;

    let renames = TomlTable::parse(toml_str).unwrap();
    let renames_map = vec![("test_crate".to_string(), renames)];
    let ci = rename(ci, &renames_map, "test_crate");

    // Check that callback interface was renamed
    assert_eq!(ci.callback_interfaces[0].name, "NewTrait");
}

#[test]
fn renames_of_another_crate_or_of_no_string_do_not_apply() {
    let ci = create_test_ci();
    let renames = vec![
        ("other_crate".to_string(), TomlTable::parse("OldRecord = \"Nope\"").unwrap()),
        ("test_crate".to_string(), TomlTable::parse("OldObject = 3\n\"OldObject.new\" = \"make\"").unwrap()),
    ];
    let ci = rename(ci, &renames, "test_crate::inner");
    assert_eq!(ci.records[0].name, "OldRecord");
    assert_eq!(ci.objects[0].name, "OldObject");
    assert_eq!(ci.namespace, "test");
}
