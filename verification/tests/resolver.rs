use uniffi_bindgen::interface::enum_::{check_consistency, EnumDescr};
use uniffi_bindgen::interface::types::resolver::TypeExpr;
use uniffi_bindgen::interface::types::{Type, TypeUniverse};

fn add(types: &mut TypeUniverse, name: &str, t: Type) -> Result<(), String> {
    types.add_type_definition(name, t).map_err(|e| e.message())
}

#[test]
fn test_named_type_resolution() -> Result<(), String> {
    let mut types = TypeUniverse::new();
    add(&mut types, "TestRecord", Type::Record("TestRecord".into()))?;
    assert_eq!(types.iter_known_types().len(), 1);

    let t = types.resolve_type_text("TestRecord").unwrap().unwrap();
    assert!(matches!(t, Type::Record(nm) if nm == "TestRecord"));
    assert_eq!(types.iter_known_types().len(), 1);

    let t = types.resolve_type_text("TestRecord?").unwrap().unwrap();
    assert!(matches!(t, Type::Optional(_)));
    // Matching the Box<T> is hard, use names as a convenient workaround.
    assert_eq!(t.canonical_name(), "OptionalRecordTestRecord");
    assert_eq!(types.iter_known_types().len(), 2);
    Ok(())
}

#[test]
fn test_resolving_optional_type_adds_inner_type() -> Result<(), String> {
    let mut types = TypeUniverse::new();
    assert_eq!(types.iter_known_types().len(), 0);
    let t = types.resolve_type_text("u32?").unwrap().unwrap();
    assert_eq!(t.canonical_name(), "Optionalu32");
    assert_eq!(types.iter_known_types().len(), 2);
    assert!(types.iter_known_types().iter().find(|t| t.canonical_name() == "u32").is_some());
    assert!(types
        .iter_known_types()
        .iter()
        .find(|t| t.canonical_name() == "Optionalu32")
        .is_some());
    Ok(())
}

#[test]
fn test_resolving_sequence_type_adds_inner_type() -> Result<(), String> {
    let mut types = TypeUniverse::new();
    assert_eq!(types.iter_known_types().len(), 0);
    let t = types.resolve_type_text("sequence<string>").unwrap().unwrap();
    assert_eq!(t.canonical_name(), "Sequencestring");
    assert_eq!(types.iter_known_types().len(), 2);
    assert!(types
        .iter_known_types()
        .iter()
        .find(|t| t.canonical_name() == "Sequencestring")
        .is_some());
    assert!(types.iter_known_types().iter().find(|t| t.canonical_name() == "string").is_some());
    Ok(())
}

#[test]
fn test_resolving_map_type_adds_string_and_inner_type() -> Result<(), String> {
    let mut types = TypeUniverse::new();
    assert_eq!(types.iter_known_types().len(), 0);
    let t = types.resolve_type_text("record<DOMString, float>").unwrap().unwrap();
    assert_eq!(t.canonical_name(), "Mapf32");
    assert_eq!(types.iter_known_types().len(), 3);
    assert!(types.iter_known_types().iter().find(|t| t.canonical_name() == "Mapf32").is_some());
    assert!(types.iter_known_types().iter().find(|t| t.canonical_name() == "string").is_some());
    assert!(types.iter_known_types().iter().find(|t| t.canonical_name() == "f32").is_some());
    Ok(())
}

#[test]
fn test_error_on_unknown_type() -> Result<(), String> {
    let mut types = TypeUniverse::new();
    add(&mut types, "TestRecord", Type::Record("TestRecord".into()))?;
    // Oh no, someone made a typo in the type-o...
    let err = types.resolve_type_text("TestRecrd").unwrap().unwrap_err();
    assert_eq!(err.to_string(), "unknown type reference: TestRecrd");
    Ok(())
}

#[test]
fn test_error_on_union_type() -> Result<(), String> {
    let mut types = TypeUniverse::new();
    add(&mut types, "TestRecord", Type::Record("TestRecord".into()))?;
    let err = types.resolve_type_text("(TestRecord or u32)").unwrap().unwrap_err();
    assert_eq!(err.to_string(), "no support for union types yet");
    Ok(())
}

#[test]
fn resolving_rejects_unsupported_types() {
    let mut types = TypeUniverse::new();
    let err = types.resolve_type_text("any").unwrap().unwrap_err();
    assert_eq!(err, "no support for `any` types");
    let err = types.resolve_type_text("unrestricted float").unwrap().unwrap_err();
    assert_eq!(err, "we don't support `unrestricted float`");
    let err = types.resolve_type_text("unrestricted double").unwrap().unwrap_err();
    assert_eq!(err, "we don't support `unrestricted double`");
    let err = types.resolve_type_text("long").unwrap().unwrap_err();
    assert!(err.starts_with("WebIDL integer types not implemented ("));
    assert!(err.ends_with("); consider using u8, u16, u32 or u64"));
    let err = types.resolve_type_text("DOMString").unwrap().unwrap_err();
    assert!(err.starts_with("no support for type "));
    // Failures make no type known.
    assert_eq!(types.iter_known_types().len(), 0);
}

#[test]
fn resolving_nested_types_makes_each_known_once() {
    let mut types = TypeUniverse::new();
    let t = types.resolve_type_text("sequence<u8?>?").unwrap().unwrap();
    assert_eq!(t.canonical_name(), "OptionalSequenceOptionalu8");
    let names: Vec<String> = types.iter_known_types().iter().map(|t| t.canonical_name()).collect();
    assert_eq!(names, vec!["u8", "Optionalu8", "SequenceOptionalu8", "OptionalSequenceOptionalu8"]);
    // Resolving it again changes nothing.
    let again = types.resolve_type_text("sequence<u8?>?").unwrap().unwrap();
    assert!(again == t);
    assert_eq!(types.iter_known_types().len(), 4);
    let t = types.resolve_type_text("boolean").unwrap().unwrap();
    assert!(matches!(t, Type::Boolean));
    let t = types.resolve_type_text("double").unwrap().unwrap();
    assert!(matches!(t, Type::Float64));
}

#[test]
fn resolving_a_parsed_expression() {
    let mut types = TypeUniverse::new();
    let expr = TypeExpr::Sequence {
        inner: Box::new(TypeExpr::Identifier { name: "i64".into(), nullable: false }),
        nullable: false,
    };
    let t = types.resolve_type_expression(&expr).unwrap();
    assert_eq!(t.canonical_name(), "Sequencei64");
    assert!(types.resolve_type_text("").is_none());
}

#[test]
fn type_definitions_and_their_errors() {
    let mut types = TypeUniverse::new();
    let err = types.add_type_definition("u8", Type::Record("X".into())).unwrap_err();
    assert_eq!(err.message(), "please don't shadow builtin types (u8, RecordX)");
    assert_eq!(types.iter_known_types().len(), 0);
    types.add_type_definition("Alias", Type::UInt32).unwrap();
    let err = types.add_type_definition("Alias", Type::String).unwrap_err();
    assert_eq!(err.message(), "Conflicting type definition for \"Alias\"");
    // The conflicting type became known all the same.
    assert_eq!(types.iter_known_types().len(), 2);
    assert!(types.contains(&Type::String));
    assert!(matches!(types.get_type_definition("Alias"), Some(Type::UInt32)));
    assert!(types.get_type_definition("Other").is_none());
    let t = types.resolve_type_text("Alias").unwrap().unwrap();
    assert!(matches!(t, Type::UInt32));
}

#[test]
fn test_error_on_unresolved_typedef() {
    const UDL: &str = r#"
        // Sorry, no forward declarations yet...
        typedef TestRecord Alias;

        dictionary TestRecord {
            u32 field;
        };
    "#;
    let mut types = TypeUniverse::new();
    let err = types.add_type_definitions_from_udl(UDL).unwrap().unwrap_err();
    assert_eq!(err.to_string(), "unknown type reference: TestRecord");
}

#[test]
fn finding_the_types_a_udl_defines() {
    const UDL: &str = r#"
        namespace test {};
        interface TestObject {};
        dictionary TestRecord { u32 field; };
        enum TestItems { "one", "two" };
        [Error]
        enum TestError { "ErrorOne", "ErrorTwo" };
        typedef TestObject Alias;
        typedef sequence<TestRecord>? Records;
        callback interface TestCallbacks { string hello(u32 count); };
        [Enum]
        interface TestShape {};
    "#;
    let mut types = TypeUniverse::new();
    types.add_type_definitions_from_udl(UDL).unwrap().unwrap();
    assert!(matches!(types.get_type_definition("TestObject"), Some(Type::Object(nm)) if nm == "TestObject"));
    assert!(matches!(types.get_type_definition("TestRecord"), Some(Type::Record(nm)) if nm == "TestRecord"));
    assert!(matches!(types.get_type_definition("TestItems"), Some(Type::Enum(nm)) if nm == "TestItems"));
    assert!(matches!(types.get_type_definition("TestError"), Some(Type::Error(nm)) if nm == "TestError"));
    assert!(matches!(types.get_type_definition("Alias"), Some(Type::Object(nm)) if nm == "TestObject"));
    assert_eq!(
        types.get_type_definition("Records").unwrap().canonical_name(),
        "OptionalSequenceRecordTestRecord"
    );
    assert!(matches!(types.get_type_definition("TestCallbacks"), Some(Type::CallbackInterface(nm)) if nm == "TestCallbacks"));
    assert!(matches!(types.get_type_definition("TestShape"), Some(Type::Enum(nm)) if nm == "TestShape"));
    assert!(types.get_type_definition("test").is_none());
    assert!(types.add_type_definitions_from_udl("this is not UDL").is_none());
}

#[test]
fn finding_errors_in_definitions() {
    let mut types = TypeUniverse::new();
    let err = types
        .add_type_definitions_from_udl("[ByRef] enum E { \"a\" };")
        .unwrap()
        .unwrap_err();
    assert_eq!(err, "ByRef not supported for enums");
    let err = types
        .add_type_definitions_from_udl("dictionary D {}; interface D {};")
        .unwrap()
        .unwrap_err();
    assert_eq!(err, "Conflicting type definition for \"D\"");
    let err = types.add_type_definitions_from_udl("[Foo] typedef u8 Byte;").unwrap().unwrap_err();
    assert_eq!(err, "no typedef attributes are currently supported");
    let err = types.add_type_definitions_from_udl("dictionary u32 {};").unwrap().unwrap_err();
    assert_eq!(err, "please don't shadow builtin types (u32, Recordu32)");
    let err = types
        .add_type_definitions_from_udl("[Foo] callback interface C { void f(); };")
        .unwrap()
        .unwrap_err();
    assert_eq!(err, "no typedef attributes are currently supported");
    let err = types
        .add_type_definitions_from_udl("[Threadsafe, Enum] interface I {};")
        .unwrap()
        .unwrap_err();
    assert_eq!(err, "conflicting attributes on interface definition");
    let err = types.add_type_definitions_from_udl("[Error] interface J {};").unwrap().unwrap_err();
    assert_eq!(err, "Error not supported for interface definition");
    types.add_type_definitions_from_udl("[Threadsafe] interface K {};").unwrap().unwrap();
    assert!(matches!(types.get_type_definition("K"), Some(Type::Object(nm)) if nm == "K"));
}

// A helper to take valid UDL and a closure to check what's in it.
fn test_a_finding<F>(udl: &str, tester: F)
where
    F: FnOnce(TypeUniverse),
{
    let mut types = TypeUniverse::new();
    types.add_type_definitions_from_udl(udl).unwrap().unwrap();
    tester(types);
}

// The `[Export]` enums and the `is_exported` asserts of this test are left
// out: the attributes and the type universe that this library follows have
// neither an `Export` attribute nor a record of exported types.
#[test]
fn test_type_finding() {
    test_a_finding(
        r#"
        callback interface TestCallbacks {
            string hello(u32 count);
        };
    "#,
        |types| {
            assert!(
                matches!(types.get_type_definition("TestCallbacks").unwrap(), Type::CallbackInterface(nm) if nm == "TestCallbacks")
            );
        },
    );

    test_a_finding(
        r#"
        dictionary TestRecord {
            u32 field;
        };

        [Export]
        dictionary ExportedTestRecord {
            u32 field;
        };
    "#,
        |types| {
            assert!(
                matches!(types.get_type_definition("TestRecord").unwrap(), Type::Record(nm) if nm == "TestRecord")
            );
            assert!(
                matches!(types.get_type_definition("ExportedTestRecord").unwrap(), Type::Record(nm) if nm == "ExportedTestRecord")
            );
        },
    );

    test_a_finding(
        r#"
        enum TestItems { "one", "two" };

        [Error]
        enum TestError { "ErrorOne", "ErrorTwo" };
    "#,
        |types| {
            assert!(
                matches!(types.get_type_definition("TestItems").unwrap(), Type::Enum(nm) if nm == "TestItems")
            );
            assert!(
                matches!(types.get_type_definition("TestError").unwrap(), Type::Error(nm) if nm == "TestError")
            );
        },
    );

    test_a_finding(
        r#"
        interface TestObject {
            constructor();
        };
    "#,
        |types| {
            assert!(
                matches!(types.get_type_definition("TestObject").unwrap(), Type::Object(nm) if nm == "TestObject")
            );
        },
    );

    test_a_finding(
        r#"
        interface TestObject {};
        typedef TestObject Alias;
    "#,
        |types| {
            assert!(
                matches!(types.get_type_definition("TestObject").unwrap(), Type::Object(nm) if nm == "TestObject")
            );
            assert!(
                matches!(types.get_type_definition("Alias").unwrap(), Type::Object(nm) if nm == "TestObject")
            );
        },
    );
}

#[test]
fn excluding_type_definitions() {
    let mut types = TypeUniverse::new();
    types.add_type_definitions_from_udl(
        "dictionary Keep {}; dictionary Drop {}; interface Gone {}; typedef Drop Alias;",
    )
    .unwrap()
    .unwrap();
    types.resolve_type_text("sequence<Drop>").unwrap().unwrap();
    types.resolve_type_text("u8").unwrap().unwrap();
    types.remove_type_definitions(&["Drop".to_string(), "Gone".to_string()]);
    assert!(types.get_type_definition("Keep").is_some());
    assert!(types.get_type_definition("Drop").is_none());
    assert!(types.get_type_definition("Gone").is_none());
    // The alias is no definition of a removed name, and stays.
    assert!(matches!(types.get_type_definition("Alias"), Some(Type::Record(nm)) if nm == "Drop"));
    let names: Vec<String> = types.iter_known_types().iter().map(|t| t.canonical_name()).collect();
    assert_eq!(names, vec!["RecordKeep", "SequenceRecordDrop", "u8"]);
    assert_eq!(Type::Record("R".into()).name(), Some("R"));
    assert_eq!(Type::Optional(Box::new(Type::Record("R".into()))).name(), None);
}

#[test]
fn component_consistency() {
    let mut types = TypeUniverse::new();
    types.add_type_definitions_from_udl("dictionary Testing {};").unwrap().unwrap();
    let ok = EnumDescr::flat_from_values("E", &vec!["One", "Two"]);
    let bad = EnumDescr::flat_from_values("F", &vec!["Three", "Testing"]);
    assert_eq!(check_consistency("ns", &vec![], &types), Ok(()));
    assert_eq!(
        check_consistency("", &vec![], &types),
        Err("missing namespace definition".to_string())
    );
    assert_eq!(check_consistency("ns", &vec![ok], &types), Ok(()));
    assert_eq!(
        check_consistency("ns", &vec![bad], &types),
        Err("Enum variant names must not shadow type names: \"Testing\"".to_string())
    );
}

#[test]
fn kinds_of_known_types() {
    let mut types = TypeUniverse::new();
    assert!(!types.contains_optional_types());
    types.resolve_type_text("sequence<u8>").unwrap().unwrap();
    assert!(types.contains_sequence_types());
    assert!(!types.contains_optional_types());
    assert!(!types.contains_map_types());
    types.resolve_type_text("record<DOMString, u8>?").unwrap().unwrap();
    assert!(types.contains_optional_types());
    assert!(types.contains_map_types());
}
