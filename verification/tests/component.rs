use uniffi_bindgen::interface::builder::component_from_udl;
use uniffi_bindgen::interface::component::ComponentView;
use uniffi_bindgen::interface::ir::nodes::types::ir_type_name;
use uniffi_bindgen::interface::types::{Type, TypeUniverse};

fn from_webidl(udl: &str) -> Result<ComponentView, String> {
    component_from_udl(udl).expect("the text parses as UDL")
}

fn names_of(ci: &ComponentView) -> Vec<String> {
    ci.types.iter().map(|t| t.canonical_name()).collect()
}

#[test]
fn enum__test_duplicate_variants() {
    const UDL: &str = r#"
        namespace test{};
        // Weird, but currently allowed!
        // We should probably disallow this...
        enum Testing { "one", "two", "one" };
    "#;
    let ci = from_webidl(UDL).unwrap();
    assert_eq!(ci.enums.len(), 1);
    let e = ci.get_enum_definition("Testing").unwrap();
    assert_eq!(ci.enums[e].variants.len(), 3);
}

#[test]
fn test_associated_data() {
    const UDL: &str = r##"
        namespace test {
            void takes_an_enum(TestEnum e);
            void takes_an_enum_with_data(TestEnumWithData ed);
            TestEnum returns_an_enum();
            TestEnumWithData returns_an_enum_with_data();
        };

        enum TestEnum { "one", "two" };

        [Enum]
        interface TestEnumWithData {
            Zero();
            One(u32 first);
            Two(u32 first, string second);
        };

        [Enum]
        interface TestEnumWithoutData {
            One();
            Two();
        };
    "##;
    let ci = from_webidl(UDL).unwrap();
    assert_eq!(ci.enums.len(), 3);
    assert_eq!(ci.functions.len(), 4);

    // The "flat" enum with no associated data.
    let e = &ci.enums[ci.get_enum_definition("TestEnum").unwrap()];
    assert_eq!(e.variants.len(), 2);
    assert_eq!(
        e.variants.iter().map(|v| v.name.as_str()).collect::<Vec<_>>(),
        vec!["one", "two"]
    );
    assert_eq!(e.variants[0].fields.len(), 0);
    assert_eq!(e.variants[1].fields.len(), 0);

    // The enum with associated data.
    let ed = &ci.enums[ci.get_enum_definition("TestEnumWithData").unwrap()];
    assert_eq!(ed.variants.len(), 3);
    assert_eq!(
        ed.variants.iter().map(|v| v.name.as_str()).collect::<Vec<_>>(),
        vec!["Zero", "One", "Two"]
    );
    assert_eq!(ed.variants[0].fields.len(), 0);
    assert_eq!(
        ed.variants[1].fields.iter().map(|f| f.name.as_str()).collect::<Vec<_>>(),
        vec!["first"]
    );
    assert_eq!(
        ed.variants[1].fields.iter().map(|f| f.ty.canonical_name()).collect::<Vec<_>>(),
        vec![Type::UInt32.canonical_name()]
    );
    assert_eq!(
        ed.variants[2].fields.iter().map(|f| f.name.as_str()).collect::<Vec<_>>(),
        vec!["first", "second"]
    );
    assert_eq!(
        ed.variants[2].fields.iter().map(|f| f.ty.canonical_name()).collect::<Vec<_>>(),
        vec![Type::UInt32.canonical_name(), Type::String.canonical_name()]
    );

    // The enum declared via interface, but with no associated data.
    let ewd = &ci.enums[ci.get_enum_definition("TestEnumWithoutData").unwrap()];
    assert_eq!(ewd.variants.len(), 2);
    assert_eq!(
        ewd.variants.iter().map(|v| v.name.as_str()).collect::<Vec<_>>(),
        vec!["One", "Two"]
    );
    assert_eq!(ewd.variants[0].fields.len(), 0);
    assert_eq!(ewd.variants[1].fields.len(), 0);

    let farg = ci.functions.iter().find(|f| f.name == "takes_an_enum").unwrap();
    assert!(matches!(&farg.arguments[0].ty, Type::Enum(n) if n == "TestEnum"));
    let fret = ci.functions.iter().find(|f| f.name == "returns_an_enum_with_data").unwrap();
    assert!(matches!(&fret.return_type, Some(Type::Enum(n)) if n == "TestEnumWithData"));
}

#[test]
fn test_variants() {
    const UDL: &str = r#"
        namespace test{};
        [Error]
        enum Testing { "one", "two", "three" };
    "#;
    let ci = from_webidl(UDL).unwrap();
    assert_eq!(ci.errors.len(), 1);
    assert!(ci.is_error("Testing"));
    let error = &ci.enums[ci.get_enum_definition("Testing").unwrap()];
    assert_eq!(
        error.variants.iter().map(|v| v.name.as_str()).collect::<Vec<&str>>(),
        vec!("one", "two", "three")
    );
    assert!(error.variants.iter().all(|v| v.fields.is_empty()));
}

#[test]
fn error_test_duplicate_variants() {
    const UDL: &str = r#"
        namespace test{};
        // Weird, but currently allowed!
        // We should probably disallow this...
        [Error]
        enum Testing { "one", "two", "one" };
    "#;
    let ci = from_webidl(UDL).unwrap();
    assert_eq!(ci.errors.len(), 1);
    let e = ci.get_enum_definition("Testing").unwrap();
    assert_eq!(ci.enums[e].variants.len(), 3);
}

#[test]
fn test_minimal_and_rich_function() {
    let ci = from_webidl(
        r##"
        namespace test {
            void minimal();
            [Throws=TestError]
            sequence<string?> rich(u32 arg1, TestDict arg2);
        };
        [Error]
        enum TestError { "err" };
        dictionary TestDict {
            u32 field;
        };
    "##,
    )
    .unwrap();

    let func1 = ci.functions.iter().find(|f| f.name == "minimal").unwrap();
    assert_eq!(func1.name, "minimal");
    assert!(func1.return_type.is_none());
    assert!(func1.throws_type.is_none());
    assert_eq!(func1.arguments.len(), 0);

    let func2 = ci.functions.iter().find(|f| f.name == "rich").unwrap();
    assert_eq!(func2.name, "rich");
    assert_eq!(
        func2.return_type.as_ref().unwrap().canonical_name(),
        "SequenceOptionalstring"
    );
    assert!(matches!(&func2.throws_type, Some(Type::Error(s)) if s == "TestError"));
    assert_eq!(func2.arguments.len(), 2);
    assert_eq!(func2.arguments[0].name, "arg1");
    assert_eq!(func2.arguments[0].ty.canonical_name(), "u32");
    assert_eq!(func2.arguments[1].name, "arg2");
    // The argument's type is the record, which the bindings IR names so.
    assert!(matches!(&func2.arguments[1].ty, Type::Record(n) if n == "TestDict"));
    assert_eq!(ir_type_name(&func2.arguments[1].ty), "TypeTestDict");
}

#[test]
fn test_duplicate_type_names_are_an_error() {
    const UDL: &str = r#"
        namespace test{};
        interface Testing {
            constructor();
        };
        dictionary Testing {
            u32 field;
        };
    "#;
    let err = from_webidl(UDL).unwrap_err();
    assert_eq!(err, "Conflicting type definition for \"Testing\"");

    const UDL2: &str = r#"
        namespace test{};
        enum Testing {
            "one", "two"
        };
        [Error]
        enum Testing { "three", "four" };
    "#;
    let err = from_webidl(UDL2).unwrap_err();
    assert_eq!(err, "Conflicting type definition for \"Testing\"");

    const UDL3: &str = r#"
        namespace test{
            u32 Testing();
        };
        enum Testing {
            "one", "two"
        };
    "#;
    let err = from_webidl(UDL3).unwrap_err();
    assert_eq!(err, "Conflicting type definition for \"Testing\"");
}

#[test]
fn test_enum_variant_names_dont_shadow_types() {
    const UDL: &str = r#"
        namespace test{};
        interface Testing {
            constructor();
        };
        [Enum]
        interface HardToCodegenFor {
            Testing();
            OtherVariant(u32 field);
        };
    "#;
    let err = from_webidl(UDL).unwrap_err();
    assert_eq!(err, "Enum variant names must not shadow type names: \"Testing\"");
}

#[test]
fn test_contains_optional_types() {
    let mut types = TypeUniverse::new();
    assert_eq!(types.contains_optional_types(), false);
    assert!(types
        .add_type_definition("TestOptional{}", Type::Optional(Box::new(Type::String)))
        .is_ok());
    assert_eq!(types.contains_optional_types(), true);
}

#[test]
fn test_contains_sequence_types() {
    let mut types = TypeUniverse::new();
    assert_eq!(types.contains_sequence_types(), false);
    assert!(types
        .add_type_definition("TestSequence{}", Type::Sequence(Box::new(Type::UInt64)))
        .is_ok());
    assert_eq!(types.contains_sequence_types(), true);
}

#[test]
fn test_contains_map_types() {
    let mut types = TypeUniverse::new();
    assert_eq!(types.contains_map_types(), false);
    assert!(types
        .add_type_definition("Map{}", Type::MapOf(Box::new(Type::Boolean)))
        .is_ok());
    assert_eq!(types.contains_map_types(), true);
}

#[test]
fn test_that_all_argument_and_return_types_become_known() {
    const UDL: &str = r#"
        namespace test{};
        interface Testing {
            constructor(string? name, u16 age);
            sequence<u32> code_points_of_name();
        };
    "#;
    let ci = from_webidl(UDL).unwrap();
    assert_eq!(ci.objects.len(), 1);
    ci.get_object_definition("Testing").unwrap();

    let names = names_of(&ci);
    assert_eq!(names.len(), 6);
    for n in ["u16", "u32", "Sequenceu32", "string", "Optionalstring", "ObjectTesting"] {
        assert!(names.iter().any(|t| t == n), "{} is known", n);
    }
}

#[test]
fn test_alternate_constructors() {
    const UDL: &str = r#"
        namespace test{};
        interface Testing {
            constructor();
            [Name=new_with_u32]
            constructor(u32 v);
        };
    "#;
    let ci = from_webidl(UDL).unwrap();
    assert_eq!(ci.objects.len(), 1);

    let obj = &ci.objects[ci.get_object_definition("Testing").unwrap()];
    assert!(obj.primary_constructor().is_some());
    let alternate = obj.alternate_constructors();
    assert_eq!(alternate.len(), 1);
    assert_eq!(obj.methods.len(), 0);

    let cons = obj.primary_constructor().unwrap();
    assert_eq!(cons.name, "new");
    assert_eq!(cons.arguments.len(), 0);

    let cons = alternate[0];
    assert_eq!(cons.name, "new_with_u32");
    assert_eq!(cons.arguments.len(), 1);
}

#[test]
fn test_the_name_new_identifies_the_primary_constructor() {
    const UDL: &str = r#"
        namespace test{};
        interface Testing {
            [Name=newish]
            constructor();
            [Name=new]
            constructor(u32 v);
        };
    "#;
    let ci = from_webidl(UDL).unwrap();
    assert_eq!(ci.objects.len(), 1);

    let obj = &ci.objects[ci.get_object_definition("Testing").unwrap()];
    assert!(obj.primary_constructor().is_some());
    let alternate = obj.alternate_constructors();
    assert_eq!(alternate.len(), 1);
    assert_eq!(obj.methods.len(), 0);

    let cons = obj.primary_constructor().unwrap();
    assert_eq!(cons.name, "new");
    assert_eq!(cons.arguments.len(), 1);

    let cons = alternate[0];
    assert_eq!(cons.name, "newish");
    assert_eq!(cons.arguments.len(), 0);
}

#[test]
fn object_test_the_name_new_is_reserved_for_constructors() {
    const UDL: &str = r#"
        namespace test{};
        interface Testing {
            constructor();
            void new(u32 v);
        };
    "#;
    let err = from_webidl(UDL).unwrap_err();
    assert_eq!(err, "the method name \"new\" is reserved for the default constructor");
}

#[test]
fn test_duplicate_primary_constructors_not_allowed() {
    const UDL: &str = r#"
        namespace test{};
        interface Testing {
            constructor();
            constructor(u32 v);
        };
    "#;
    let err = from_webidl(UDL).unwrap_err();
    assert_eq!(err, "Duplicate interface member name: \"new\"");

    const UDL2: &str = r#"
        namespace test{};
        interface Testing {
            constructor();
            [Name=new]
            constructor(u32 v);
        };
    "#;
    let err = from_webidl(UDL2).unwrap_err();
    assert_eq!(err, "Duplicate interface member name: \"new\"");
}

#[test]
fn test_that_all_field_types_become_known() {
    const UDL: &str = r#"
        namespace test{};
        dictionary Testing {
            string? maybe_name;
            u32 value;
        };
    "#;
    let ci = from_webidl(UDL).unwrap();
    assert_eq!(ci.records.len(), 1);
    let record = &ci.records[ci.get_record_definition("Testing").unwrap()];
    assert_eq!(record.fields.len(), 2);
    assert_eq!(record.fields[0].name, "maybe_name");
    assert_eq!(record.fields[1].name, "value");

    let names = names_of(&ci);
    assert_eq!(names.len(), 4);
    for n in ["u32", "string", "Optionalstring", "RecordTesting"] {
        assert!(names.iter().any(|t| t == n), "{} is known", n);
    }
}

#[test]
fn component_records_callbacks_and_namespace() {
    const UDL: &str = r#"
        namespace arithmetic {
            u64 add(u64 a, u64 b);
        };
        dictionary Point { i32 x; i32 y; };
        callback interface Listener {
            void on_point(Point p);
        };
        interface Canvas {
            constructor();
            void draw(Point p, Listener l);
        };
    "#;
    let ci = from_webidl(UDL).unwrap();
    assert_eq!(ci.namespace, "arithmetic");
    assert_eq!(ci.functions.len(), 1);
    assert_eq!(ci.functions[0].name, "add");
    assert_eq!(ci.functions[0].module, "");
    assert_eq!(ci.records[0].name, "Point");
    assert_eq!(ci.callback_interfaces.len(), 1);
    let cb = &ci.callback_interfaces[0];
    assert_eq!(cb.name, "Listener");
    assert_eq!(cb.methods.len(), 1);
    assert_eq!(cb.methods[0].name, "on_point");
    let canvas = &ci.objects[0];
    assert_eq!(canvas.methods[0].name, "draw");
    assert!(matches!(&canvas.methods[0].arguments[1].ty, Type::CallbackInterface(n) if n == "Listener"));
    assert!(ci.ffi_definitions.is_empty());
    assert_eq!(ci.uniffi_contract_version, 0);
}

#[test]
fn component_errors_of_building() {
    // No namespace.
    assert_eq!(
        from_webidl("dictionary Point { i32 x; };").unwrap_err(),
        "missing namespace definition"
    );
    // A type that nothing defines.
    assert_eq!(
        from_webidl("namespace test { Missing get(); };").unwrap_err(),
        "unknown type reference: Missing"
    );
    // Two functions of one name.
    assert!(from_webidl("namespace test { void f(); void f(); };").is_err());
    // Not UDL at all.
    assert!(component_from_udl("this is not UDL").is_none());
}

#[test]
fn built_component_knows_string_and_every_type_it_uses() {
    const UDL: &str = r#"
        namespace test {
            record<DOMString, u8>? lookup(sequence<i64> keys);
        };
        dictionary Row { boolean flag; };
    "#;
    let ci = from_webidl(UDL).unwrap();
    let names = names_of(&ci);
    assert_eq!(names[0], "string");
    for n in ["Sequencei64", "i64", "Mapu8", "OptionalMapu8", "u8", "RecordRow", "bool"] {
        assert!(names.iter().any(|t| t == n), "{} is known", n);
    }
}

#[test]
fn every_object_gets_a_primary_constructor() {
    const UDL: &str = r#"
        namespace test{};
        interface Thing {
            void go();
            [Name=make]
            constructor(u8 seed);
        };
    "#;
    let ci = from_webidl(UDL).unwrap();
    let obj = &ci.objects[0];
    let names: Vec<&str> = obj.constructors.iter().map(|c| c.name.as_str()).collect();
    assert_eq!(names, vec!["make", "new"]);
    assert_eq!(obj.constructors[1].arguments.len(), 0);
    assert_eq!(obj.methods[0].name, "go");
    // Duplicate function names are refused.
    assert_eq!(
        from_webidl("namespace test { void f(); u8 f(); };").unwrap_err(),
        "duplicate function definition: \"f\""
    );
}
