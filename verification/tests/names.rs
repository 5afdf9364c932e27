use uniffi_bindgen::bindings::udl::{docstring, return_type_udl, type_udl};
use uniffi_bindgen::codegen::{NewCodeType, TemplateRenderSet};
use uniffi_bindgen::crate_mode::{find_package, find_package_by_crate_name, Package, Target};
use uniffi_bindgen::interface::cistring::CIString;
use uniffi_bindgen::interface::enum_::EnumDescr;
use uniffi_bindgen::interface::ffi_names::{checksum, ffi_namespace, FFINames};
use uniffi_bindgen::interface::languages::Language;
use uniffi_bindgen::interface::pointer_ffi::{builtin_ffi_definitions, FfiFunctionKind, PointerFfiDefinition};
use uniffi_bindgen::interface::types::dispatch::{
    CallbackInterfaceTypeHandler, ExternalTypeHandler, RecordTypeHandler, SimpleTypeHandler,
    TimestampTypeHandler, WrapperTypeHandler,
};
use uniffi_bindgen::interface::types::{FFIType, Type};
use uniffi_bindgen::interface::universe::normalize_module_path;

#[test]
fn ffi_names() {
    let names = FFINames::InterfaceNamespace("arithmetic".into());
    assert_eq!(names.prefix("func"), "_uniffi_v0_arithmetic_func");
    assert_eq!(names.uniffi_func("rustbuffer_alloc"), "_uniffi_v0_arithmetic_uniffi_rustbuffer_alloc");
    assert_eq!(names.function(0x1234_abcd, "add"), "_uniffi_v0_arithmetic_func_abcd_add");
    assert_eq!(
        names.method(0xffff_0001, "Calc", "add"),
        "_uniffi_v0_arithmetic_methods_1_Calc_add"
    );
    assert_eq!(
        names.constructor(0x10, "Calc", "new"),
        "_uniffi_v0_arithmetic_constructor_10_Calc_new"
    );
    assert_eq!(names.object_free(0x0, "Calc"), "_uniffi_v0_arithmetic_free_0_Calc");
    assert_eq!(names.callback_init(0xbeef, "Cb"), "_uniffi_v0_arithmetic_callback_beef_Cb_init");
    let names = FFINames::CrateName("my_crate".into());
    assert_eq!(names.uniffi_func("x"), "_uniffi_v0_my_crate_uniffi_x");
    assert_eq!(checksum(0xffff), "ffff");
    assert_eq!(ffi_namespace("geometry", 0xabcd_1234), "geometry_1234");
    assert_eq!(ffi_namespace("ns", 1), "ns_0001");
    assert_eq!(ffi_namespace("ns", 0xff_00ab), "ns_00ab");
    assert_eq!(checksum(0x1_0000), "0");
    assert_eq!(checksum(u64::MAX), format!("{:x}", (u64::MAX & 0xffff) as u16));
}

#[test]
fn new_code_type_names() {
    assert_eq!(Type::UInt8.canonical_name(), "u8");
    assert_eq!(NewCodeType::canonical_name(&Type::UInt8), "U8");
    let t = Type::Optional(Box::new(Type::Sequence(Box::new(Type::Object("TestObject".into())))));
    assert_eq!(NewCodeType::canonical_name(&t), "OptionalSequenceTypeTestObject");
    assert_eq!(NewCodeType::ffi_type(&t), FFIType::RustBuffer);
    assert_eq!(NewCodeType::ffi_type(&Type::Boolean), FFIType::Int8);
    assert_eq!(NewCodeType::canonical_name(&Type::Record("TestRecord".into())), "TypeTestRecord");
    assert_eq!(SimpleTypeHandler::String.canonical_name(), "String");
    assert_eq!(SimpleTypeHandler::Float64.ffi_type(), FFIType::Float64);
    assert_eq!(RecordTypeHandler { name: "R" }.canonical_name(), "TypeR");
    assert_eq!(CallbackInterfaceTypeHandler { name: "C" }.canonical_name(), "CallbackInterfaceC");
    assert_eq!(CallbackInterfaceTypeHandler { name: "C" }.ffi_type(), FFIType::UInt64);
    assert_eq!(TimestampTypeHandler.canonical_name(), "Timestamp");
    assert_eq!(ExternalTypeHandler { name: "E", crate_name: "c" }.canonical_name(), "TypeE");
    let wrapped = Type::UInt32;
    assert_eq!(WrapperTypeHandler { name: "W", wrapped: &wrapped }.ffi_type(), FFIType::UInt32);
}

#[test]
fn template_render_set_skips_duplicates() {
    let mut set = TemplateRenderSet::new();
    assert!(set.insert(1, "one".into()));
    assert!(set.insert(2, "two".into()));
    assert!(!set.insert(1, "again".into()));
    assert_eq!(set.into_items(), vec!["one".to_string(), "two".to_string()]);
}

#[test]
fn ci_strings() {
    let s = CIString::from_parts(vec!["a", "b", "c"]);
    assert_eq!(s.as_str(), "a_b_c");
    assert_eq!(CIString::from_parts(vec![]).as_str(), "");
    assert_eq!(CIString::from_parts(vec!["one"]).to_string(), "one");
    let t = s.clone();
    assert!(t.eq_str("a_b_c"));
    assert!(!t.eq_str("a_b"));
    assert_eq!(CIString::new("x").as_str(), "x");
    assert_eq!(CIString::from_string("y".to_string()).as_str(), "y");
}

#[test]
fn languages() {
    assert_eq!(Language::try_from("swift"), Ok(Language::Swift));
    assert_eq!(Language::try_from("Kotlin"), Ok(Language::Kotlin));
    assert_eq!(Language::try_from("PYTHON"), Ok(Language::Python));
    assert_eq!(Language::try_from("rust"), Ok(Language::Rust));
    assert_eq!(Language::try_from("ruby"), Ok(Language::Ruby));
    assert_eq!(Language::try_from("cobol"), Err("Unknown language: cobol".to_string()));
}

#[test]
fn pointer_ffi_definitions() {
    let defs = builtin_ffi_definitions("math");
    assert_eq!(defs.len(), 7);
    assert_eq!(defs[0].name(), "uniffi_ptr_math_rustbuffer_alloc");
    assert_eq!(defs[2].name(), "uniffi_ptr_math_rust_future_poll");
    assert!(matches!(&defs[2], PointerFfiDefinition::Function(f) if f.kind == FfiFunctionKind::RustFuturePoll));
    assert_eq!(defs[5].name(), "uniffi_ptr_math_rust_future_free");
    assert!(matches!(&defs[6], PointerFfiDefinition::Callback(_)));
    assert_eq!(defs[6].name(), "RustFutureContinuationCallback");
}

fn package(name: &str, targets: Vec<(&str, Vec<&str>)>) -> Package {
    Package {
        name: name.into(),
        targets: targets
            .into_iter()
            .map(|(n, kinds)| Target {
                name: n.into(),
                crate_types: kinds.into_iter().map(|k| k.to_string()).collect(),
            })
            .collect(),
    }
}

#[test]
fn finding_packages() {
    let packages = vec![
        package("alpha", vec![("alpha", vec!["lib"])]),
        package("beta-pkg", vec![("beta", vec!["cdylib", "lib"]), ("beta-cli", vec!["bin"])]),
        package("beta-pkg", vec![("gamma", vec!["bin"])]),
    ];
    assert_eq!(find_package(&packages, "alpha").unwrap().name, "alpha");
    assert_eq!(
        find_package(&packages, "beta-pkg").unwrap_err(),
        "cargo metadata returned 2 packages named beta-pkg"
    );
    assert_eq!(
        find_package(&packages, "delta").unwrap_err(),
        "cargo metadata returned 0 packages named delta"
    );
    assert_eq!(find_package_by_crate_name(&packages, "beta").unwrap().targets.len(), 2);
    assert_eq!(
        find_package_by_crate_name(&packages, "gamma").unwrap_err(),
        "cargo metadata returned 0 packages for crate name gamma"
    );
}

#[test]
fn udl_docstrings() {
    assert_eq!(docstring(&vec!["first", " second"], &4), "\n    //first\n    // second");
    assert_eq!(docstring(&vec![], &2), "");
    assert_eq!(docstring(&vec!["x"], &0), "\n//x");
}

#[test]
fn module_paths() {
    assert_eq!(normalize_module_path("my_crate::inner::deep"), "my_crate");
    assert_eq!(normalize_module_path("my_crate"), "my_crate");
    assert_eq!(normalize_module_path("a:b::c"), "a:b");
    assert_eq!(normalize_module_path("::x"), "");
    assert_eq!(normalize_module_path(""), "");
}

#[test]
fn flat_enums() {
    let e = EnumDescr::flat_from_values("Color", &vec!["Red", "Green"]);
    assert_eq!(e.name(), "Color");
    assert!(e.is_flat());
    assert_eq!(e.variants.len(), 2);
    assert_eq!(e.variants[1].name(), "Green");
    assert!(!e.variants[0].has_fields());
}

#[test]
fn udl_types() {
    use_udl_types();
}

fn use_udl_types() {
    let t = Type::MapOf(Box::new(Type::Sequence(Box::new(Type::Optional(Box::new(Type::Record("R".into())))))));
    assert_eq!(type_udl(&t), "record<DOMString, sequence<R?>>");
    assert_eq!(type_udl(&Type::Boolean), "boolean");
    assert_eq!(return_type_udl(&None), "void");
    assert_eq!(return_type_udl(&Some(&Type::UInt16)), "u16");
    // What is written as UDL resolves back to the same type.
    let mut types = uniffi_bindgen::interface::types::TypeUniverse::new();
    types.add_type_definition("R", Type::Record("R".into())).unwrap();
    let back = types.resolve_type_text(&type_udl(&t)).unwrap().unwrap();
    assert!(back == t);
}
