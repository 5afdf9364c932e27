use uniffi_bindgen::bindings::swift::{
    calc_module_name, crate_included, modulemap_names, sort_strings, sorted_header_filenames,
    swift_source_filename,
};
use uniffi_bindgen::bindings::swift::gen_swift::blocking_task_queue::BlockingTaskQueueCodeType;
use uniffi_bindgen::bindings::swift::test::{
    combine_module_maps, library_arg, main_source_filename, module_map_plan, test_module_filename,
    ModuleMapPlan,
};
use uniffi_bindgen::bindings::swift::gen_swift::callback_interface::{
    CallbackInterfaceCodeType, SwiftCallbackInterfaceRuntime,
};
use uniffi_bindgen::bindings::swift::gen_swift::compounds::{
    MapCodeType, OptionalCodeType, SequenceCodeType,
};
use uniffi_bindgen::bindings::swift::gen_swift::custom::CustomCodeType;
use uniffi_bindgen::bindings::swift::gen_swift::error::ErrorCodeType;
use uniffi_bindgen::bindings::swift::gen_swift::filters::{
    class_name_swift, enum_variant_swift, fn_name_swift, lift_swift, literal_swift, lower_swift,
    read_swift, type_ffi, type_swift, var_name_swift,
};
use uniffi_bindgen::bindings::swift::gen_swift::primitives;
use uniffi_bindgen::bindings::swift::gen_swift::{CodeType, Config};
use uniffi_bindgen::interface::literal::{Literal, Radix};
use uniffi_bindgen::interface::types::{FFIType, Type};
use uniffi_bindgen::MergeWith;

fn config(module: Option<&str>, ffi: Option<&str>, file: Option<&str>) -> Config {
    Config {
        cdylib_name: None,
        module_name: module.map(|s| s.to_string()),
        ffi_module_name: ffi.map(|s| s.to_string()),
        ffi_module_filename: file.map(|s| s.to_string()),
        generate_module_map: None,
    }
}

#[test]
fn config_defaults() {
    let c = Config::default();
    assert_eq!(c.module_name(), "uniffi");
    assert_eq!(c.ffi_module_name(), "uniffiFFI");
    assert_eq!(c.ffi_module_filename(), "uniffiFFI");
    assert_eq!(c.modulemap_filename(), "uniffiFFI.modulemap");
    assert_eq!(c.header_filename(), "uniffiFFI.h");
    assert_eq!(c.cdylib_name(), "uniffi");
    assert!(c.generate_module_map());
}

#[test]
fn config_names_follow_each_other() {
    let c = config(Some("Geometry"), None, None);
    assert_eq!(c.ffi_module_name(), "GeometryFFI");
    assert_eq!(c.header_filename(), "GeometryFFI.h");
    let c = config(Some("Geometry"), Some("GeoFFI"), None);
    assert_eq!(c.ffi_module_filename(), "GeoFFI");
    assert_eq!(c.modulemap_filename(), "GeoFFI.modulemap");
    let c = config(Some("Geometry"), Some("GeoFFI"), Some("geo_ffi"));
    assert_eq!(c.header_filename(), "geo_ffi.h");
    let mut c = Config::from_namespace("arithmetic");
    assert_eq!(c.module_name(), "arithmetic");
    assert_eq!(c.cdylib_name(), "uniffi_arithmetic");
    c.generate_module_map = Some(false);
    assert!(!c.generate_module_map());
}

#[test]
fn merging_configs_keeps_the_first_setting() {
    let a = config(Some("A"), None, None);
    let mut b = config(Some("B"), Some("BFFI"), None);
    b.generate_module_map = Some(false);
    let m = a.merge_with(&b);
    assert_eq!(m.module_name(), "A");
    assert_eq!(m.ffi_module_name(), "BFFI");
    assert!(!m.generate_module_map());
    // Merging with an unset configuration changes nothing, on either side.
    let m = a.merge_with(&Config::default());
    assert_eq!(m.module_name, Some("A".to_string()));
    let m = Config::default().merge_with(&a);
    assert_eq!(m.module_name, Some("A".to_string()));
    assert_eq!(m.ffi_module_name, None);
    // Merging a configuration with itself gives it back.
    let m = b.merge_with(&b);
    assert_eq!(m.ffi_module_name, Some("BFFI".to_string()));
    assert_eq!(m.generate_module_map, Some(false));
    let x: Option<bool> = None;
    assert_eq!(x.merge_with(&Some(true)), Some(true));
    assert_eq!(Some("s".to_string()).merge_with(&Some("t".to_string())), Some("s".to_string()));
}

#[test]
fn swift_type_names() {
    assert_eq!(type_swift(&Type::Float32), "Float");
    assert_eq!(type_swift(&Type::Float64), "Double");
    assert_eq!(type_swift(&Type::Boolean), "Bool");
    assert_eq!(type_swift(&Type::Record("my_record".into())), "MyRecord");
    let t = Type::MapOf(Box::new(Type::Sequence(Box::new(Type::Optional(Box::new(Type::UInt8))))));
    assert_eq!(type_swift(&t), "[String:[UInt8?]]");
}

#[test]
fn c_type_names() {
    assert_eq!(type_ffi(&FFIType::Int8), "int8_t");
    assert_eq!(type_ffi(&FFIType::UInt64), "uint64_t");
    assert_eq!(type_ffi(&FFIType::Float64), "double");
    assert_eq!(type_ffi(&FFIType::RustArcPtr), "void*_Nonnull");
    assert_eq!(type_ffi(&FFIType::RustBuffer), "RustBuffer");
    assert_eq!(type_ffi(&FFIType::ForeignBytes), "ForeignBytes");
}

#[test]
fn swift_casing() {
    assert_eq!(class_name_swift("my_class"), "MyClass");
    assert_eq!(enum_variant_swift("FIRST_VARIANT"), "firstVariant");
    assert_eq!(fn_name_swift("do_the_thing"), "doTheThing");
    assert_eq!(var_name_swift("some_var"), "someVar");
    assert_eq!(lower_swift("some_var", &Type::String), "someVar.lower()");
    assert_eq!(lift_swift("v", &Type::Optional(Box::new(Type::String))), "String?.lift(v)");
    assert_eq!(read_swift("buf", &Type::Int32), "Int32.read(from: buf)");
}

#[test]
fn swift_literals() {
    assert_eq!(literal_swift(&Literal::Boolean(true)), "true");
    assert_eq!(literal_swift(&Literal::Boolean(false)), "false");
    assert_eq!(literal_swift(&Literal::String("hi".into())), "\"hi\"");
    assert_eq!(literal_swift(&Literal::Null), "nil");
    assert_eq!(literal_swift(&Literal::EmptySequence), "[]");
    assert_eq!(literal_swift(&Literal::EmptyMap), "[:]");
    assert_eq!(literal_swift(&Literal::Enum("ONE_TWO".into(), Type::Enum("E".into()))), ".oneTwo");
    assert_eq!(literal_swift(&Literal::Int(42, Radix::Decimal, Type::Int32)), "42");
    assert_eq!(literal_swift(&Literal::Int(-42, Radix::Decimal, Type::Int64)), "Int64(-42)");
    assert_eq!(literal_swift(&Literal::Int(8, Radix::Octal, Type::Int8)), "Int8(0o10)");
    assert_eq!(literal_swift(&Literal::Int(255, Radix::Hexadecimal, Type::Int16)), "Int16(0xff)");
    assert_eq!(
        literal_swift(&Literal::Int(-1, Radix::Hexadecimal, Type::Int64)),
        format!("Int64({:#x})", -1i64)
    );
    assert_eq!(
        literal_swift(&Literal::Int(i64::MIN, Radix::Decimal, Type::Int64)),
        format!("Int64({})", i64::MIN)
    );
    assert_eq!(
        literal_swift(&Literal::Int(-8, Radix::Octal, Type::Int64)),
        format!("Int64(0o{:o})", -8i64)
    );
    assert_eq!(literal_swift(&Literal::UInt(0, Radix::Hexadecimal, Type::UInt32)), "UInt32(0x0)");
    assert_eq!(
        literal_swift(&Literal::UInt(u64::MAX, Radix::Decimal, Type::UInt64)),
        format!("UInt64({})", u64::MAX)
    );
    assert_eq!(literal_swift(&Literal::UInt(511, Radix::Octal, Type::UInt16)), "UInt16(0o777)");
    assert_eq!(literal_swift(&Literal::Float("2.5".into(), Type::Float64)), "Double(2.5)");
    assert_eq!(literal_swift(&Literal::Float("1.0".into(), Type::Float32)), "Float(1.0)");
    assert_eq!(primitives::render_literal(&Literal::UInt(7, Radix::Decimal, Type::UInt8)), "UInt8(7)");
}

#[test]
fn swift_code_types() {
    let e = ErrorCodeType::new("my_error".into());
    assert_eq!(e.type_label(), "MyError");
    assert_eq!(e.canonical_name(), "ErrorMyError");
    assert_eq!(e.lower("the_value"), "theValue.lower()");
    assert_eq!(e.write("the_value", "buf"), "theValue.write(into: buf)");
    assert_eq!(e.lift("v"), "MyError.lift(v)");
    assert_eq!(e.read("buf"), "MyError.read(from: buf)");
    assert_eq!(
        e.helper_code(),
        Some("// Helper code for MyError error is found in ErrorTemplate.swift".to_string())
    );
    let c = CallbackInterfaceCodeType { id: "my_callback".into() };
    assert_eq!(c.internals(), "CallbackInterfaceMyCallbackInternals");
    assert_eq!(c.lower("v"), "CallbackInterfaceMyCallbackInternals.lower(v)");
    assert_eq!(c.write("v", "buf"), "CallbackInterfaceMyCallbackInternals.write(into: v, buf)");
    assert!(SwiftCallbackInterfaceRuntime::new(2).is_needed);
    assert!(!SwiftCallbackInterfaceRuntime::new(0).is_needed);
    let q = BlockingTaskQueueCodeType;
    assert_eq!(q.type_label(), "DispatchQueue");
    assert_eq!(q.canonical_name(), "BlockingTaskQueue");
    assert_eq!(q.lower("queue"), "queue.lower()");
    assert_eq!(q.lift("v"), "DispatchQueue.lift(v)");
    assert_eq!(q.helper_code(), None);
    let custom = CustomCodeType::new("url_type".into(), Box::new(BlockingTaskQueueCodeType));
    assert_eq!(custom.type_label(), "UrlType");
    assert_eq!(custom.canonical_name(), "Typeurl_type");
}

#[test]
fn swift_compound_code_types() {
    let o = OptionalCodeType::new(Type::UInt8, Type::Optional(Box::new(Type::UInt8)));
    assert_eq!(o.type_label(), "UInt8?");
    assert_eq!(o.canonical_name(), "Optionu8");
    assert_eq!(o.literal(&Literal::Null), "nil");
    assert_eq!(o.literal(&Literal::UInt(3, Radix::Decimal, Type::UInt8)), "UInt8(3)");
    let s = SequenceCodeType::new(Type::String, Type::Sequence(Box::new(Type::String)));
    assert_eq!(s.type_label(), "[String]");
    assert_eq!(s.canonical_name(), "Sequencestring");
    assert_eq!(s.literal(&Literal::EmptySequence), "[]");
    assert_eq!(
        s.helper_code(),
        Some("// Helper code for [String] is found in RustBufferHelper.swift".to_string())
    );
    let m = MapCodeType::new(Type::Boolean, Type::MapOf(Box::new(Type::Boolean)));
    assert_eq!(m.type_label(), "[String: Bool]");
    assert_eq!(m.canonical_name(), "Mapbool");
    assert_eq!(m.literal(&Literal::EmptyMap), "[:]");
    assert_eq!(m.read("buf"), "[String: Bool].read(from: buf)");
}

#[test]
fn test_module_names() {
    assert_eq!(calc_module_name("test_script.swift"), "test_script");
    assert_eq!(calc_module_name("TestScript.swift"), "test_script");
}

#[test]
fn sorting_strings() {
    let v: Vec<String> = vec!["b", "a", "ab", "", "B", "é", "a"].into_iter().map(String::from).collect();
    let mut expected = v.clone();
    expected.sort();
    assert_eq!(sort_strings(v), expected);
    assert_eq!(sort_strings(vec![]), Vec::<String>::new());
}

#[test]
fn swift_generation_decisions() {
    let c = config(Some("Geo"), None, None);
    assert_eq!(swift_source_filename(&c), "Geo.swift");
    assert!(crate_included("geo", None));
    assert!(crate_included("geo", Some("geo")));
    assert!(!crate_included("geo", Some("other")));
    let (m, f) = modulemap_names(None, None, "sources");
    assert_eq!((m.as_str(), f.as_str()), ("sources", "sources.modulemap"));
    let (m, f) = modulemap_names(Some("Mod".into()), Some("x.modulemap".into()), "sources");
    assert_eq!((m.as_str(), f.as_str()), ("Mod", "x.modulemap"));
    let configs = vec![config(Some("Zeta"), None, None), config(None, None, Some("alpha"))];
    assert_eq!(sorted_header_filenames(&configs), vec!["ZetaFFI.h", "alpha.h"]);
    let mut d = Config::default();
    d.set_default_module_name("ns");
    assert_eq!(d.module_name(), "ns");
    d.set_default_module_name("other");
    assert_eq!(d.module_name(), "ns");
}

#[test]
fn swift_test_harness_decisions() {
    assert_eq!(main_source_filename(&vec!["geo.swift".to_string()], "src/geo.udl"), Ok("geo.swift".to_string()));
    assert_eq!(
        main_source_filename(&vec![], "src/geo.udl"),
        Err("No .swift file generated for src/geo.udl".to_string())
    );
    assert_eq!(
        main_source_filename(&vec!["a.swift".to_string(), "b.swift".to_string()], "x.udl"),
        Err("2 .swift files generated for x.udl".to_string())
    );
    assert_eq!(module_map_plan(0, "/out"), Err("No modulemap files found in /out".to_string()));
    assert_eq!(module_map_plan(1, "/out"), Ok(ModuleMapPlan::Single));
    assert_eq!(module_map_plan(3, "/out"), Ok(ModuleMapPlan::Combined));
    assert_eq!(combine_module_maps(&vec!["a".into(), "b".into(), "c".into()]), "a\nb\nc");
    assert_eq!(combine_module_maps(&vec![]), "");
    assert_eq!(library_arg("libgeometry.so", "lib", ".so"), "-lgeometry");
    assert_eq!(test_module_filename("geometry", "lib", ".so"), "libtestmod_geometry.so");
}
