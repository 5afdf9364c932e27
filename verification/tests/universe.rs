use uniffi_bindgen::interface::universe::{normalize_module_path, normalize_type_module_path, MetaType, ObjectImpl};

#[test]
fn module_paths_are_cut_to_the_crate_name() {
    assert_eq!(normalize_module_path("my_crate::inner::deeper"), "my_crate");
    assert_eq!(normalize_module_path("my_crate"), "my_crate");
    assert_eq!(normalize_module_path(""), "");
    assert_eq!(normalize_module_path("a:b::c"), "a:b");
}

#[test]
fn types_are_normalized_recursively() {
    let t = MetaType::MapOf {
        key_type: Box::new(MetaType::String),
        value_type: Box::new(MetaType::Optional {
            inner_type: Box::new(MetaType::Record { module: "crate_a::types".into(), name: "Rec".into() }),
        }),
    };
    match normalize_type_module_path(&t) {
        MetaType::MapOf { key_type, value_type } => {
            assert!(matches!(*key_type, MetaType::String));
            match *value_type {
                MetaType::Optional { inner_type } => match *inner_type {
                    MetaType::Record { module, name } => {
                        assert_eq!(module, "crate_a");
                        assert_eq!(name, "Rec");
                    }
                    other => panic!("{:?}", other),
                },
                other => panic!("{:?}", other),
            }
        }
        other => panic!("{:?}", other),
    }
    let o = MetaType::Object { module: "c::m".into(), name: "Obj".into(), imp: ObjectImpl::Trait };
    match normalize_type_module_path(&o) {
        MetaType::Object { module, name, imp } => {
            assert_eq!(module, "c");
            assert_eq!(name, "Obj");
            assert_eq!(imp, ObjectImpl::Trait);
        }
        other => panic!("{:?}", other),
    }
    let c = MetaType::Custom {
        module: "x::y".into(),
        name: "Url".into(),
        builtin: Box::new(MetaType::Enum { module: "x::z".into(), name: "E".into() }),
    };
    // Normalizing twice gives what normalizing once gives.
    let once = normalize_type_module_path(&c);
    let twice = normalize_type_module_path(&once);
    assert_eq!(format!("{:?}", once), format!("{:?}", twice));
    assert!(format!("{:?}", once).contains("module: \"x\""));
    assert!(matches!(normalize_type_module_path(&MetaType::Bytes), MetaType::Bytes));
}
