use uniffi_bindgen::crate_metadata::{CrateConfigPath, TomlCrateConfigSupplier, UdlPath};
use uniffi_bindgen::global_config::{is_old_style_config, GlobalConfig};
use uniffi_bindgen::toml_table::{TomlTable, TomlValue};

fn value_at<'a>(table: &'a TomlTable, path: &[&str]) -> &'a TomlValue {
    let mut v = table.get(path[0]).unwrap();
    for key in &path[1..] {
        v = v.get(key).unwrap();
    }
    v
}

fn str_at<'a>(table: &'a TomlTable, path: &[&str]) -> &'a str {
    value_at(table, path).as_str().unwrap()
}

#[test]
fn test_empty_global_config() {
    let config = GlobalConfig::default();
    let table = config.get_config("my_crate", None).unwrap();
    assert!(table.is_empty());
}

#[test]
fn test_defaults_only() {
    let (config, roots) = GlobalConfig::from_text(
        r#"
            [defaults.bindings.swift]
            ffi_module_name = "MyFFI"
        "#,
    )
    .unwrap();
    assert!(roots.is_none());
    // The crate has no uniffi.toml.
    let table = config.get_config("my_crate", None).unwrap();
    assert_eq!(str_at(&table, &["bindings", "swift", "ffi_module_name"]), "MyFFI");
}

#[test]
fn test_crate_config_overrides_defaults() {
    let (config, _) = GlobalConfig::from_text(
        r#"
            [defaults.bindings.swift]
            ffi_module_name = "DefaultFFI"
            generate_immutable_records = true
        "#,
    )
    .unwrap();
    // The crate's uniffi.toml overrides ffi_module_name but not generate_immutable_records.
    let crate_file = r#"
        [bindings.swift]
        ffi_module_name = "CrateFFI"
    "#;
    let table = config.get_config("my_crate", Some(crate_file)).unwrap();
    // crate wins on the overlapping key
    assert_eq!(str_at(&table, &["bindings", "swift", "ffi_module_name"]), "CrateFFI");
    // default fills in the rest
    assert!(value_at(&table, &["bindings", "swift", "generate_immutable_records"])
        .as_bool()
        .unwrap());
}

#[test]
fn test_per_crate_overrides_win() {
    let (config, _) = GlobalConfig::from_text(
        r#"
            [defaults.bindings.swift]
            ffi_module_name = "DefaultFFI"

            [crates.my_crate.bindings.swift]
            ffi_module_name = "OverrideFFI"
            ffi_module_filename = "my_crate_ffi"
        "#,
    )
    .unwrap();
    let crate_file = r#"
        [bindings.swift]
        ffi_module_name = "CrateFFI"
    "#;
    let table = config.get_config("my_crate", Some(crate_file)).unwrap();
    // per-crate override wins over both default and crate uniffi.toml
    assert_eq!(str_at(&table, &["bindings", "swift", "ffi_module_name"]), "OverrideFFI");
    // per-crate override also adds new keys
    assert_eq!(str_at(&table, &["bindings", "swift", "ffi_module_filename"]), "my_crate_ffi");
}

#[test]
fn test_deep_merge() {
    let (config, _) = GlobalConfig::from_text(
        r#"
            [defaults.bindings.swift]
            ffi_module_name = "SharedFFI"

            [crates.my_crate.bindings.kotlin]
            package_name = "com.example"
        "#,
    )
    .unwrap();
    let crate_file = r#"
        [bindings.swift]
        ffi_module_filename = "my_crate_ffi"
    "#;
    let table = config.get_config("my_crate", Some(crate_file)).unwrap();
    // swift keys from both default and crate uniffi.toml are present
    assert_eq!(str_at(&table, &["bindings", "swift", "ffi_module_name"]), "SharedFFI");
    assert_eq!(str_at(&table, &["bindings", "swift", "ffi_module_filename"]), "my_crate_ffi");
    // kotlin key from per-crate override is present
    assert_eq!(str_at(&table, &["bindings", "kotlin", "package_name"]), "com.example");
}

#[test]
fn test_crate_roots_layer() {
    let (config, roots) = GlobalConfig::from_text(
        r#"
            [crate-roots]
            my_crate = "crates/my_crate"
        "#,
    )
    .unwrap();
    let roots = roots.expect("expected crate roots");
    // The root is given relative to the global config file's directory.
    assert_eq!(roots, vec![("my_crate".to_string(), "crates/my_crate".to_string())]);
    // get_config works even with no uniffi.toml present
    let table = config.get_config("my_crate", None).unwrap();
    assert!(table.is_empty());
}

#[test]
fn test_old_style_config_returns_default() {
    // Old-style: flat keys not under [defaults], [crates.*], or [crate-roots]
    let text = r#"
        [bindings.swift]
        ffi_module_name = "OldFFI"
    "#;
    assert!(is_old_style_config(text));
    let (config, roots) = GlobalConfig::from_text(text).unwrap();
    assert!(roots.is_none());
    // Old-style config is ignored; result is empty
    let table = config.get_config("my_crate", None).unwrap();
    assert!(table.is_empty());
}

#[test]
fn global_config_sections_of_the_wrong_shape() {
    assert_eq!(
        GlobalConfig::from_text("[crate-roots]\nmy_crate = 3\n").unwrap_err(),
        "crate-roots.my_crate must be a string"
    );
    assert_eq!(
        GlobalConfig::from_text("crates = 1\n").unwrap_err(),
        "crates must be a table"
    );
    assert_eq!(
        GlobalConfig::from_text("[crates]\nmy_crate = \"x\"\n").unwrap_err(),
        "crates.my_crate must be a table"
    );
    assert_eq!(
        GlobalConfig::from_text("defaults = [1, 2]\n").unwrap_err(),
        "defaults must be a table"
    );
    assert_eq!(
        GlobalConfig::from_text("this is = = not toml").unwrap_err(),
        "not a TOML document"
    );
    // An empty file is no old-style file: it is the empty config.
    assert!(!is_old_style_config(""));
    let (config, roots) = GlobalConfig::from_text("").unwrap();
    assert!(roots.is_none());
    assert!(config.defaults.is_empty());
    // Other keys beside the sections are ignored.
    let (config, _) = GlobalConfig::from_text("other = 1\n[defaults]\nx = 2.5\n").unwrap();
    assert!(matches!(config.defaults.get("x"), Some(TomlValue::Float(f)) if f == "2.5"));
}

#[test]
fn crate_config_later_wins_and_tables_merge() {
    let (config, _) = GlobalConfig::from_text(
        r#"
            [defaults]
            a = 1
            t = { x = 1, y = 2 }
            arr = [1, 2]

            [crates.other]
            a = 100
        "#,
    )
    .unwrap();
    let table = config
        .get_config("mine", Some("a = \"two\"\nt = { y = 3, z = 4 }\narr = [5]\n"))
        .unwrap();
    // A non-table value is replaced by the later one, even of another kind.
    assert_eq!(table.get("a").unwrap().as_str(), Some("two"));
    // Tables merge key by key.
    assert!(matches!(value_at(&table, &["t", "x"]), TomlValue::Integer(1)));
    assert!(matches!(value_at(&table, &["t", "y"]), TomlValue::Integer(3)));
    assert!(matches!(value_at(&table, &["t", "z"]), TomlValue::Integer(4)));
    // Arrays are replaced, not concatenated.
    match table.get("arr").unwrap() {
        TomlValue::Array(a) => assert_eq!(format!("{:?}", a).matches("Integer").count(), 1),
        other => panic!("not an array: {:?}", other),
    }
    // Another crate's override does not apply.
    assert!(config.get_config("mine", None).unwrap().get("a").is_some());
    assert!(matches!(
        config.get_config("mine", None).unwrap().get("a"),
        Some(TomlValue::Integer(1))
    ));
    assert!(matches!(
        config.get_config("other", None).unwrap().get("a"),
        Some(TomlValue::Integer(100))
    ));
    assert!(config.get_config("mine", Some("not = = toml")).is_err());
}

#[test]
fn crate_locations_from_toml() {
    let s = TomlCrateConfigSupplier::from_text(
        r#"
            [my_crate]
            crate_root = "path/to/my_crate"

            [other_crate]
            config = "path/to/other_crate/other.toml"
            "other_crate.udl" = "path/to/other_crate/src/other_crate.udl"

            [bad_crate]
            config = 3
            "x.udl" = 4
        "#,
    )
    .unwrap();
    assert!(matches!(s.config_path("my_crate"), Ok(Some(CrateConfigPath::InCrateRoot(p))) if p == "path/to/my_crate"));
    assert!(matches!(s.config_path("other_crate"), Ok(Some(CrateConfigPath::Explicit(p))) if p == "path/to/other_crate/other.toml"));
    assert!(matches!(s.config_path("unknown"), Ok(None)));
    assert_eq!(s.config_path("bad_crate").unwrap_err(), "toml value is not a string");
    assert!(matches!(s.udl_path("my_crate", "my_crate"), Some(UdlPath::InCrateRoot(p)) if p == "path/to/my_crate"));
    assert!(matches!(s.udl_path("other_crate", "other_crate.udl"), Some(UdlPath::Explicit(p)) if p == "path/to/other_crate/src/other_crate.udl"));
    assert!(s.udl_path("other_crate", "missing.udl").is_none());
    assert!(s.udl_path("bad_crate", "x.udl").is_none());
    assert!(TomlCrateConfigSupplier::from_text("= broken").is_none());
}
