use uniffi_bindgen::context::UniffiContext;
use uniffi_bindgen::crate_mode::{dependency_sources, main_source_index, move_to_front, SourceInfo};

fn source(id: &str, name: &str, crate_name: &str, deps: &[&str]) -> SourceInfo {
    SourceInfo {
        package_id: id.into(),
        package_name: name.into(),
        crate_name: crate_name.into(),
        dependencies: deps.iter().map(|d| d.to_string()).collect(),
    }
}

#[test]
fn bindings_path_components() {
    let context = UniffiContext { crate_root: "/work/my-crate".into() };
    assert_eq!(
        context.get_bindings_path("swift", "Module.swift"),
        vec!["/work/my-crate", "uniffi", "bindings", "swift", "Module.swift"]
    );
}

#[test]
fn configurations_come_from_dependencies() {
    let sources = vec![
        source("a 1.0", "a", "a_lib", &["b", "serde"]),
        source("b 1.0", "b", "b_lib", &["c"]),
        source("c 1.0", "c", "c_lib", &[]),
        source("a 2.0", "a", "a_lib", &["a"]),
    ];
    assert_eq!(dependency_sources(&sources, 0), vec![1]);
    assert_eq!(dependency_sources(&sources, 1), vec![2]);
    assert!(dependency_sources(&sources, 2).is_empty());
    // A package named like its own is another source; the source itself is not.
    assert_eq!(dependency_sources(&sources, 3), vec![0]);
}

#[test]
fn main_crate_first() {
    let sources = vec![
        source("b 1.0", "b", "b_lib", &[]),
        source("c 1.0", "c", "c_lib", &[]),
        source("a 1.0", "a", "a_lib", &["b"]),
        source("d 1.0", "d", "d_lib", &[]),
    ];
    assert_eq!(main_source_index(&sources, "a 1.0"), Some(2));
    assert_eq!(main_source_index(&sources, "z 1.0"), None);
    let mut names = vec!["b", "c", "a", "d"];
    move_to_front(&mut names, 2);
    assert_eq!(names, vec!["a", "c", "b", "d"]);
    move_to_front(&mut names, 0);
    assert_eq!(names, vec!["a", "c", "b", "d"]);
    move_to_front(&mut names, 1);
    assert_eq!(names, vec!["c", "a", "b", "d"]);
}
