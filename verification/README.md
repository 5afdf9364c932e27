# uniffi_bindgen

Bindings generation support for UniFFI components, as a Verus-verified library.

The library models a component interface and the rules that turn it into
foreign-language bindings, and proves those rules against their contracts:

- `interface::types`: the types of a component, their canonical names (proved
  unique), the type universe with its named definitions, the resolution of UDL
  type expressions and the discovery of the types a UDL file defines;
- `interface::attributes`: UDL attributes and which definitions support them;
- `interface::syntax`, `interface::builder`, `interface::built_types`: the
  parsed UDL definitions, the building of a component from them (functions,
  records, enums and errors, objects with their constructors and methods,
  callback interfaces, with the checks that refuse duplicates and conflicts),
  and the proof that a built component knows every type it uses;
- `interface::component`: the definitions of a component (records, enums,
  objects, callback interfaces, functions, with their docstrings) that the
  bindings IR is built from;
- `interface::ffi`, `interface::ir`: the FFI layer, the mapping of the FFI
  definitions and of the type definitions into the bindings IR, and the sort
  that puts every definition after its dependencies;
- `interface::exclude`, `interface::rename`: removing the items that the
  configuration excludes, and renaming items and their parts by TOML tables;
- `interface::ffi_names`, `interface::pointer_ffi`, `interface::cistring`,
  `interface::languages`, `interface::literal`, `interface::universe`: names
  (module paths cut to crate names, on types as metadata gives them),
  literals and small values of the interface;
- `bindings::swift`: the Swift configuration (and its merge), the filters that
  render types, names and literals as Swift, the Swift code types, and the
  decisions of the Swift generator; `bindings::udl`: docstrings as UDL;
- `codegen`: the language-agnostic behaviour of types, and a set of rendered
  templates without duplicates;
- `toml_table`, `global_config`: TOML documents held as plain values, their
  recursive later-wins merge (with its lookup law), and the global
  configuration: the sections of a global config file, old-style files
  ignored, and the merged configuration of a crate;
- `crate_metadata`: crate locations (configuration and UDL files) given in
  TOML;
- `crate_mode`: finding a crate's package in the cargo metadata, the sources
  whose configurations a source takes defaults from, and putting the main
  crate's source first; `context`: where binding-specific files live.

Parsing UDL is done by `weedle`, parsing TOML by `toml`, and case conversion
by `heck`; the library calls them through small trusted wrappers whose
contracts name their results.

`app/` holds what reads and writes files, runs tools or needs serde.
