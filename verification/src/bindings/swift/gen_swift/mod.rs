//! Swift bindings: the configuration a caller can give, and the filters and
//! code types that render the component interface as Swift.

use vstd::prelude::*;

use crate::merge::{merged, MergeWith};
use crate::text::{owned, push_str};

use filters::var_name_swift;
use crate::casing::lower_camel_case;

pub mod blocking_task_queue;
pub mod callback_interface;
pub mod compounds;
pub mod custom;
pub mod error;
pub mod filters;
pub mod primitives;

verus! {

/// How a type is written and handled in the generated Swift.
pub trait CodeType {
    /// The name of the type in Swift, as text.
    spec fn label(&self) -> Seq<char>;

    /// The name of the type in Swift.
    fn type_label(&self) -> (res: String)
        ensures
            res@ == self.label(),
    ;

    /// The canonical, unique-within-this-component name for the type: unless
    /// the type names itself otherwise, its Swift name.
    fn canonical_name(&self) -> (res: String)
        default_ensures
            res@ == self.label(),
    {
        self.type_label()
    }

    /// Code that lowers the named value into its FFI value.
    fn lower(&self, nm: &str) -> (res: String)
        default_ensures
            res@ == lower_camel_case(nm@) + ".lower()"@,
    {
        let mut s = var_name_swift(nm);
        push_str(&mut s, ".lower()");
        s
    }

    /// Code that writes the named value into the target buffer.
    fn write(&self, nm: &str, target: &str) -> (res: String)
        default_ensures
            res@ == lower_camel_case(nm@) + ".write(into: "@ + target@ + ")"@,
    {
        let mut s = var_name_swift(nm);
        push_str(&mut s, ".write(into: ");
        push_str(&mut s, target);
        push_str(&mut s, ")");
        s
    }

    /// Code that lifts the named FFI value into a Swift value.
    fn lift(&self, nm: &str) -> (res: String)
        default_ensures
            res@ == self.label() + ".lift("@ + nm@ + ")"@,
    {
        let mut s = self.type_label();
        push_str(&mut s, ".lift(");
        push_str(&mut s, nm);
        push_str(&mut s, ")");
        s
    }

    /// Code that reads a Swift value from the named buffer.
    fn read(&self, nm: &str) -> (res: String)
        default_ensures
            res@ == self.label() + ".read(from: "@ + nm@ + ")"@,
    {
        let mut s = self.type_label();
        push_str(&mut s, ".read(from: ");
        push_str(&mut s, nm);
        push_str(&mut s, ")");
        s
    }

    /// Helper code that the type needs, if any: unless the type has some, none.
    fn helper_code(&self) -> (res: Option<String>)
        default_ensures
            res is None,
    {
        None
    }
}

/// Config options for the caller to customize the generated Swift.
///
/// Note that this can only be used to control details of the Swift *that do not affect the
/// underlying component*, since the details of the underlying component are entirely
/// determined by the `ComponentInterface`.
#[derive(Debug)]
pub struct Config {
    pub cdylib_name: Option<String>,
    pub module_name: Option<String>,
    pub ffi_module_name: Option<String>,
    pub ffi_module_filename: Option<String>,
    pub generate_module_map: Option<bool>,
}

/// The text of an optional string, or the given default where it is unset.
pub open spec fn or_default(v: Option<String>, default: Seq<char>) -> Seq<char> {
    match v {
        Some(s) => s@,
        None => default,
    }
}

impl Config {
    pub open spec fn module_name_text(&self) -> Seq<char> {
        or_default(self.module_name, "uniffi"@)
    }

    pub open spec fn ffi_module_name_text(&self) -> Seq<char> {
        or_default(self.ffi_module_name, self.module_name_text() + "FFI"@)
    }

    pub open spec fn ffi_module_filename_text(&self) -> Seq<char> {
        or_default(self.ffi_module_filename, self.ffi_module_name_text())
    }

    /// The configuration for a component with the given namespace: the module
    /// takes the namespace's name, and the library is `uniffi_` and the name.
    pub fn from_namespace(namespace: &str) -> (res: Config)
        ensures
            res.module_name is Some && res.module_name->0@ == namespace@,
            res.cdylib_name is Some && res.cdylib_name->0@ == "uniffi_"@ + namespace@,
            res.ffi_module_name is None,
            res.ffi_module_filename is None,
            res.generate_module_map is None,
    {
        let mut cdylib = owned("uniffi_");
        push_str(&mut cdylib, namespace);
        Config {
            module_name: Some(owned(namespace)),
            cdylib_name: Some(cdylib),
            ffi_module_name: None,
            ffi_module_filename: None,
            generate_module_map: None,
        }
    }

    /// Gives the module the component's namespace as its name, where no name is set.
    pub fn set_default_module_name(&mut self, namespace: &str)
        ensures
            old(self).module_name is Some ==> final(self).module_name == old(self).module_name,
            old(self).module_name is None ==> final(self).module_name is Some
                && final(self).module_name->0@ == namespace@,
            final(self).cdylib_name == old(self).cdylib_name,
            final(self).ffi_module_name == old(self).ffi_module_name,
            final(self).ffi_module_filename == old(self).ffi_module_filename,
            final(self).generate_module_map == old(self).generate_module_map,
    {
        if self.module_name.is_none() {
            self.module_name = Some(owned(namespace));
        }
    }

    /// The name of the Swift module containing the high-level foreign-language bindings.
    pub fn module_name(&self) -> (res: String)
        ensures
            res@ == self.module_name_text(),
    {
        match self.module_name.as_ref() {
            Some(name) => name.clone(),
            None => owned("uniffi"),
        }
    }

    /// The name of the lower-level C module containing the FFI declarations.
    pub fn ffi_module_name(&self) -> (res: String)
        ensures
            res@ == self.ffi_module_name_text(),
    {
        match self.ffi_module_name.as_ref() {
            Some(name) => name.clone(),
            None => {
                let mut s = self.module_name();
                push_str(&mut s, "FFI");
                s
            },
        }
    }

    /// The filename stem for the lower-level C module containing the FFI declarations.
    pub fn ffi_module_filename(&self) -> (res: String)
        ensures
            res@ == self.ffi_module_filename_text(),
    {
        match self.ffi_module_filename.as_ref() {
            Some(name) => name.clone(),
            None => self.ffi_module_name(),
        }
    }

    /// The name of the `.modulemap` file for the lower-level C module with FFI declarations.
    pub fn modulemap_filename(&self) -> (res: String)
        ensures
            res@ == self.ffi_module_filename_text() + ".modulemap"@,
    {
        let mut s = self.ffi_module_filename();
        push_str(&mut s, ".modulemap");
        s
    }

    /// The name of the `.h` file for the lower-level C module with FFI declarations.
    pub fn header_filename(&self) -> (res: String)
        ensures
            res@ == self.ffi_module_filename_text() + ".h"@,
    {
        let mut s = self.ffi_module_filename();
        push_str(&mut s, ".h");
        s
    }

    /// The name of the compiled Rust library containing the FFI implementation.
    pub fn cdylib_name(&self) -> (res: String)
        ensures
            res@ == or_default(self.cdylib_name, "uniffi"@),
    {
        if let Some(cdylib_name) = &self.cdylib_name {
            cdylib_name.clone()
        } else {
            owned("uniffi")
        }
    }

    /// Whether to generate a `.modulemap` file for the lower-level C module with FFI declarations.
    pub fn generate_module_map(&self) -> (res: bool)
        ensures
            res == self.generate_module_map.unwrap_or(true),
    {
        self.generate_module_map.unwrap_or(true)
    }
}

/// The configuration that merging `a` with `b` gives: each option of `a`
/// where it is set, else that of `b`.
pub open spec fn merged_config(a: Config, b: Config) -> Config {
    Config {
        cdylib_name: merged(a.cdylib_name, b.cdylib_name),
        module_name: merged(a.module_name, b.module_name),
        ffi_module_name: merged(a.ffi_module_name, b.ffi_module_name),
        ffi_module_filename: merged(a.ffi_module_filename, b.ffi_module_filename),
        generate_module_map: merged(a.generate_module_map, b.generate_module_map),
    }
}

/// The configuration with no option set.
pub open spec fn unset_config() -> Config {
    Config {
        cdylib_name: None,
        module_name: None,
        ffi_module_name: None,
        ffi_module_filename: None,
        generate_module_map: None,
    }
}

impl Default for Config {
    fn default() -> (res: Self)
        ensures
            res == unset_config(),
    {
        Config {
            cdylib_name: None,
            module_name: None,
            ffi_module_name: None,
            ffi_module_filename: None,
            generate_module_map: None,
        }
    }
}

impl MergeWith for Config {
    fn merge_with(&self, other: &Self) -> (res: Self)
        ensures
            res == merged_config(*self, *other),
    {
        Config {
            module_name: self.module_name.merge_with(&other.module_name),
            ffi_module_name: self.ffi_module_name.merge_with(&other.ffi_module_name),
            cdylib_name: self.cdylib_name.merge_with(&other.cdylib_name),
            ffi_module_filename: self.ffi_module_filename.merge_with(&other.ffi_module_filename),
            generate_module_map: self.generate_module_map.merge_with(&other.generate_module_map),
        }
    }
}

/// Merging a configuration with itself gives it back.
pub proof fn lemma_merge_idempotent(c: Config)
    ensures
        merged_config(c, c) == c,
{
}

/// A configuration with nothing set changes nothing, on either side of a merge.
pub proof fn lemma_merge_unset_identity(c: Config)
    ensures
        merged_config(c, unset_config()) == c,
        merged_config(unset_config(), c) == c,
{
}

/// Merging is associative: which pair is merged first does not matter.
pub proof fn lemma_merge_associative(a: Config, b: Config, c: Config)
    ensures
        merged_config(merged_config(a, b), c) == merged_config(a, merged_config(b, c)),
{
}

/// An option set in the first configuration is the one the merge keeps.
pub proof fn lemma_merge_first_wins(a: Config, b: Config)
    ensures
        a.module_name is Some ==> merged_config(a, b).module_name == a.module_name,
        a.cdylib_name is Some ==> merged_config(a, b).cdylib_name == a.cdylib_name,
        a.ffi_module_name is Some ==> merged_config(a, b).ffi_module_name == a.ffi_module_name,
        a.ffi_module_filename is Some ==> merged_config(a, b).ffi_module_filename
            == a.ffi_module_filename,
        a.generate_module_map is Some ==> merged_config(a, b).generate_module_map
            == a.generate_module_map,
{
}

} // verus!
