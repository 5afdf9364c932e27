//! Crate locations specified in TOML, for environments where cargo metadata
//! is not available. For example:
//!
//! ```toml
//! [my_crate]
//! crate_root = "path/to/my_crate"
//!
//! [other_crate]
//! config = "path/to/other_crate/other.toml"
//! "other_crate.udl" = "path/to/other_crate/src/other_crate.udl"
//! ```
//!
//! With `crate_root`, `uniffi.toml` and any requested UDL files are located
//! relative to the crate root; otherwise the explicit paths are used. Paths
//! are relative to the TOML file itself, or absolute; joining them to the
//! file's directory is left to the caller.

use vstd::prelude::*;

use crate::text::owned;
use crate::toml_table::{lookup, parse_toml_table, parsed_toml_table, TomlTable, TomlValue};

verus! {

/// Where a crate's configuration file is.
#[derive(Debug)]
pub enum CrateConfigPath {
    /// The path of the file itself.
    Explicit(String),
    /// The crate root: the file is `uniffi.toml` in it, if it exists there.
    InCrateRoot(String),
}

/// Where a UDL file of a crate is.
#[derive(Debug)]
pub enum UdlPath {
    /// The path of the file itself.
    Explicit(String),
    /// The crate root: the file is `src/<udl_name>.udl` in it.
    InCrateRoot(String),
}

/// The crate locations that a TOML file specifies.
#[derive(Debug)]
pub struct TomlCrateConfigSupplier {
    /// The content of the TOML file.
    pub toml: TomlTable,
}

/// The entry of a key in a value, where the value is a table.
pub open spec fn value_lookup(v: Option<TomlValue>, key: Seq<char>) -> Option<TomlValue> {
    match v {
        Some(TomlValue::Table(t)) => lookup(t, key),
        _ => None,
    }
}

/// Where a crate's configuration is: `config` names the file, else
/// `crate_root` the crate root; each must be a string.
pub open spec fn config_path_of(toml: TomlTable, crate_name: Seq<char>) -> Result<
    Option<(bool, Seq<char>)>,
    Seq<char>,
> {
    let meta = lookup(toml, crate_name);
    match value_lookup(meta, "config"@) {
        Some(TomlValue::String(p)) => Ok(Some((true, p@))),
        Some(_) => Err("toml value is not a string"@),
        None => match value_lookup(meta, "crate_root"@) {
            Some(TomlValue::String(p)) => Ok(Some((false, p@))),
            Some(_) => Err("toml value is not a string"@),
            None => Ok(None),
        },
    }
}

/// Where a UDL file of a crate is: the entry named after the file, else
/// under `crate_root`; an entry that is no string locates nothing.
pub open spec fn udl_path_of(toml: TomlTable, crate_name: Seq<char>, udl_name: Seq<char>) -> Option<
    (bool, Seq<char>),
> {
    let meta = lookup(toml, crate_name);
    match value_lookup(meta, udl_name) {
        Some(TomlValue::String(p)) => Some((true, p@)),
        Some(_) => None,
        None => match value_lookup(meta, "crate_root"@) {
            Some(TomlValue::String(p)) => Some((false, p@)),
            _ => None,
        },
    }
}

fn get_in<'a>(v: Option<&'a TomlValue>, key: &str) -> (res: Option<&'a TomlValue>)
    ensures
        match value_lookup(
            match v {
                Some(x) => Some(*x),
                None => None,
            },
            key@,
        ) {
            Some(x) => res matches Some(r) && *r == x,
            None => res is None,
        },
{
    match v {
        Some(x) => x.get(key),
        None => None,
    }
}

impl TomlCrateConfigSupplier {
    /// Parses the TOML file's text; `None` where it is no TOML document.
    pub fn from_text(text: &str) -> (res: Option<Self>)
        ensures
            match parsed_toml_table(text@) {
                Some(t) => res matches Some(s) && s.toml == t,
                None => res is None,
            },
    {
        match parse_toml_table(text) {
            Some(toml) => Some(TomlCrateConfigSupplier { toml }),
            None => None,
        }
    }

    /// Where the crate's configuration file is, if the TOML says; an entry
    /// that is no string is an error.
    pub fn config_path(&self, crate_name: &str) -> (res: Result<Option<CrateConfigPath>, String>)
        ensures
            match config_path_of(self.toml, crate_name@) {
                Ok(Some((true, p))) => res matches Ok(Some(CrateConfigPath::Explicit(q))) && q@ == p,
                Ok(Some((false, p))) => res matches Ok(Some(CrateConfigPath::InCrateRoot(q))) && q@
                    == p,
                Ok(None) => res matches Ok(None),
                Err(e) => res matches Err(m) && m@ == e,
            },
    {
        let meta = self.toml.get(crate_name);
        match get_in(meta, "config") {
            Some(TomlValue::String(p)) => Ok(Some(CrateConfigPath::Explicit(p.clone()))),
            Some(_) => Err(owned("toml value is not a string")),
            None => match get_in(meta, "crate_root") {
                Some(TomlValue::String(p)) => Ok(Some(CrateConfigPath::InCrateRoot(p.clone()))),
                Some(_) => Err(owned("toml value is not a string")),
                None => Ok(None),
            },
        }
    }

    /// Where the UDL file of the crate is, if the TOML says.
    pub fn udl_path(&self, crate_name: &str, udl_name: &str) -> (res: Option<UdlPath>)
        ensures
            match udl_path_of(self.toml, crate_name@, udl_name@) {
                Some((true, p)) => res matches Some(UdlPath::Explicit(q)) && q@ == p,
                Some((false, p)) => res matches Some(UdlPath::InCrateRoot(q)) && q@ == p,
                None => res is None,
            },
    {
        let meta = self.toml.get(crate_name);
        match get_in(meta, udl_name) {
            Some(TomlValue::String(p)) => Some(UdlPath::Explicit(p.clone())),
            Some(_) => None,
            None => match get_in(meta, "crate_root") {
                Some(TomlValue::String(p)) => Some(UdlPath::InCrateRoot(p.clone())),
                _ => None,
            },
        }
    }
}

} // verus!
