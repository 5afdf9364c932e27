//! Global configuration for UniFFI: defaults and per-crate overrides from a
//! global config file, and the merged configuration of a crate.

use vstd::prelude::*;

use crate::text::{owned, push_str, str_eq};
use crate::toml_table::{keys_distinct, layered, lemma_merge_lookup, lookup, merge, merged, parse_toml_table, parsed_toml_table, TomlTable, TomlValue};

verus! {

/// Global configuration for UniFFI.
///
/// Holds defaults and per-crate overrides from a global config file.
#[derive(Debug)]
pub struct GlobalConfig {
    pub defaults: TomlTable,
    /// The `[crates.<name>]` tables, by crate name, in the file's order.
    pub crate_overrides: Vec<(String, TomlTable)>,
}

impl Default for GlobalConfig {
    fn default() -> (res: Self)
        ensures
            res.defaults is Empty,
            res.crate_overrides@.len() == 0,
    {
        GlobalConfig { defaults: TomlTable::Empty, crate_overrides: Vec::new() }
    }
}

/// Whether the table has one of the sections of a global config file.
pub open spec fn has_global_config_keys(raw: TomlTable) -> bool {
    ||| lookup(raw, "crate-roots"@) is Some
    ||| lookup(raw, "defaults"@) is Some
    ||| lookup(raw, "crates"@) is Some
}

/// A non-empty file with none of the sections is an old-style flat config
/// file, which is no longer supported.
pub open spec fn is_old_style(raw: TomlTable) -> bool {
    !has_global_config_keys(raw) && !(raw is Empty)
}

/// The error for an entry of a section that has the wrong shape.
pub open spec fn shape_error(section: Seq<char>, key: Seq<char>, what: Seq<char>) -> Seq<char> {
    section + "."@ + key + " must be a "@ + what
}

/// The entries of a `[crate-roots]` table: each value must be a string.
pub open spec fn string_entries(t: TomlTable) -> Result<Seq<(String, String)>, Seq<char>>
    decreases t,
{
    match t {
        TomlTable::Empty => Ok(Seq::empty()),
        TomlTable::Entry(k, v, rest) => match *v {
            TomlValue::String(p) => match string_entries(*rest) {
                Ok(s) => Ok(seq![(k, p)] + s),
                Err(e) => Err(e),
            },
            _ => Err(shape_error("crate-roots"@, k@, "string"@)),
        },
    }
}

/// The entries of a `[crates]` table: each value must be a table.
pub open spec fn table_entries(t: TomlTable) -> Result<Seq<(String, TomlTable)>, Seq<char>>
    decreases t,
{
    match t {
        TomlTable::Empty => Ok(Seq::empty()),
        TomlTable::Entry(k, v, rest) => match *v {
            TomlValue::Table(c) => match table_entries(*rest) {
                Ok(s) => Ok(seq![(k, c)] + s),
                Err(e) => Err(e),
            },
            _ => Err(shape_error("crates"@, k@, "table"@)),
        },
    }
}

pub open spec fn roots_section(v: Option<TomlValue>) -> Result<Seq<(String, String)>, Seq<char>> {
    match v {
        None => Ok(Seq::empty()),
        Some(TomlValue::Table(t)) => string_entries(t),
        Some(_) => Err("crate-roots must be a table"@),
    }
}

pub open spec fn crates_section(v: Option<TomlValue>) -> Result<Seq<(String, TomlTable)>, Seq<char>> {
    match v {
        None => Ok(Seq::empty()),
        Some(TomlValue::Table(t)) => table_entries(t),
        Some(_) => Err("crates must be a table"@),
    }
}

pub open spec fn defaults_section(v: Option<TomlValue>) -> Result<TomlTable, Seq<char>> {
    match v {
        None => Ok(TomlTable::Empty),
        Some(TomlValue::Table(t)) => Ok(t),
        Some(_) => Err("defaults must be a table"@),
    }
}

/// What a global config file's table gives: its defaults, its per-crate
/// overrides and its crate roots (name and path relative to the file's
/// directory). An old-style file gives nothing; a section of the wrong shape
/// is an error, `[crate-roots]` checked first, then `[crates]`, then
/// `[defaults]`; other keys are ignored.
pub open spec fn config_file_outcome(raw: TomlTable) -> Result<
    (TomlTable, Seq<(String, TomlTable)>, Seq<(String, String)>),
    Seq<char>,
> {
    if is_old_style(raw) {
        Ok((TomlTable::Empty, Seq::empty(), Seq::empty()))
    } else {
        match roots_section(lookup(raw, "crate-roots"@)) {
            Err(e) => Err(e),
            Ok(r) => match crates_section(lookup(raw, "crates"@)) {
                Err(e) => Err(e),
                Ok(c) => match defaults_section(lookup(raw, "defaults"@)) {
                    Err(e) => Err(e),
                    Ok(d) => Ok((d, c, r)),
                },
            },
        }
    }
}

/// The global config and crate roots the table gives, as the outcome says;
/// no crate roots where the file lists none.
pub open spec fn config_matches(
    res: Result<(GlobalConfig, Option<Vec<(String, String)>>), String>,
    outcome: Result<(TomlTable, Seq<(String, TomlTable)>, Seq<(String, String)>), Seq<char>>,
) -> bool {
    match outcome {
        Ok((d, c, r)) => res matches Ok((g, roots)) && g.defaults == d && g.crate_overrides@ == c
            && if r.len() == 0 {
            roots is None
        } else {
            roots matches Some(v) && v@ == r
        },
        Err(e) => res matches Err(m) && m@ == e,
    }
}

/// An old-style flat config file is ignored: it gives the empty config and
/// no crate roots.
pub proof fn lemma_old_style_is_ignored(raw: TomlTable)
    requires
        is_old_style(raw),
    ensures
        config_file_outcome(raw) == Ok::<_, Seq<char>>(
            (TomlTable::Empty, Seq::<(String, TomlTable)>::empty(), Seq::<(String, String)>::empty()),
        ),
{
}

/// The first per-crate override of the crate.
pub open spec fn override_of(s: Seq<(String, TomlTable)>, name: Seq<char>) -> Option<TomlTable>
    decreases s.len(),
{
    if s.len() == 0 {
        None
    } else if s[0].0@ == name {
        Some(s[0].1)
    } else {
        override_of(s.drop_first(), name)
    }
}

/// The table, or the empty table where there is none.
pub open spec fn or_empty(t: Option<TomlTable>) -> TomlTable {
    match t {
        Some(t) => t,
        None => TomlTable::Empty,
    }
}

/// The merged config of a crate: the defaults, then the crate's own file,
/// then its override, later wins.
pub open spec fn crate_config(
    defaults: TomlTable,
    crate_file: Option<TomlTable>,
    overrides: Option<TomlTable>,
) -> TomlTable {
    merged(merged(defaults, or_empty(crate_file)), or_empty(overrides))
}

/// In the merged config of a crate, a key looks up to the defaults' value,
/// with the crate file's value merged over it, and the override's over that:
/// later wins, and tables merge recursively.
pub proof fn lemma_crate_config_later_wins(
    defaults: TomlTable,
    crate_file: Option<TomlTable>,
    overrides: Option<TomlTable>,
    q: Seq<char>,
)
    requires
        keys_distinct(defaults),
        keys_distinct(or_empty(crate_file)),
        keys_distinct(or_empty(overrides)),
    ensures
        lookup(crate_config(defaults, crate_file, overrides), q) == layered(
            layered(lookup(defaults, q), lookup(or_empty(crate_file), q)),
            lookup(or_empty(overrides), q),
        ),
{
    lemma_merge_lookup(defaults, or_empty(crate_file), q);
    lemma_merge_lookup(merged(defaults, or_empty(crate_file)), or_empty(overrides), q);
}

/// Whether the table is an old-style flat config file.
fn table_is_old_style(raw: &TomlTable) -> (res: bool)
    ensures
        res == is_old_style(*raw),
{
    !(raw.contains_key("crate-roots") || raw.contains_key("defaults") || raw.contains_key("crates"))
        && !raw.is_empty()
}

/// Takes the first entry with the key out of the table: its value, and the
/// rest of the table, where the other keys look up as before.
fn take_entry(t: TomlTable, key: &str) -> (res: (Option<TomlValue>, TomlTable))
    ensures
        res.0 == lookup(t, key@),
        forall|q: Seq<char>| q != key@ ==> #[trigger] lookup(res.1, q) == lookup(t, q),
    decreases t,
{
    match t {
        TomlTable::Empty => {
            assert forall|q: Seq<char>| q != key@ implies #[trigger] lookup(TomlTable::Empty, q)
                == lookup(t, q) by {}
            (None, TomlTable::Empty)
        },
        TomlTable::Entry(k, v, rest) => {
            let ghost t0 = TomlTable::Entry(k, v, rest);
            if str_eq(k.as_str(), key) {
                assert forall|q: Seq<char>| q != key@ implies #[trigger] lookup(*rest, q) == lookup(
                    t0,
                    q,
                ) by {}
                (Some(*v), *rest)
            } else {
                let (found, r2) = take_entry(*rest, key);
                let r = TomlTable::Entry(k, v, Box::new(r2));
                assert forall|q: Seq<char>| q != key@ implies #[trigger] lookup(r, q) == lookup(
                    t0,
                    q,
                ) by {
                    if k@ != q {
                        assert(lookup(r2, q) == lookup(*rest, q));
                    }
                }
                (found, r)
            }
        },
    }
}

fn section_error(section: &str, key: &str, what: &str) -> (res: String)
    ensures
        res@ == shape_error(section@, key@, what@),
{
    proof {
        reveal_strlit(".");
        reveal_strlit(" must be a ");
    }
    let mut m = owned(section);
    push_str(&mut m, ".");
    push_str(&mut m, key);
    push_str(&mut m, " must be a ");
    push_str(&mut m, what);
    m
}

fn string_entries_of(t: TomlTable) -> (res: Result<Vec<(String, String)>, String>)
    ensures
        match string_entries(t) {
            Ok(s) => res matches Ok(v) && v@ == s,
            Err(e) => res matches Err(m) && m@ == e,
        },
    decreases t,
{
    match t {
        TomlTable::Empty => Ok(Vec::new()),
        TomlTable::Entry(k, v, rest) => match *v {
            TomlValue::String(p) => match string_entries_of(*rest) {
                Ok(mut vs) => {
                    let ghost old_vs = vs@;
                    vs.insert(0, (k, p));
                    assert(vs@ =~= seq![(k, p)] + old_vs);
                    Ok(vs)
                },
                Err(e) => Err(e),
            },
            _ => {
                Err(section_error("crate-roots", k.as_str(), "string"))
            },
        },
    }
}

fn table_entries_of(t: TomlTable) -> (res: Result<Vec<(String, TomlTable)>, String>)
    ensures
        match table_entries(t) {
            Ok(s) => res matches Ok(v) && v@ == s,
            Err(e) => res matches Err(m) && m@ == e,
        },
    decreases t,
{
    match t {
        TomlTable::Empty => Ok(Vec::new()),
        TomlTable::Entry(k, v, rest) => match *v {
            TomlValue::Table(c) => match table_entries_of(*rest) {
                Ok(mut vs) => {
                    let ghost old_vs = vs@;
                    vs.insert(0, (k, c));
                    assert(vs@ =~= seq![(k, c)] + old_vs);
                    Ok(vs)
                },
                Err(e) => Err(e),
            },
            _ => {
                Err(section_error("crates", k.as_str(), "table"))
            },
        },
    }
}

/// Reads the sections of a global config file's table: the defaults, the
/// per-crate overrides and the crate roots, as names with paths relative to
/// the file's directory (`None` where there are none). An old-style flat file
/// gives the empty config; a section of the wrong shape is an error.
pub fn global_config_from_table(raw: TomlTable) -> (res: Result<
    (GlobalConfig, Option<Vec<(String, String)>>),
    String,
>)
    ensures
        config_matches(res, config_file_outcome(raw)),
{
    if table_is_old_style(&raw) {
        let g = GlobalConfig::default();
        assert(g.crate_overrides@ =~= Seq::<(String, TomlTable)>::empty());
        return Ok((g, None));
    }
    proof {
        reveal_strlit("crate-roots");
        reveal_strlit("crates");
        reveal_strlit("defaults");
    }
    assert("crates"@.len() == 6);
    assert("crate-roots"@.len() == 11);
    assert("defaults"@.len() == 8);
    assert("crates"@ != "crate-roots"@);
    assert("defaults"@ != "crate-roots"@);
    assert("defaults"@ != "crates"@);
    let (roots_v, rest) = take_entry(raw, "crate-roots");
    let (crates_v, rest) = take_entry(rest, "crates");
    let (defaults_v, _rest) = take_entry(rest, "defaults");
    let roots = match roots_v {
        None => Vec::new(),
        Some(TomlValue::Table(t)) => match string_entries_of(t) {
            Ok(v) => v,
            Err(e) => return Err(e),
        },
        Some(_) => return Err(owned("crate-roots must be a table")),
    };
    let crates = match crates_v {
        None => Vec::new(),
        Some(TomlValue::Table(t)) => match table_entries_of(t) {
            Ok(v) => v,
            Err(e) => return Err(e),
        },
        Some(_) => return Err(owned("crates must be a table")),
    };
    let defaults = match defaults_v {
        None => TomlTable::Empty,
        Some(TomlValue::Table(t)) => t,
        Some(_) => return Err(owned("defaults must be a table")),
    };
    let roots = if roots.len() == 0 {
        None
    } else {
        Some(roots)
    };
    Ok((GlobalConfig { defaults, crate_overrides: crates }, roots))
}

/// Whether the text is an old-style flat config file: a TOML document whose
/// table is not empty and has none of the sections of a global config file.
pub fn is_old_style_config(text: &str) -> (res: bool)
    ensures
        res == (parsed_toml_table(text@) matches Some(raw) && is_old_style(raw)),
{
    match parse_toml_table(text) {
        Some(raw) => table_is_old_style(&raw),
        None => false,
    }
}

impl GlobalConfig {
    /// Parses a global config file's text. Returns the `GlobalConfig` and the
    /// crate roots it lists, if any, as names with paths relative to the
    /// file's directory. Text that is no TOML document is an error.
    pub fn from_text(text: &str) -> (res: Result<(Self, Option<Vec<(String, String)>>), String>)
        ensures
            match parsed_toml_table(text@) {
                None => res matches Err(m) && m@ == "not a TOML document"@,
                Some(raw) => config_matches(res, config_file_outcome(raw)),
            },
    {
        match parse_toml_table(text) {
            None => Err(owned("not a TOML document")),
            Some(raw) => global_config_from_table(raw),
        }
    }

    /// The merged config table of a crate, given the table of the crate's own
    /// `uniffi.toml` where it has one: recursively and structurally, later
    /// wins; first the defaults, then the crate's file, then the crate's
    /// override from the global config.
    pub fn config_with(&self, crate_name: &str, crate_file: Option<TomlTable>) -> (res: TomlTable)
        ensures
            res == crate_config(
                self.defaults,
                crate_file,
                override_of(self.crate_overrides@, crate_name@),
            ),
    {
        assert(self.crate_overrides@.skip(0) =~= self.crate_overrides@);
        let config = self.defaults.duplicate();
        let config = match crate_file {
            Some(t) => merge(config, t),
            None => merge(config, TomlTable::Empty),
        };
        match find_override(&self.crate_overrides, 0, crate_name) {
            Some(o) => merge(config, o),
            None => merge(config, TomlTable::Empty),
        }
    }

    /// The merged config table of a crate, given the text of the crate's own
    /// `uniffi.toml` where it has one, as [`GlobalConfig::config_with`]
    /// merges it; text that is no TOML document is an error.
    pub fn get_config(&self, crate_name: &str, crate_file: Option<&str>) -> (res: Result<TomlTable, String>)
        ensures
            match crate_file {
                None => res == Ok::<_, String>(
                    crate_config(self.defaults, None, override_of(self.crate_overrides@, crate_name@)),
                ),
                Some(text) => match parsed_toml_table(text@) {
                    None => res matches Err(m) && m@ == "not a TOML document"@,
                    Some(t) => res == Ok::<_, String>(
                        crate_config(
                            self.defaults,
                            Some(t),
                            override_of(self.crate_overrides@, crate_name@),
                        ),
                    ),
                },
            },
    {
        match crate_file {
            None => Ok(self.config_with(crate_name, None)),
            Some(text) => match parse_toml_table(text) {
                None => Err(owned("not a TOML document")),
                Some(t) => Ok(self.config_with(crate_name, Some(t))),
            },
        }
    }
}

/// A copy of the first override of the crate, from position `i` on.
fn find_override(v: &Vec<(String, TomlTable)>, i: usize, name: &str) -> (res: Option<TomlTable>)
    requires
        i <= v@.len(),
    ensures
        res == override_of(v@.skip(i as int), name@),
    decreases v@.len() - i,
{
    if i == v.len() {
        assert(v@.skip(i as int).len() == 0);
        None
    } else {
        let ghost s = v@.skip(i as int);
        assert(s[0] == v@[i as int]);
        assert(s.drop_first() =~= v@.skip(i + 1));
        if str_eq(v[i].0.as_str(), name) {
            Some(v[i].1.duplicate())
        } else {
            find_override(v, i + 1, name)
        }
    }
}

} // verus!
