//! TOML documents held as plain values: a table is a list of entries, a value
//! a string, integer, float, boolean, datetime, array or table. Parsing is
//! done by `toml`; merging tables, recursively and later-wins, is the
//! library's own.

use vstd::prelude::*;

use crate::text::str_eq;

verus! {

/// A TOML value. Floats and datetimes are held as the text `toml` writes them.
#[derive(Debug)]
pub enum TomlValue {
    String(String),
    Integer(i64),
    Float(String),
    Boolean(bool),
    Datetime(String),
    Array(TomlArray),
    Table(TomlTable),
}

/// A TOML array: its items, in order.
#[derive(Debug)]
pub enum TomlArray {
    Nil,
    Item(Box<TomlValue>, Box<TomlArray>),
}

/// A TOML table: its entries, in order.
#[derive(Debug)]
pub enum TomlTable {
    Empty,
    Entry(String, Box<TomlValue>, Box<TomlTable>),
}

/// The value of the first entry of the table with the key.
pub open spec fn lookup(t: TomlTable, key: Seq<char>) -> Option<TomlValue>
    decreases t,
{
    match t {
        TomlTable::Empty => None,
        TomlTable::Entry(k, v, rest) => if k@ == key {
            Some(*v)
        } else {
            lookup(*rest, key)
        },
    }
}

/// No two entries of the table share a key.
pub open spec fn keys_distinct(t: TomlTable) -> bool
    decreases t,
{
    match t {
        TomlTable::Empty => true,
        TomlTable::Entry(k, _, rest) => lookup(*rest, k@) is None && keys_distinct(*rest),
    }
}

/// No two entries of the table, nor of any table nested in it as a value,
/// share a key.
pub open spec fn table_wf(t: TomlTable) -> bool
    decreases t,
{
    match t {
        TomlTable::Empty => true,
        TomlTable::Entry(k, v, rest) => lookup(*rest, k@) is None && value_wf(*v) && table_wf(*rest),
    }
}

pub open spec fn value_wf(v: TomlValue) -> bool
    decreases v,
{
    match v {
        TomlValue::Table(t) => table_wf(t),
        _ => true,
    }
}

/// The table that `toml` parses from the text, if the text is a TOML document.
pub uninterp spec fn parsed_toml_table(text: Seq<char>) -> Option<TomlTable>;

#[verifier::external_type_specification]
#[verifier::external_body]
pub struct ExTomlValue(toml::Value);

#[verifier::external_type_specification]
#[verifier::external_body]
#[verifier::reject_recursive_types(K)]
#[verifier::reject_recursive_types(V)]
pub struct ExTomlMap<K, V>(toml::map::Map<K, V>);

/// `toml::de::from_str` into a `toml::value::Table`: the document's top-level
/// table, or `None` where the text is no TOML document. What it gives depends
/// on the text alone, and is named. Its tables are maps, so no two entries of
/// any of them share a key.
#[verifier::external_body]
pub(crate) fn parse_toml_table(text: &str) -> (res: Option<TomlTable>)
    ensures
        res == parsed_toml_table(text@),
        res matches Some(t) ==> table_wf(t),
{
    match toml::de::from_str::<toml::value::Table>(text) {
        Ok(t) => Some(table_of(&t)),
        Err(_) => None,
    }
}

/// Converts a `toml` table, entry for entry in its order.
#[verifier::external_body]
fn table_of(t: &toml::map::Map<String, toml::Value>) -> TomlTable {
    t.iter().rev().fold(TomlTable::Empty, |acc, (k, v)| {
        TomlTable::Entry(k.clone(), Box::new(value_of(v)), Box::new(acc))
    })
}

/// Converts a `toml` value, variant for variant.
#[verifier::external_body]
fn value_of(v: &toml::Value) -> TomlValue {
    match v {
        toml::Value::String(s) => TomlValue::String(s.clone()),
        toml::Value::Integer(i) => TomlValue::Integer(*i),
        toml::Value::Float(x) => TomlValue::Float(x.to_string()),
        toml::Value::Boolean(b) => TomlValue::Boolean(*b),
        toml::Value::Datetime(d) => TomlValue::Datetime(d.to_string()),
        toml::Value::Array(a) => TomlValue::Array(a.iter().rev().fold(TomlArray::Nil, |acc, x| {
            TomlArray::Item(Box::new(value_of(x)), Box::new(acc))
        })),
        toml::Value::Table(t) => TomlValue::Table(table_of(t)),
    }
}

/// What merging a new value over an old one gives: two tables merge; else the
/// new value wins.
pub open spec fn merged_value(old: TomlValue, new: TomlValue) -> TomlValue
    decreases new, old,
{
    match (old, new) {
        (TomlValue::Table(t0), TomlValue::Table(t1)) => TomlValue::Table(merged(t0, t1)),
        (_, n) => n,
    }
}

/// What merging one entry into a table gives: merged into the entry of that
/// key, or added last.
pub open spec fn merged_entry(a: TomlTable, k: String, v: TomlValue) -> TomlTable
    decreases v, a,
{
    match a {
        TomlTable::Empty => TomlTable::Entry(k, Box::new(v), Box::new(TomlTable::Empty)),
        TomlTable::Entry(k0, v0, rest) => if k0@ == k@ {
            TomlTable::Entry(k0, Box::new(merged_value(*v0, v)), rest)
        } else {
            TomlTable::Entry(k0, v0, Box::new(merged_entry(*rest, k, v)))
        },
    }
}

/// What merging table `b` over table `a` gives: each entry of `b`, in order,
/// merged in; later wins, and tables merge recursively.
pub open spec fn merged(a: TomlTable, b: TomlTable) -> TomlTable
    decreases b, a,
{
    match b {
        TomlTable::Empty => a,
        TomlTable::Entry(k, v, rest) => merged(merged_entry(a, k, *v), *rest),
    }
}

/// What a key looks up to after a new value for it was merged over an old one.
pub open spec fn combined(old: Option<TomlValue>, new: TomlValue) -> TomlValue {
    match old {
        Some(o) => merged_value(o, new),
        None => new,
    }
}

/// What a key looks up to in a merge, from what it looks up to in the table
/// merged over and in the table merged in.
pub open spec fn layered(old: Option<TomlValue>, new: Option<TomlValue>) -> Option<TomlValue> {
    match new {
        None => old,
        Some(n) => Some(combined(old, n)),
    }
}

fn merge_value(old: TomlValue, new: TomlValue) -> (res: TomlValue)
    ensures
        res == merged_value(old, new),
    decreases new, old,
{
    match (old, new) {
        (TomlValue::Table(t0), TomlValue::Table(t1)) => TomlValue::Table(merge(t0, t1)),
        (_, n) => n,
    }
}

fn merge_entry(a: TomlTable, k: String, v: TomlValue) -> (res: TomlTable)
    ensures
        res == merged_entry(a, k, v),
    decreases v, a,
{
    match a {
        TomlTable::Empty => TomlTable::Entry(k, Box::new(v), Box::new(TomlTable::Empty)),
        TomlTable::Entry(k0, v0, rest) => if str_eq(k0.as_str(), k.as_str()) {
            TomlTable::Entry(k0, Box::new(merge_value(*v0, v)), rest)
        } else {
            TomlTable::Entry(k0, v0, Box::new(merge_entry(*rest, k, v)))
        },
    }
}

/// Merges table `b` over table `a`: recursively and structurally, later wins.
pub fn merge(a: TomlTable, b: TomlTable) -> (res: TomlTable)
    ensures
        res == merged(a, b),
    decreases b, a,
{
    match b {
        TomlTable::Empty => a,
        TomlTable::Entry(k, v, rest) => {
            let a2 = merge_entry(a, k, *v);
            merge(a2, *rest)
        },
    }
}

proof fn lemma_merged_entry(a: TomlTable, k: String, v: TomlValue, q: Seq<char>)
    ensures
        lookup(merged_entry(a, k, v), q) == if q == k@ {
            Some(combined(lookup(a, q), v))
        } else {
            lookup(a, q)
        },
        keys_distinct(a) ==> keys_distinct(merged_entry(a, k, v)),
    decreases a,
{
    match a {
        TomlTable::Empty => {},
        TomlTable::Entry(k0, v0, rest) => {
            lemma_merged_entry(*rest, k, v, q);
            lemma_merged_entry(*rest, k, v, k0@);
        },
    }
}

/// Merging table `b` over table `a`, each with keys of its own distinct, gives
/// a table with distinct keys in which a key looks up to its value in `a`
/// where `b` has none, and else to `b`'s value merged over `a`'s: later wins,
/// and two tables merge recursively.
pub proof fn lemma_merge_lookup(a: TomlTable, b: TomlTable, q: Seq<char>)
    requires
        keys_distinct(a),
        keys_distinct(b),
    ensures
        keys_distinct(merged(a, b)),
        lookup(merged(a, b), q) == layered(lookup(a, q), lookup(b, q)),
    decreases b,
{
    match b {
        TomlTable::Empty => {},
        TomlTable::Entry(k1, v1, rest) => {
            let a2 = merged_entry(a, k1, *v1);
            lemma_merged_entry(a, k1, *v1, q);
            lemma_merge_lookup(a2, *rest, q);
        },
    }
}

/// Merging the empty table over a table leaves it unchanged.
pub proof fn lemma_merge_empty(a: TomlTable)
    ensures
        merged(a, TomlTable::Empty) == a,
{
}

impl TomlValue {
    /// A copy of the value.
    pub fn duplicate(&self) -> (res: Self)
        ensures
            res == *self,
        decreases self,
    {
        match self {
            TomlValue::String(s) => TomlValue::String(s.clone()),
            TomlValue::Integer(i) => TomlValue::Integer(*i),
            TomlValue::Float(s) => TomlValue::Float(s.clone()),
            TomlValue::Boolean(b) => TomlValue::Boolean(*b),
            TomlValue::Datetime(s) => TomlValue::Datetime(s.clone()),
            TomlValue::Array(a) => TomlValue::Array(a.duplicate()),
            TomlValue::Table(t) => TomlValue::Table(t.duplicate()),
        }
    }

    /// The string the value holds, if it is a string.
    pub fn as_str(&self) -> (res: Option<&str>)
        ensures
            match *self {
                TomlValue::String(s) => res matches Some(r) && r@ == s@,
                _ => res is None,
            },
    {
        match self {
            TomlValue::String(s) => Some(s.as_str()),
            _ => None,
        }
    }

    /// The boolean the value holds, if it is a boolean.
    pub fn as_bool(&self) -> (res: Option<bool>)
        ensures
            match *self {
                TomlValue::Boolean(b) => res == Some(b),
                _ => res is None,
            },
    {
        match self {
            TomlValue::Boolean(b) => Some(*b),
            _ => None,
        }
    }

    /// The value of the key, if the value is a table that has it.
    pub fn get(&self, key: &str) -> (res: Option<&TomlValue>)
        ensures
            match *self {
                TomlValue::Table(t) => match lookup(t, key@) {
                    Some(v) => res matches Some(r) && *r == v,
                    None => res is None,
                },
                _ => res is None,
            },
    {
        match self {
            TomlValue::Table(t) => t.get(key),
            _ => None,
        }
    }
}

impl TomlArray {
    /// A copy of the array.
    pub fn duplicate(&self) -> (res: Self)
        ensures
            res == *self,
        decreases self,
    {
        match self {
            TomlArray::Nil => TomlArray::Nil,
            TomlArray::Item(v, rest) => TomlArray::Item(
                Box::new((**v).duplicate()),
                Box::new((**rest).duplicate()),
            ),
        }
    }
}

impl TomlTable {
    /// A copy of the table.
    pub fn duplicate(&self) -> (res: Self)
        ensures
            res == *self,
        decreases self,
    {
        match self {
            TomlTable::Empty => TomlTable::Empty,
            TomlTable::Entry(k, v, rest) => TomlTable::Entry(
                k.clone(),
                Box::new((**v).duplicate()),
                Box::new((**rest).duplicate()),
            ),
        }
    }

    /// Parses a TOML document into its top-level table; `None` where the
    /// text is no TOML document.
    pub fn parse(text: &str) -> (res: Option<TomlTable>)
        ensures
            res == parsed_toml_table(text@),
            res matches Some(t) ==> table_wf(t),
    {
        parse_toml_table(text)
    }

    /// Whether the table has no entries.
    pub fn is_empty(&self) -> (res: bool)
        ensures
            res == (*self is Empty),
    {
        match self {
            TomlTable::Empty => true,
            _ => false,
        }
    }

    /// The value of the first entry with the key.
    pub fn get(&self, key: &str) -> (res: Option<&TomlValue>)
        ensures
            match lookup(*self, key@) {
                Some(v) => res matches Some(r) && *r == v,
                None => res is None,
            },
        decreases self,
    {
        match self {
            TomlTable::Empty => None,
            TomlTable::Entry(k, v, rest) => if str_eq(k.as_str(), key) {
                Some(&**v)
            } else {
                (**rest).get(key)
            },
        }
    }

    /// Whether the table has an entry with the key.
    pub fn contains_key(&self, key: &str) -> (res: bool)
        ensures
            res == lookup(*self, key@) is Some,
    {
        self.get(key).is_some()
    }
}

} // verus!
