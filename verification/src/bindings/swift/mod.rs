//! Swift bindings: configuration, the filters that render names, types and
//! literals as Swift, and the code types of the Swift backend; and what
//! generating the bindings decides, apart from the writing of the files.

use vstd::prelude::*;

use crate::casing::{snake_case, to_snake_case};
use crate::text::{lex_le, lemma_lex_total, lemma_lex_transitive, owned, push_str, str_eq, str_le};

use gen_swift::Config;

pub mod gen_swift;
pub mod test;

verus! {

/// The name of the Swift module that a test script with the given file name is
/// compiled into: the name without its `.swift` extension, in snake case.
pub fn calc_module_name(filename: &str) -> (res: String)
    requires
        filename@.len() >= 6,
        filename@.subrange(filename@.len() - 6, filename@.len() as int) == ".swift"@,
    ensures
        res@ == snake_case(filename@.subrange(0, filename@.len() - 6)),
{
    let n = filename.unicode_len();
    let stem = filename.substring_char(0, n - 6);
    to_snake_case(stem)
}

/// The characters of each string.
pub open spec fn texts(v: Seq<String>) -> Seq<Seq<char>> {
    v.map_values(|s: String| s@)
}

/// Whether the strings are in lexicographic order.
pub open spec fn lex_sorted(s: Seq<Seq<char>>) -> bool {
    forall|i: int, j: int| 0 <= i < j < s.len() ==> lex_le(#[trigger] s[i], #[trigger] s[j])
}

proof fn lemma_insert_sorted(s: Seq<Seq<char>>, p: int, x: Seq<char>)
    requires
        lex_sorted(s),
        0 <= p <= s.len(),
        forall|j: int| 0 <= j < p ==> !lex_le(x, #[trigger] s[j]),
        p < s.len() ==> lex_le(x, s[p]),
    ensures
        lex_sorted(s.insert(p, x)),
{
    let t = s.insert(p, x);
    assert forall|i: int, j: int| 0 <= i < j < t.len() implies lex_le(#[trigger] t[i], #[trigger] t[j]) by {
        if j < p {
            assert(t[i] == s[i] && t[j] == s[j]);
        } else if j == p {
            assert(t[j] == x && t[i] == s[i]);
            lemma_lex_total(x, s[i]);
        } else if i < p {
            assert(t[i] == s[i] && t[j] == s[j - 1]);
        } else if i == p {
            assert(t[i] == x && t[j] == s[j - 1]);
            if j - 1 > p {
                lemma_lex_transitive(x, s[p], s[j - 1]);
            }
        } else {
            assert(t[i] == s[i - 1] && t[j] == s[j - 1]);
        }
    }
}

/// Sorts strings lexicographically, as `sort` on `String`s does.
pub fn sort_strings(v: Vec<String>) -> (res: Vec<String>)
    ensures
        lex_sorted(texts(res@)),
        texts(res@).to_multiset() == texts(v@).to_multiset(),
{
    let mut res: Vec<String> = Vec::new();
    let mut i: usize = 0;
    assert(texts(res@) =~= Seq::<Seq<char>>::empty());
    assert(texts(v@.take(0)) =~= Seq::<Seq<char>>::empty());
    while i < v.len()
        invariant
            i <= v@.len(),
            lex_sorted(texts(res@)),
            texts(res@).to_multiset() == texts(v@.take(i as int)).to_multiset(),
        decreases v.len() - i,
    {
        let x = v[i].clone();
        let mut p: usize = 0;
        while p < res.len()
            invariant
                p <= res@.len(),
                x@ == v@[i as int]@,
                forall|j: int| 0 <= j < p ==> !lex_le(x@, #[trigger] texts(res@)[j]),
            ensures
                p <= res@.len(),
                forall|j: int| 0 <= j < p ==> !lex_le(x@, #[trigger] texts(res@)[j]),
                p < res@.len() ==> lex_le(x@, texts(res@)[p as int]),
            decreases res.len() - p,
        {
            if str_le(x.as_str(), res[p].as_str()) {
                break;
            }
            p = p + 1;
        }
        let ghost before = res@;
        res.insert(p, x);
        proof {
            assert(texts(res@) =~= texts(before).insert(p as int, x@));
            lemma_insert_sorted(texts(before), p as int, x@);
            vstd::seq_lib::to_multiset_insert(texts(before), p as int, x@);
            assert(texts(v@.take(i + 1)) =~= texts(v@.take(i as int)).push(x@));
            vstd::seq_lib::to_multiset_build(texts(v@.take(i as int)), x@);
        }
        i = i + 1;
    }
    assert(v@.take(v@.len() as int) =~= v@);
    res
}

/// The name of the Swift source file of a component's bindings.
pub fn swift_source_filename(config: &Config) -> (res: String)
    ensures
        res@ == config.module_name_text() + ".swift"@,
{
    let mut s = config.module_name();
    push_str(&mut s, ".swift");
    s
}

/// Whether the bindings of a crate are generated: they are, unless a crate
/// filter names another crate.
pub fn crate_included(crate_name: &str, crate_filter: Option<&str>) -> (res: bool)
    ensures
        res == match crate_filter {
            Some(f) => f@ == crate_name@,
            None => true,
        },
{
    match crate_filter {
        Some(f) => str_eq(f, crate_name),
        None => true,
    }
}

/// The name of the module of a `.modulemap` file, and the file's name: those
/// given, or else the base name of the source, and that name with
/// `.modulemap` after it.
pub fn modulemap_names(
    module_name: Option<String>,
    modulemap_filename: Option<String>,
    source_basename: &str,
) -> (res: (String, String))
    ensures
        res.0@ == match module_name {
            Some(m) => m@,
            None => source_basename@,
        },
        res.1@ == match modulemap_filename {
            Some(f) => f@,
            None => source_basename@ + ".modulemap"@,
        },
{
    let module = match module_name {
        Some(m) => m,
        None => owned(source_basename),
    };
    let filename = match modulemap_filename {
        Some(f) => f,
        None => {
            let mut s = owned(source_basename);
            push_str(&mut s, ".modulemap");
            s
        },
    };
    (module, filename)
}

/// The header file names of the components' configurations, sorted, as the
/// `.modulemap` file lists them.
pub fn sorted_header_filenames(configs: &Vec<Config>) -> (res: Vec<String>)
    ensures
        lex_sorted(texts(res@)),
        texts(res@).to_multiset() == Seq::new(
            configs@.len(),
            |i: int| configs@[i].ffi_module_filename_text() + ".h"@,
        ).to_multiset(),
{
    let mut names: Vec<String> = Vec::new();
    let mut i: usize = 0;
    while i < configs.len()
        invariant
            i <= configs@.len(),
            texts(names@) == Seq::new(
                i as nat,
                |k: int| configs@[k].ffi_module_filename_text() + ".h"@,
            ),
        decreases configs.len() - i,
    {
        let ghost before = names@;
        let h = configs[i].header_filename();
        names.push(h);
        assert(texts(names@) =~= texts(before).push(h@));
        assert(texts(names@) =~= Seq::new(
            (i + 1) as nat,
            |k: int| configs@[k].ffi_module_filename_text() + ".h"@,
        ));
        i = i + 1;
    }
    sort_strings(names)
}

} // verus!
