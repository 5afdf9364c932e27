//! Finding the packages of the crates that bindings are generated for, in the
//! package list of the cargo metadata.

use vstd::prelude::*;

use crate::text::{digits, owned, push_digits, push_str, str_eq};

verus! {

/// A build target of a package, as the cargo metadata lists it.
#[derive(Debug)]
pub struct Target {
    pub name: String,
    pub crate_types: Vec<String>,
}

/// A package, as the cargo metadata lists it.
#[derive(Debug)]
pub struct Package {
    pub name: String,
    pub targets: Vec<Target>,
}

/// How many items of the sequence the predicate picks.
pub open spec fn count_where<T>(s: Seq<T>, p: spec_fn(T) -> bool) -> nat
    decreases s.len(),
{
    if s.len() == 0 {
        0
    } else {
        count_where(s.drop_last(), p) + if p(s.last()) {
            1nat
        } else {
            0nat
        }
    }
}

/// Whether the target builds a library crate of the given name.
pub open spec fn lib_target_named(t: Target, crate_name: Seq<char>) -> bool {
    t.name@ == crate_name && exists|i: int|
        0 <= i < t.crate_types@.len() && #[trigger] t.crate_types@[i]@ == "lib"@
}

/// Whether the package builds a library crate of the given name.
pub open spec fn builds_lib(p: Package, crate_name: Seq<char>) -> bool {
    exists|i: int| 0 <= i < p.targets@.len() && lib_target_named(#[trigger] p.targets@[i], crate_name)
}

/// The position of the one package that the predicate picks, or an error
/// that says how many it picks.
fn find_unique(packages: &Vec<Package>, Ghost(p): Ghost<spec_fn(Package) -> bool>, picks: &Vec<bool>) -> (res: Result<usize, u64>)
    requires
        picks@.len() == packages@.len(),
        forall|i: int| 0 <= i < picks@.len() ==> picks@[i] == p(#[trigger] packages@[i]),
        packages@.len() < u64::MAX,
    ensures
        match res {
            Ok(i) => i < packages@.len() && p(packages@[i as int]) && count_where(packages@, p) == 1,
            Err(n) => n == count_where(packages@, p) && n != 1,
        },
{
    let mut count: u64 = 0;
    let mut found: usize = 0;
    let mut i: usize = 0;
    while i < packages.len()
        invariant
            i <= packages@.len(),
            picks@.len() == packages@.len(),
            forall|j: int| 0 <= j < picks@.len() ==> picks@[j] == p(#[trigger] packages@[j]),
            packages@.len() < u64::MAX,
            count == count_where(packages@.take(i as int), p),
            count <= i,
            count > 0 ==> found < i && p(packages@[found as int]),
        decreases packages.len() - i,
    {
        proof {
            assert(packages@.take(i + 1).drop_last() =~= packages@.take(i as int));
        }
        if picks[i] {
            if count == 0 {
                found = i;
            }
            count = count + 1;
        }
        i = i + 1;
    }
    assert(packages@.take(packages@.len() as int) =~= packages@);
    if count == 1 {
        Ok(found)
    } else {
        Err(count)
    }
}

fn error_count(n: u64, middle: &str, name: &str) -> (res: String)
    ensures
        res@ == "cargo metadata returned "@ + digits(n as nat, 10) + middle@ + name@,
{
    let mut m = owned("cargo metadata returned ");
    push_digits(&mut m, n, 10);
    push_str(&mut m, middle);
    push_str(&mut m, name);
    m
}

/// The one package with the given name; an error where there is none or more than one.
pub fn find_package<'a>(packages: &'a Vec<Package>, name: &str) -> (res: Result<&'a Package, String>)
    requires
        packages@.len() < u64::MAX,
    ensures
        match res {
            Ok(p) => p.name@ == name@ && packages@.contains(*p) && count_where(
                packages@,
                |q: Package| q.name@ == name@,
            ) == 1,
            Err(e) => {
                let n = count_where(packages@, |q: Package| q.name@ == name@);
                n != 1 && e@ == "cargo metadata returned "@ + digits(n, 10) + " packages named "@
                    + name@
            },
        },
{
    let ghost p = |q: Package| q.name@ == name@;
    let mut picks: Vec<bool> = Vec::new();
    let mut i: usize = 0;
    while i < packages.len()
        invariant
            i <= packages@.len(),
            picks@.len() == i,
            p == (|q: Package| q.name@ == name@),
            forall|j: int| 0 <= j < i ==> picks@[j] == p(#[trigger] packages@[j]),
        decreases packages.len() - i,
    {
        picks.push(str_eq(packages[i].name.as_str(), name));
        assert(picks@[i as int] == p(packages@[i as int]));
        i = i + 1;
    }
    match find_unique(packages, Ghost(p), &picks) {
        Ok(i) => Ok(&packages[i]),
        Err(n) => Err(error_count(n, " packages named ", name)),
    }
}

fn has_lib_crate_type(t: &Target) -> (res: bool)
    ensures
        res == exists|i: int| 0 <= i < t.crate_types@.len() && #[trigger] t.crate_types@[i]@ == "lib"@,
{
    let mut i: usize = 0;
    while i < t.crate_types.len()
        invariant
            i <= t.crate_types@.len(),
            forall|j: int| 0 <= j < i ==> #[trigger] t.crate_types@[j]@ != "lib"@,
        decreases t.crate_types.len() - i,
    {
        if str_eq(t.crate_types[i].as_str(), "lib") {
            return true;
        }
        i = i + 1;
    }
    false
}

fn package_builds_lib(p: &Package, crate_name: &str) -> (res: bool)
    ensures
        res == builds_lib(*p, crate_name@),
{
    let mut i: usize = 0;
    while i < p.targets.len()
        invariant
            i <= p.targets@.len(),
            forall|j: int| 0 <= j < i ==> !lib_target_named(#[trigger] p.targets@[j], crate_name@),
        decreases p.targets.len() - i,
    {
        let t = &p.targets[i];
        if str_eq(t.name.as_str(), crate_name) && has_lib_crate_type(t) {
            assert(lib_target_named(p.targets@[i as int], crate_name@));
            return true;
        }
        i = i + 1;
    }
    false
}

/// The one package that builds a library crate of the given name; an error
/// where there is none or more than one.
pub fn find_package_by_crate_name<'a>(packages: &'a Vec<Package>, crate_name: &str) -> (res: Result<
    &'a Package,
    String,
>)
    requires
        packages@.len() < u64::MAX,
    ensures
        match res {
            Ok(p) => builds_lib(*p, crate_name@) && packages@.contains(*p) && count_where(
                packages@,
                |q: Package| builds_lib(q, crate_name@),
            ) == 1,
            Err(e) => {
                let n = count_where(packages@, |q: Package| builds_lib(q, crate_name@));
                n != 1 && e@ == "cargo metadata returned "@ + digits(n, 10)
                    + " packages for crate name "@ + crate_name@
            },
        },
{
    let ghost p = |q: Package| builds_lib(q, crate_name@);
    let mut picks: Vec<bool> = Vec::new();
    let mut i: usize = 0;
    while i < packages.len()
        invariant
            i <= packages@.len(),
            picks@.len() == i,
            p == (|q: Package| builds_lib(q, crate_name@)),
            forall|j: int| 0 <= j < i ==> picks@[j] == p(#[trigger] packages@[j]),
        decreases packages.len() - i,
    {
        picks.push(package_builds_lib(&packages[i], crate_name));
        assert(picks@[i as int] == p(packages@[i as int]));
        i = i + 1;
    }
    match find_unique(packages, Ghost(p), &picks) {
        Ok(i) => Ok(&packages[i]),
        Err(n) => Err(error_count(n, " packages for crate name ", crate_name)),
    }
}


/// A source that bindings are generated for: the package it comes from, its
/// crate, and the names of the packages its package depends on.
#[derive(Debug)]
pub struct SourceInfo {
    pub package_id: String,
    pub package_name: String,
    pub crate_name: String,
    pub dependencies: Vec<String>,
}

/// Whether the package of `s` depends on that of `other`.
pub open spec fn depends_on(s: SourceInfo, other: SourceInfo) -> bool {
    exists|k: int| 0 <= k < s.dependencies@.len() && #[trigger] s.dependencies@[k]@ == other.package_name@
}

/// Whether source `j` is one whose configuration source `i` takes defaults from:
/// another source, whose package that of source `i` depends on.
pub open spec fn is_dependency_source(sources: Seq<SourceInfo>, i: int, j: int) -> bool {
    0 <= j < sources.len() && j != i && depends_on(sources[i], sources[j])
}

fn has_dependency(s: &SourceInfo, name: &str) -> (res: bool)
    ensures
        res == exists|k: int| 0 <= k < s.dependencies@.len() && #[trigger] s.dependencies@[k]@ == name@,
{
    let mut k: usize = 0;
    while k < s.dependencies.len()
        invariant
            k <= s.dependencies@.len(),
            forall|j: int| 0 <= j < k ==> #[trigger] s.dependencies@[j]@ != name@,
        decreases s.dependencies.len() - k,
    {
        if str_eq(s.dependencies[k].as_str(), name) {
            return true;
        }
        k = k + 1;
    }
    false
}

/// The positions of the sources whose configurations the configuration of
/// source `i` takes defaults from: the other sources whose packages its
/// package depends on, in order.
pub fn dependency_sources(sources: &Vec<SourceInfo>, i: usize) -> (res: Vec<usize>)
    requires
        i < sources@.len(),
    ensures
        forall|a: int, b: int| 0 <= a < b < res@.len() ==> res@[a] < res@[b],
        forall|k: int| 0 <= k < res@.len() ==> is_dependency_source(sources@, i as int, #[trigger] res@[k] as int),
        forall|j: int|
            #[trigger] is_dependency_source(sources@, i as int, j) ==> res@.contains(j as usize),
{
    let mut res: Vec<usize> = Vec::new();
    let mut j: usize = 0;
    while j < sources.len()
        invariant
            i < sources@.len(),
            j <= sources@.len(),
            forall|a: int, b: int| 0 <= a < b < res@.len() ==> res@[a] < res@[b],
            forall|k: int| 0 <= k < res@.len() ==> res@[k] < j,
            forall|k: int|
                0 <= k < res@.len() ==> is_dependency_source(sources@, i as int, #[trigger] res@[k] as int),
            forall|m: int|
                0 <= m < j && #[trigger] is_dependency_source(sources@, i as int, m) ==> res@.contains(
                    m as usize,
                ),
        decreases sources.len() - j,
    {
        if j != i && has_dependency(&sources[i], sources[j].package_name.as_str()) {
            let ghost before = res@;
            res.push(j);
            proof {
                assert(res@[before.len() as int] == j);
                assert forall|m: int|
                    0 <= m < j + 1 && #[trigger] is_dependency_source(sources@, i as int, m) implies res@.contains(
                    m as usize,
                ) by {
                    if m < j {
                        let k = choose|k: int| 0 <= k < before.len() && before[k] == m as usize;
                        assert(res@[k] == m as usize);
                    } else {
                        assert(res@[before.len() as int] == m as usize);
                    }
                }
            }
        }
        j = j + 1;
    }
    res
}

/// The position of the source of the main package: the first source of that package.
pub fn main_source_index(sources: &Vec<SourceInfo>, main_package_id: &str) -> (res: Option<usize>)
    ensures
        match res {
            Some(i) => i < sources@.len() && sources@[i as int].package_id@ == main_package_id@
                && forall|j: int| 0 <= j < i ==> #[trigger] sources@[j].package_id@ != main_package_id@,
            None => forall|j: int|
                0 <= j < sources@.len() ==> #[trigger] sources@[j].package_id@ != main_package_id@,
        },
{
    let mut i: usize = 0;
    while i < sources.len()
        invariant
            i <= sources@.len(),
            forall|j: int| 0 <= j < i ==> #[trigger] sources@[j].package_id@ != main_package_id@,
        decreases sources.len() - i,
    {
        if str_eq(sources[i].package_id.as_str(), main_package_id) {
            return Some(i);
        }
        i = i + 1;
    }
    None
}

/// Moves the source at `idx` to the front, swapping it with the first one: the
/// main crate comes first, followed by all other crates.
pub fn move_to_front<T>(sources: &mut Vec<T>, idx: usize)
    requires
        idx < old(sources)@.len(),
    ensures
        final(sources)@ == old(sources)@.update(0, old(sources)@[idx as int]).update(
            idx as int,
            old(sources)@[0],
        ),
{
    if idx == 0 {
        assert(sources@ =~= old(sources)@.update(0, old(sources)@[0]).update(0, old(sources)@[0]));
        return;
    }
    let main = sources.remove(idx);
    sources.insert(0, main);
    let first = sources.remove(1);
    sources.insert(idx, first);
    assert(sources@ =~= old(sources)@.update(0, old(sources)@[idx as int]).update(
        idx as int,
        old(sources)@[0],
    ));
}

} // verus!
