//! What running the Swift tests of a fixture decides, apart from generating,
//! compiling and running: which generated source is the main one, which module
//! map to use, and how libraries and the compiled module are named.

use vstd::prelude::*;

use crate::text::{digits, owned, push_digits, push_str};

verus! {

/// The main Swift source of a fixture: the one `.swift` file generated for its
/// main UDL file; an error where there is none or more than one.
pub fn main_source_filename(swift_files: &Vec<String>, udl_path: &str) -> (res: Result<String, String>)
    requires
        swift_files@.len() < u64::MAX,
    ensures
        swift_files@.len() == 1 ==> (res matches Ok(f) && f@ == swift_files@[0]@),
        swift_files@.len() == 0 ==> (res matches Err(e) && e@ == "No .swift file generated for "@ + udl_path@),
        swift_files@.len() > 1 ==> (res matches Err(e) && e@ == digits(swift_files@.len(), 10)
            + " .swift files generated for "@ + udl_path@),
{
    let n = swift_files.len();
    if n == 1 {
        Ok(swift_files[0].clone())
    } else if n == 0 {
        let mut e = owned("No .swift file generated for ");
        push_str(&mut e, udl_path);
        Err(e)
    } else {
        let mut e = String::new();
        push_digits(&mut e, n as u64, 10);
        push_str(&mut e, " .swift files generated for ");
        push_str(&mut e, udl_path);
        Err(e)
    }
}

/// Which module map the tests compile with, given the module maps generated.
#[derive(Debug, Clone, Copy, PartialEq, Eq, Structural)]
pub enum ModuleMapPlan {
    /// The one module map generated.
    Single,
    /// A module map that combines all those generated, as happens where a
    /// test uses several UDL files.
    Combined,
}

/// The module map to compile with; an error where none was generated.
pub fn module_map_plan(count: usize, out_dir: &str) -> (res: Result<ModuleMapPlan, String>)
    ensures
        count == 0 ==> (res matches Err(e) && e@ == "No modulemap files found in "@ + out_dir@),
        count == 1 ==> res == Ok::<ModuleMapPlan, String>(ModuleMapPlan::Single),
        count > 1 ==> res == Ok::<ModuleMapPlan, String>(ModuleMapPlan::Combined),
{
    if count == 0 {
        let mut e = owned("No modulemap files found in ");
        push_str(&mut e, out_dir);
        Err(e)
    } else if count == 1 {
        Ok(ModuleMapPlan::Single)
    } else {
        Ok(ModuleMapPlan::Combined)
    }
}

/// Lines joined with newlines between them.
pub open spec fn joined_lines(parts: Seq<Seq<char>>) -> Seq<char>
    decreases parts.len(),
{
    if parts.len() == 0 {
        Seq::empty()
    } else if parts.len() == 1 {
        parts[0]
    } else {
        joined_lines(parts.drop_last()) + seq!['\n'] + parts.last()
    }
}

/// The contents of a combined module map: those of the module maps, joined
/// with newlines.
pub fn combine_module_maps(contents: &Vec<String>) -> (res: String)
    ensures
        res@ == joined_lines(contents@.map_values(|s: String| s@)),
{
    let ghost views = contents@.map_values(|s: String| s@);
    let mut s = String::new();
    let mut i: usize = 0;
    while i < contents.len()
        invariant
            i <= contents@.len(),
            views == contents@.map_values(|s: String| s@),
            s@ == joined_lines(views.take(i as int)),
        decreases contents.len() - i,
    {
        if i > 0 {
            push_str(&mut s, "\n");
        }
        push_str(&mut s, contents[i].as_str());
        proof {
            let t = views.take(i + 1);
            assert(t.drop_last() =~= views.take(i as int));
            reveal_strlit("\n");
            if i == 0 {
                assert(s@ =~= t[0]);
            } else {
                assert(s@ =~= joined_lines(t));
            }
        }
        i = i + 1;
    }
    assert(views.take(contents@.len() as int) =~= views);
    s
}

/// The linker argument for a library file: `-l` and the file's name without
/// the platform's library prefix and suffix.
pub fn library_arg(file_name: &str, prefix: &str, suffix: &str) -> (res: String)
    requires
        prefix@.len() + suffix@.len() <= file_name@.len(),
        file_name@.subrange(0, prefix@.len() as int) == prefix@,
        file_name@.subrange(file_name@.len() - suffix@.len(), file_name@.len() as int) == suffix@,
    ensures
        res@ == "-l"@ + file_name@.subrange(
            prefix@.len() as int,
            file_name@.len() - suffix@.len(),
        ),
{
    let n = file_name.unicode_len();
    let stem = file_name.substring_char(prefix.unicode_len(), n - suffix.unicode_len());
    let mut s = owned("-l");
    push_str(&mut s, stem);
    s
}

/// The file name of the test module compiled from a fixture's bindings.
pub fn test_module_filename(module_name: &str, prefix: &str, suffix: &str) -> (res: String)
    ensures
        res@ == prefix@ + "testmod_"@ + module_name@ + suffix@,
{
    let mut s = owned(prefix);
    push_str(&mut s, "testmod_");
    push_str(&mut s, module_name);
    push_str(&mut s, suffix);
    s
}

} // verus!
