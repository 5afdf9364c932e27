//! # Enum that lists the languages we generate code for

use vstd::prelude::*;

use crate::text::{owned, push_str, str_eq};

verus! {

/// A language that we generate code for.
#[derive(Debug, Clone, Copy, Hash, PartialEq, Eq, Structural, PartialOrd, Ord)]
pub enum Language {
    Rust,
    Kotlin,
    Swift,
    Python,
    Ruby,
}

/// What `str::to_lowercase` makes of a string: each character replaced by its
/// Unicode lower case.
pub uninterp spec fn lowercase(s: Seq<char>) -> Seq<char>;

/// `str::to_lowercase`: the string with each character replaced by its Unicode
/// lower case. Its result depends on the string alone, and is named, not stated.
#[verifier::external_body]
fn to_lowercase(s: &str) -> (res: String)
    ensures
        res@ == lowercase(s@),
{
    s.to_lowercase()
}

/// The language that a lower-case name names, if any.
pub open spec fn language_named(name: Seq<char>) -> Option<Language> {
    if name == "rust"@ {
        Some(Language::Rust)
    } else if name == "kotlin"@ {
        Some(Language::Kotlin)
    } else if name == "swift"@ {
        Some(Language::Swift)
    } else if name == "python"@ {
        Some(Language::Python)
    } else if name == "ruby"@ {
        Some(Language::Ruby)
    } else {
        None
    }
}

impl Language {
    /// The language named by the value, whatever its case; an error for any other value.
    pub fn try_from(value: &str) -> (res: Result<Language, String>)
        ensures
            match language_named(lowercase(value@)) {
                Some(l) => res == Ok::<Language, String>(l),
                None => res matches Err(e) && e@ == "Unknown language: "@ + value@,
            },
    {
        let lower = to_lowercase(value);
        let name = lower.as_str();
        if str_eq(name, "rust") {
            Ok(Language::Rust)
        } else if str_eq(name, "kotlin") {
            Ok(Language::Kotlin)
        } else if str_eq(name, "swift") {
            Ok(Language::Swift)
        } else if str_eq(name, "python") {
            Ok(Language::Python)
        } else if str_eq(name, "ruby") {
            Ok(Language::Ruby)
        } else {
            let mut m = owned("Unknown language: ");
            push_str(&mut m, value);
            Err(m)
        }
    }
}

} // verus!
