//! Combining two sets of configuration values.

use vstd::prelude::*;

verus! {

/// A value that can be combined with another of its kind, such as two
/// configurations of which the first takes precedence.
pub trait MergeWith: Sized {
    fn merge_with(&self, other: &Self) -> Self;
}

/// The value that merging two options gives: the first where it is set,
/// else the second.
pub open spec fn merged<T>(a: Option<T>, b: Option<T>) -> Option<T> {
    match a {
        Some(x) => Some(x),
        None => b,
    }
}

impl MergeWith for Option<String> {
    fn merge_with(&self, other: &Self) -> (res: Self)
        ensures
            res == merged(*self, *other),
    {
        match self {
            Some(s) => Some(s.clone()),
            None => match other {
                Some(s) => Some(s.clone()),
                None => None,
            },
        }
    }
}

impl MergeWith for Option<bool> {
    fn merge_with(&self, other: &Self) -> (res: Self)
        ensures
            res == merged(*self, *other),
    {
        match self {
            Some(b) => Some(*b),
            None => *other,
        }
    }
}

} // verus!
