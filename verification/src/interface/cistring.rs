//! A cheaply cloned string for the items of a component interface.

use std::rc::Rc;

use vstd::prelude::*;

use crate::text::{owned, push_str};

verus! {

/// String struct for ComponentInterface items
///
/// This struct has a few advantages over the `String`:
///   - Fast to clone, which we do a lot of
///   - Has convenience methods for commonly used operations
#[derive(Debug)]
pub struct CIString(Rc<String>);

/// The parts joined with underscores between them.
pub open spec fn joined(parts: Seq<Seq<char>>) -> Seq<char>
    decreases parts.len(),
{
    if parts.len() == 0 {
        Seq::empty()
    } else if parts.len() == 1 {
        parts[0]
    } else {
        joined(parts.drop_last()) + "_"@ + parts.last()
    }
}

impl CIString {
    /// The string's characters.
    pub closed spec fn text(&self) -> Seq<char> {
        (*self.0)@
    }

    /// A `CIString` with the characters of the string slice.
    pub fn new(val: &str) -> (res: Self)
        ensures
            res.text() == val@,
    {
        CIString(Rc::new(owned(val)))
    }

    /// A `CIString` that takes over the string.
    pub fn from_string(val: String) -> (res: Self)
        ensures
            res.text() == val@,
    {
        CIString(Rc::new(val))
    }

    /// Join multiple parts into a CIString with underscores
    pub fn from_parts(parts: Vec<&str>) -> (res: Self)
        ensures
            res.text() == joined(parts@.map_values(|p: &str| p@)),
    {
        let ghost views = parts@.map_values(|p: &str| p@);
        let mut s = String::new();
        let mut i: usize = 0;
        while i < parts.len()
            invariant
                i <= parts@.len(),
                views == parts@.map_values(|p: &str| p@),
                s@ == joined(views.take(i as int)),
            decreases parts.len() - i,
        {
            if i > 0 {
                push_str(&mut s, "_");
            }
            push_str(&mut s, parts[i]);
            proof {
                let t = views.take(i + 1);
                assert(t.drop_last() =~= views.take(i as int));
                if i == 0 {
                    assert(s@ =~= t[0]);
                }
            }
            i = i + 1;
        }
        assert(views.take(parts@.len() as int) =~= views);
        CIString(Rc::new(s))
    }

    /// The string's characters.
    pub fn as_str(&self) -> (res: &str)
        ensures
            res@ == self.text(),
    {
        self.0.as_str()
    }

    /// A `String` with the same characters.
    pub fn to_string(&self) -> (res: String)
        ensures
            res@ == self.text(),
    {
        owned(self.0.as_str())
    }

    /// Whether the string has the characters of the slice.
    pub fn eq_str(&self, other: &str) -> (res: bool)
        ensures
            res == (self.text() == other@),
    {
        crate::text::str_eq(self.0.as_str(), other)
    }
}

impl Clone for CIString {
    fn clone(&self) -> (res: Self)
        ensures
            res.text() == self.text(),
    {
        CIString(Rc::clone(&self.0))
    }
}

} // verus!
