//! The Swift code type of custom types.

use vstd::prelude::*;

use super::filters::{class_name_swift, var_name_swift};
use super::CodeType;
use crate::casing::{lower_camel_case, upper_camel_case};
use crate::text::{owned, push_str};

verus! {

/// The Swift code type of a custom type: a named type that is passed across
/// the FFI as the builtin type it wraps.
pub struct CustomCodeType {
    pub name: String,
    pub builtin: Box<dyn CodeType>,
}

impl CustomCodeType {
    pub fn new(name: String, builtin: Box<dyn CodeType>) -> (res: Self)
        ensures
            res.name == name,
    {
        Self { name, builtin }
    }
}

impl CodeType for CustomCodeType {
    open spec fn label(&self) -> Seq<char> {
        upper_camel_case(self.name@)
    }

    fn type_label(&self) -> (res: String)
        ensures
            res@ == upper_camel_case(self.name@),
    {
        let mut s = class_name_swift(self.name.as_str());
        s
    }
    fn canonical_name(&self) -> (res: String)
        ensures
            res@ == "Type"@ + self.name@,
    {
        let mut s = owned("Type");
        push_str(&mut s, self.name.as_str());
        s
    }
}

} // verus!
