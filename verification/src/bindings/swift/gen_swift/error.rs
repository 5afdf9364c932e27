//! The Swift code type of error types.

use vstd::prelude::*;

use super::filters::{class_name_swift, var_name_swift};
use super::CodeType;
use crate::casing::{lower_camel_case, upper_camel_case};
use crate::text::{owned, push_str};

verus! {

/// The Swift code type of an error type.
pub struct ErrorCodeType {
    pub id: String,
}

impl ErrorCodeType {
    pub fn new(id: String) -> (res: Self)
        ensures
            res.id == id,
    {
        Self { id }
    }
}

impl CodeType for ErrorCodeType {
    open spec fn label(&self) -> Seq<char> {
        upper_camel_case(self.id@)
    }

    fn type_label(&self) -> (res: String)
        ensures
            res@ == upper_camel_case(self.id@),
    {
        let mut s = class_name_swift(self.id.as_str());
        s
    }
    fn canonical_name(&self) -> (res: String)
        ensures
            res@ == "Error"@ + upper_camel_case(self.id@),
    {
        let mut s = owned("Error");
        push_str(&mut s, self.type_label().as_str());
        s
    }
    fn lower(&self, nm: &str) -> (res: String)
        ensures
            res@ == lower_camel_case(nm@) + ".lower()"@,
    {
        let mut s = var_name_swift(nm);
        push_str(&mut s, ".lower()");
        s
    }
    fn write(&self, nm: &str, target: &str) -> (res: String)
        ensures
            res@ == lower_camel_case(nm@) + ".write(into: "@ + target@ + ")"@,
    {
        let mut s = var_name_swift(nm);
        push_str(&mut s, ".write(into: ");
        push_str(&mut s, target);
        push_str(&mut s, ")");
        s
    }
    fn lift(&self, nm: &str) -> (res: String)
        ensures
            res@ == upper_camel_case(self.id@) + ".lift("@ + nm@ + ")"@,
    {
        let mut s = self.type_label();
        push_str(&mut s, ".lift(");
        push_str(&mut s, nm);
        push_str(&mut s, ")");
        s
    }
    fn read(&self, nm: &str) -> (res: String)
        ensures
            res@ == upper_camel_case(self.id@) + ".read(from: "@ + nm@ + ")"@,
    {
        let mut s = self.type_label();
        push_str(&mut s, ".read(from: ");
        push_str(&mut s, nm);
        push_str(&mut s, ")");
        s
    }
    fn helper_code(&self) -> (res: Option<String>)
        ensures
            res matches Some(h) && h@ == "// Helper code for "@ + upper_camel_case(self.id@) + " error is found in ErrorTemplate.swift"@,
    {
        let mut s = owned("// Helper code for ");
        push_str(&mut s, self.type_label().as_str());
        push_str(&mut s, " error is found in ErrorTemplate.swift");
        Some(s)
    }
}

} // verus!
