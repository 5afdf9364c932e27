//! The Swift code type of callback interfaces, and the runtime support they need.

use vstd::prelude::*;

use super::filters::{class_name_swift, var_name_swift};
use super::CodeType;
use crate::casing::{lower_camel_case, upper_camel_case};
use crate::text::{owned, push_str};

verus! {

/// The Swift code type of a callback interface.
pub struct CallbackInterfaceCodeType {
    pub id: String,
}

/// Whether the Swift bindings support callback interfaces. They do not yet:
/// no callback interface has a Swift code type.
pub open spec fn swift_supports_callbacks() -> bool {
    false
}

impl CallbackInterfaceCodeType {
    /// The code type of the callback interface `id`, once Swift supports
    /// callbacks; until then no caller can meet the precondition.
    pub fn new(id: String) -> (res: Self)
        requires
            swift_supports_callbacks(),
        ensures
            res.id@ == id@,
    {
        Self { id }
    }

    /// The name of the Swift class with the interface's internal helpers.
    pub fn internals(&self) -> (res: String)
        ensures
            res@ == "CallbackInterface"@ + upper_camel_case(self.id@) + "Internals"@,
    {
        let mut s = owned("CallbackInterface");
        push_str(&mut s, class_name_swift(self.id.as_str()).as_str());
        push_str(&mut s, "Internals");
        s
    }
}

impl CodeType for CallbackInterfaceCodeType {
    open spec fn label(&self) -> Seq<char> {
        upper_camel_case(self.id@)
    }

    fn type_label(&self) -> (res: String)
        ensures
            res@ == upper_camel_case(self.id@),
    {
        let mut s = class_name_swift(self.id.as_str());
        s
    }
    fn canonical_name(&self) -> (res: String)
        ensures
            res@ == "CallbackInterface"@ + upper_camel_case(self.id@),
    {
        let mut s = owned("CallbackInterface");
        push_str(&mut s, self.type_label().as_str());
        s
    }
    fn lower(&self, nm: &str) -> (res: String)
        ensures
            res@ == "CallbackInterface"@ + upper_camel_case(self.id@) + "Internals"@ + ".lower("@ + lower_camel_case(nm@) + ")"@,
    {
        let mut s = self.internals();
        push_str(&mut s, ".lower(");
        push_str(&mut s, var_name_swift(nm).as_str());
        push_str(&mut s, ")");
        s
    }
    fn write(&self, nm: &str, target: &str) -> (res: String)
        ensures
            res@ == "CallbackInterface"@ + upper_camel_case(self.id@) + "Internals"@ + ".write(into: "@ + lower_camel_case(nm@) + ", "@ + target@ + ")"@,
    {
        let mut s = self.internals();
        push_str(&mut s, ".write(into: ");
        push_str(&mut s, var_name_swift(nm).as_str());
        push_str(&mut s, ", ");
        push_str(&mut s, target);
        push_str(&mut s, ")");
        s
    }
    fn lift(&self, nm: &str) -> (res: String)
        ensures
            res@ == "CallbackInterface"@ + upper_camel_case(self.id@) + "Internals"@ + ".lift("@ + nm@ + ")"@,
    {
        let mut s = self.internals();
        push_str(&mut s, ".lift(");
        push_str(&mut s, nm);
        push_str(&mut s, ")");
        s
    }
    fn read(&self, nm: &str) -> (res: String)
        ensures
            res@ == "CallbackInterface"@ + upper_camel_case(self.id@) + "Internals"@ + ".read(from: "@ + nm@ + ")"@,
    {
        let mut s = self.internals();
        push_str(&mut s, ".read(from: ");
        push_str(&mut s, nm);
        push_str(&mut s, ")");
        s
    }
    fn helper_code(&self) -> (res: Option<String>)
        ensures
            res matches Some(h) && h@ == "// Helper code for "@ + upper_camel_case(self.id@) + " callback interface is found in CallbackInterfaceTemplate.swift"@,
    {
        let mut s = owned("// Helper code for ");
        push_str(&mut s, self.type_label().as_str());
        push_str(&mut s, " callback interface is found in CallbackInterfaceTemplate.swift");
        Some(s)
    }
}

/// The runtime support that callback interfaces need, which is rendered only
/// where the component has callback interfaces.
pub struct SwiftCallbackInterfaceRuntime {
    pub is_needed: bool,
}

impl SwiftCallbackInterfaceRuntime {
    /// The runtime for a component with the given number of callback interfaces.
    pub fn new(callback_interface_count: usize) -> (res: Self)
        ensures
            res.is_needed == (callback_interface_count != 0),
    {
        Self { is_needed: callback_interface_count != 0 }
    }
}

} // verus!
