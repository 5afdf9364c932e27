//! FFI definitions for the pointer FFI
//!
//! These exist in parallel with the normal FFI.  If the user enables the `pointer-ffi`
//! feature, then both versions of the FFI will be generated.  The pointer FFI symbols are
//! prefixed with `uniffi_ptr_` to avoid any conflicts.

use vstd::prelude::*;

use crate::text::{owned, push_str};

verus! {

#[derive(Debug)]
pub enum PointerFfiDefinition {
    Callback(PointerFfiCallbackFunction),
    Function(PointerFfiFunction),
}

/// FFI function for the pointer FFI
#[derive(Debug)]
pub struct PointerFfiFunction {
    pub name: String,
    pub kind: FfiFunctionKind,
}

/// Identifies the FFI function type
///
/// This is used in the pointer FFI to determine the argument types.
#[derive(Debug, Clone, Copy, PartialEq, Eq, Structural)]
pub enum FfiFunctionKind {
    /// Normal function, inputs a buffer pointer
    Normal,
    /// Rust future poll, inputs a buffer pointer plus a function pointer for the continuation
    /// function
    RustFuturePoll,
}

/// FFI callback function for the pointer FFI
#[derive(Debug)]
pub struct PointerFfiCallbackFunction {
    pub name: String,
    pub kind: FfiCallbackFunctionKind,
}

#[derive(Debug, Clone, Copy, PartialEq, Eq, Structural)]
pub enum FfiCallbackFunctionKind {
    /// Callback for the `rust_future_poll` function
    RustFutureContinutation,
}

impl PointerFfiDefinition {
    pub open spec fn name_text(&self) -> Seq<char> {
        match self {
            PointerFfiDefinition::Callback(cb) => cb.name@,
            PointerFfiDefinition::Function(f) => f.name@,
        }
    }

    pub fn name(&self) -> (res: &str)
        ensures
            res@ == self.name_text(),
    {
        match self {
            Self::Callback(cb) => cb.name.as_str(),
            Self::Function(f) => f.name.as_str(),
        }
    }

    /// A normal function.
    pub fn func(name: String) -> (res: Self)
        ensures
            res == Self::Function(PointerFfiFunction { name, kind: FfiFunctionKind::Normal }),
    {
        Self::Function(PointerFfiFunction { name, kind: FfiFunctionKind::Normal })
    }

    /// The function that polls a Rust future.
    pub fn rust_future_poll(name: String) -> (res: Self)
        ensures
            res == Self::Function(
                PointerFfiFunction { name, kind: FfiFunctionKind::RustFuturePoll },
            ),
    {
        Self::Function(PointerFfiFunction { name, kind: FfiFunctionKind::RustFuturePoll })
    }

    /// The callback that continues a Rust future.
    pub fn rust_future_continuation(name: String) -> (res: Self)
        ensures
            res == Self::Callback(
                PointerFfiCallbackFunction {
                    name,
                    kind: FfiCallbackFunctionKind::RustFutureContinutation,
                },
            ),
    {
        Self::Callback(
            PointerFfiCallbackFunction {
                name,
                kind: FfiCallbackFunctionKind::RustFutureContinutation,
            },
        )
    }
}

/// The name of a builtin pointer-FFI function of the namespace.
pub open spec fn pointer_ffi_name_text(namespace: Seq<char>, what: Seq<char>) -> Seq<char> {
    "uniffi_ptr_"@ + namespace + "_"@ + what
}

/// The name of a builtin pointer-FFI function of the namespace, such as
/// `uniffi_ptr_{namespace}_rustbuffer_alloc`.
pub fn pointer_ffi_name(namespace: &str, what: &str) -> (res: String)
    ensures
        res@ == pointer_ffi_name_text(namespace@, what@),
{
    let mut s = owned("uniffi_ptr_");
    push_str(&mut s, namespace);
    push_str(&mut s, "_");
    push_str(&mut s, what);
    s
}

/// The builtin definitions of the pointer FFI of a component with the given FFI
/// namespace, which come before those of its functions, constructors and methods.
pub fn builtin_ffi_definitions(namespace: &str) -> (res: Vec<PointerFfiDefinition>)
    ensures
        res@.len() == 7,
        res@[0] is Function && res@[0]->Function_0.kind == FfiFunctionKind::Normal,
        res@[0].name_text() == pointer_ffi_name_text(namespace@, "rustbuffer_alloc"@),
        res@[1] is Function && res@[1]->Function_0.kind == FfiFunctionKind::Normal,
        res@[1].name_text() == pointer_ffi_name_text(namespace@, "rustbuffer_free"@),
        res@[2] is Function && res@[2]->Function_0.kind == FfiFunctionKind::RustFuturePoll,
        res@[2].name_text() == pointer_ffi_name_text(namespace@, "rust_future_poll"@),
        res@[3] is Function && res@[3]->Function_0.kind == FfiFunctionKind::Normal,
        res@[3].name_text() == pointer_ffi_name_text(namespace@, "rust_future_cancel"@),
        res@[4] is Function && res@[4]->Function_0.kind == FfiFunctionKind::Normal,
        res@[4].name_text() == pointer_ffi_name_text(namespace@, "rust_future_complete"@),
        res@[5] is Function && res@[5]->Function_0.kind == FfiFunctionKind::Normal,
        res@[5].name_text() == pointer_ffi_name_text(namespace@, "rust_future_free"@),
        res@[6] is Callback,
        res@[6].name_text() == "RustFutureContinuationCallback"@,
{
    let mut v: Vec<PointerFfiDefinition> = Vec::new();
    v.push(PointerFfiDefinition::func(pointer_ffi_name(namespace, "rustbuffer_alloc")));
    v.push(PointerFfiDefinition::func(pointer_ffi_name(namespace, "rustbuffer_free")));
    v.push(PointerFfiDefinition::rust_future_poll(pointer_ffi_name(namespace, "rust_future_poll")));
    v.push(PointerFfiDefinition::func(pointer_ffi_name(namespace, "rust_future_cancel")));
    v.push(PointerFfiDefinition::func(pointer_ffi_name(namespace, "rust_future_complete")));
    v.push(PointerFfiDefinition::func(pointer_ffi_name(namespace, "rust_future_free")));
    v.push(PointerFfiDefinition::rust_future_continuation(owned("RustFutureContinuationCallback")));
    v
}

} // verus!
