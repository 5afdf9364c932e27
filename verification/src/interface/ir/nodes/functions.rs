//! Callable-related nodes of the bindings IR.

use vstd::prelude::*;

use super::ffi::{FfiFunctionRef, FfiType};

verus! {

/// FFI functions used to drive an async callable.
#[derive(Debug, Clone)]
pub struct AsyncData {
    pub ffi_rust_future_poll: FfiFunctionRef,
    pub ffi_rust_future_complete: FfiFunctionRef,
    pub ffi_rust_future_free: FfiFunctionRef,
    /// The FFI struct to pass to the completion function for callback interface methods
    pub foreign_future_result_type: FfiType,
}

} // verus!
