//! Traits shared by the nodes of the bindings IR.

use vstd::prelude::*;

use super::ffi::{FfiArgument, FfiField, FfiFunction, FfiFunctionType, FfiType};

verus! {

/// Node associated with an FFI type
pub trait AsFfiType {
    /// The FFI type that this node carries.
    spec fn ffi_type_of(&self) -> FfiType;

    fn as_ffi_type(&self) -> (res: &FfiType)
        ensures
            *res == self.ffi_type_of(),
    ;
}

/// Type of callable, used to get details about the specific callable when accessed via the
/// `Callable` trait.
#[derive(Debug, Clone)]
pub enum CallableType {
    Function,
    Method,
    Constructor { primary: bool },
}

/// FFI Callable: a function or function type of the FFI, with its arguments
/// and return type.
pub trait FfiCallable {
    spec fn arguments_of(&self) -> Seq<FfiArgument>;

    spec fn return_type_of(&self) -> Option<FfiType>;

    fn arguments(&self) -> (res: &[FfiArgument])
        ensures
            res@ == self.arguments_of(),
    ;

    fn return_type(&self) -> (res: &Option<FfiType>)
        ensures
            *res == self.return_type_of(),
    ;
}

impl FfiCallable for FfiFunction {
    open spec fn arguments_of(&self) -> Seq<FfiArgument> {
        self.arguments@
    }

    open spec fn return_type_of(&self) -> Option<FfiType> {
        self.return_type
    }

    fn arguments(&self) -> (res: &[FfiArgument]) {
        self.arguments.as_slice()
    }

    fn return_type(&self) -> (res: &Option<FfiType>) {
        &self.return_type
    }
}

impl FfiCallable for FfiFunctionType {
    open spec fn arguments_of(&self) -> Seq<FfiArgument> {
        self.arguments@
    }

    open spec fn return_type_of(&self) -> Option<FfiType> {
        self.return_type
    }

    fn arguments(&self) -> (res: &[FfiArgument]) {
        self.arguments.as_slice()
    }

    fn return_type(&self) -> (res: &Option<FfiType>) {
        &self.return_type
    }
}

impl CallableType {
    pub fn is_function(&self) -> (res: bool)
        ensures
            res == (*self is Function),
    {
        matches!(self, CallableType::Function)
    }

    pub fn is_method(&self) -> (res: bool)
        ensures
            res == (*self is Method),
    {
        matches!(self, CallableType::Method)
    }

    pub fn is_constructor(&self) -> (res: bool)
        ensures
            res == (*self is Constructor),
    {
        matches!(self, CallableType::Constructor { .. })
    }

    /// Whether this is the primary constructor, the one named `new`.
    pub fn is_primary_constructor(&self) -> (res: bool)
        ensures
            res == (*self matches CallableType::Constructor { primary } && primary),
    {
        matches!(self, CallableType::Constructor { primary: true })
    }

    /// Whether this is a constructor other than the primary one.
    pub fn is_alternate_constructor(&self) -> (res: bool)
        ensures
            res == (*self matches CallableType::Constructor { primary } && !primary),
    {
        matches!(self, CallableType::Constructor { primary: false })
    }
}

impl AsFfiType for FfiArgument {
    open spec fn ffi_type_of(&self) -> FfiType {
        self.ty
    }

    fn as_ffi_type(&self) -> (res: &FfiType) {
        &self.ty
    }
}

impl AsFfiType for FfiField {
    open spec fn ffi_type_of(&self) -> FfiType {
        self.ty
    }

    fn as_ffi_type(&self) -> (res: &FfiType) {
        &self.ty
    }
}

impl AsFfiType for FfiType {
    open spec fn ffi_type_of(&self) -> FfiType {
        *self
    }

    fn as_ffi_type(&self) -> (res: &FfiType) {
        self
    }
}

} // verus!
