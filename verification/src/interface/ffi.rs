//! # Low-level typesystem for the FFI layer of a component interface.
//!
//! This module provides the "FFI-level" typesystem of a UniFFI Rust Component, that is,
//! the C-style functions and structs and primitive datatypes that are used to interface
//! between the Rust component code and the foreign-language bindings.

use vstd::prelude::*;

use crate::text::owned;

verus! {

/// Represents the restricted set of low-level types that can be used to construct
/// the C-style FFI layer between a rust component and its foreign language bindings.
///
/// For the types that involve memory allocation, we make a distinction between
/// "owned" types (the recipient must free it, or pass it to someone else) and
/// "borrowed" types (the sender must keep it alive for the duration of the call).
#[derive(Debug)]
pub enum FfiType {
    UInt8,
    Int8,
    UInt16,
    Int16,
    UInt32,
    Int32,
    UInt64,
    Int64,
    Float32,
    Float64,
    /// A `*const c_void` pointer to a rust-owned `Arc<T>`; the string names `T`.
    RustArcPtr(String),
    /// A byte buffer allocated by rust, and owned by whoever currently holds it.
    /// For an external type, the metadata names the module that defines it.
    RustBuffer(Option<ExternalFfiMetadata>),
    /// A borrowed reference to some raw bytes owned by foreign language code.
    ForeignBytes,
    /// Pointer to a callback function that handles all callbacks on the foreign language side.
    ForeignCallback,
    /// Pointer-sized opaque handle that represents a foreign executor.
    ForeignExecutorHandle,
    /// Pointer to the callback function that's invoked to schedule calls with a ForeignExecutor
    ForeignExecutorCallback,
    /// Pointer to a callback function to complete an async Rust function
    FutureCallback {
        /// `UInt8` stands in for a void return.
        return_type: Box<FfiType>,
    },
    /// Opaque pointer passed to the FutureCallback
    FutureCallbackData,
    /// Pointer to a callback function; the name of its function type.
    Callback(String),
    /// Pointer to a repr(C) struct; the name of the struct.
    Struct(String),
    /// Opaque 64-bit handle
    Handle,
    RustCallStatus,
    /// Const pointer to an FfiType.
    Reference(Box<FfiType>),
    /// Mutable pointer to an FfiType.
    MutReference(Box<FfiType>),
    /// Opaque pointer
    VoidPointer,
}

/// The module that defines an external type passed in a RustBuffer.
#[derive(Debug)]
pub struct ExternalFfiMetadata {
    pub module: String,
    pub namespace: String,
}

impl Clone for ExternalFfiMetadata {
    fn clone(&self) -> (res: Self)
        ensures
            res == *self,
    {
        ExternalFfiMetadata { module: self.module.clone(), namespace: self.namespace.clone() }
    }
}

impl Clone for FfiType {
    fn clone(&self) -> (res: Self)
        ensures
            res == *self,
        decreases self,
    {
        match self {
            FfiType::UInt8 => FfiType::UInt8,
            FfiType::Int8 => FfiType::Int8,
            FfiType::UInt16 => FfiType::UInt16,
            FfiType::Int16 => FfiType::Int16,
            FfiType::UInt32 => FfiType::UInt32,
            FfiType::Int32 => FfiType::Int32,
            FfiType::UInt64 => FfiType::UInt64,
            FfiType::Int64 => FfiType::Int64,
            FfiType::Float32 => FfiType::Float32,
            FfiType::Float64 => FfiType::Float64,
            FfiType::RustArcPtr(name) => FfiType::RustArcPtr(name.clone()),
            FfiType::RustBuffer(meta) => FfiType::RustBuffer(
                match meta {
                    Some(m) => Some(m.clone()),
                    None => None,
                },
            ),
            FfiType::ForeignBytes => FfiType::ForeignBytes,
            FfiType::ForeignCallback => FfiType::ForeignCallback,
            FfiType::ForeignExecutorHandle => FfiType::ForeignExecutorHandle,
            FfiType::ForeignExecutorCallback => FfiType::ForeignExecutorCallback,
            FfiType::FutureCallback { return_type } => FfiType::FutureCallback {
                return_type: Box::new((**return_type).clone()),
            },
            FfiType::FutureCallbackData => FfiType::FutureCallbackData,
            FfiType::Callback(name) => FfiType::Callback(name.clone()),
            FfiType::Struct(name) => FfiType::Struct(name.clone()),
            FfiType::Handle => FfiType::Handle,
            FfiType::RustCallStatus => FfiType::RustCallStatus,
            FfiType::Reference(inner) => FfiType::Reference(Box::new((**inner).clone())),
            FfiType::MutReference(inner) => FfiType::MutReference(Box::new((**inner).clone())),
            FfiType::VoidPointer => FfiType::VoidPointer,
        }
    }
}

/// Represents an "extern C"-style function that will be part of the FFI.
///
/// These can't be declared explicitly in the UDL, but rather, are derived automatically
/// from the high-level interface.
#[derive(Debug)]
pub struct FfiFunction {
    pub name: String,
    pub is_async: bool,
    pub arguments: Vec<FfiArgument>,
    pub return_type: Option<FfiType>,
    pub has_rust_call_status_arg: bool,
    /// Used by C# generator to differentiate the free function and call it with void*
    /// instead of C# `SafeHandle` type.
    pub is_object_free_function: bool,
}

/// Represents an argument to an FFI function.
///
/// Each argument has a name and a type.
#[derive(Debug)]
pub struct FfiArgument {
    pub name: String,
    pub type_: FfiType,
}

impl Clone for FfiArgument {
    fn clone(&self) -> (res: Self)
        ensures
            res == *self,
    {
        FfiArgument { name: self.name.clone(), type_: self.type_.clone() }
    }
}

/// Represents a field of an [FfiStruct]
#[derive(Debug)]
pub struct FfiField {
    pub name: String,
    pub type_: FfiType,
}

/// Represents a repr(C) struct used in the FFI
#[derive(Debug)]
pub struct FfiStruct {
    pub name: String,
    pub fields: Vec<FfiField>,
}

/// A callback function type, implemented on the foreign side and called
/// from Rust through a function pointer.
#[derive(Debug)]
pub struct FfiCallbackFunction {
    pub name: String,
    pub arguments: Vec<FfiArgument>,
    pub return_type: Option<FfiType>,
    pub has_rust_call_status_arg: bool,
}

/// A definition in the FFI layer
#[derive(Debug)]
pub enum FfiDefinition {
    Function(FfiFunction),
    CallbackFunction(FfiCallbackFunction),
    Struct(FfiStruct),
}

/// The arguments that `init` appends to the arguments of an async function,
/// given its return type.
pub open spec fn async_arguments(return_type: Option<FfiType>) -> Seq<FfiArgument> {
    seq![
        FfiArgument { name: arbitrary(), type_: FfiType::ForeignExecutorHandle },
        FfiArgument {
            name: arbitrary(),
            type_: FfiType::FutureCallback {
                return_type: Box::new(
                    match return_type {
                        Some(t) => t,
                        None => FfiType::UInt8,
                    },
                ),
            },
        },
        FfiArgument { name: arbitrary(), type_: FfiType::FutureCallbackData },
    ]
}

impl FfiFunction {
    pub fn name(&self) -> (res: &str)
        ensures
            res@ == self.name@,
    {
        self.name.as_str()
    }

    pub fn is_async(&self) -> (res: bool)
        ensures
            res == self.is_async,
    {
        self.is_async
    }

    pub fn arguments(&self) -> (res: Vec<&FfiArgument>)
        ensures
            res@.len() == self.arguments@.len(),
            forall|i: int| 0 <= i < res@.len() ==> *res@[i] == self.arguments@[i],
    {
        let mut res: Vec<&FfiArgument> = Vec::new();
        let mut i: usize = 0;
        while i < self.arguments.len()
            invariant
                i <= self.arguments@.len(),
                res@.len() == i,
                forall|j: int| 0 <= j < i ==> *res@[j] == self.arguments@[j],
            decreases self.arguments.len() - i,
        {
            res.push(&self.arguments[i]);
            i = i + 1;
        }
        res
    }

    pub fn return_type(&self) -> (res: Option<&FfiType>)
        ensures
            match res {
                Some(t) => self.return_type == Some(*t),
                None => self.return_type is None,
            },
    {
        match &self.return_type {
            Some(t) => Some(t),
            None => None,
        }
    }

    pub fn has_rust_call_status_arg(&self) -> (res: bool)
        ensures
            res == self.has_rust_call_status_arg,
    {
        self.has_rust_call_status_arg
    }

    pub fn is_object_free_function(&self) -> (res: bool)
        ensures
            res == self.is_object_free_function,
    {
        self.is_object_free_function
    }

    /// Sets the arguments and return type. An async function also takes an
    /// executor handle, a completion callback (whose return type is the
    /// function's, `UInt8` standing in for none) and the callback's data, and
    /// returns nothing: its result goes to the callback.
    pub fn init(&mut self, return_type: Option<FfiType>, args: Vec<FfiArgument>)
        ensures
            final(self).name == old(self).name,
            final(self).is_async == old(self).is_async,
            final(self).has_rust_call_status_arg == old(self).has_rust_call_status_arg,
            final(self).is_object_free_function == old(self).is_object_free_function,
            !old(self).is_async ==> final(self).arguments@ == args@ && final(self).return_type
                == return_type,
            old(self).is_async ==> {
                &&& final(self).return_type is None
                &&& final(self).arguments@.len() == args@.len() + 3
                &&& final(self).arguments@.subrange(0, args@.len() as int) == args@
                &&& forall|k: int|
                    0 <= k < 3 ==> (#[trigger] final(self).arguments@[args@.len() + k]).type_
                        == async_arguments(return_type)[k].type_
                &&& final(self).arguments@[args@.len() as int].name@ == "uniffi_executor"@
                &&& final(self).arguments@[args@.len() + 1int].name@ == "uniffi_callback"@
                &&& final(self).arguments@[args@.len() + 2int].name@ == "uniffi_callback_data"@
            },
    {
        self.arguments = args;
        if self.is_async() {
            let callback_return = match return_type {
                Some(t) => t,
                None => FfiType::UInt8,
            };
            self.arguments.push(
                FfiArgument {
                    name: owned("uniffi_executor"),
                    type_: FfiType::ForeignExecutorHandle,
                },
            );
            self.arguments.push(
                FfiArgument {
                    name: owned("uniffi_callback"),
                    type_: FfiType::FutureCallback { return_type: Box::new(callback_return) },
                },
            );
            self.arguments.push(
                FfiArgument {
                    name: owned("uniffi_callback_data"),
                    type_: FfiType::FutureCallbackData,
                },
            );
            self.return_type = None;
            assert(self.arguments@.subrange(0, args@.len() as int) =~= args@);
        } else {
            self.return_type = return_type;
        }
    }
}

impl Default for FfiFunction {
    fn default() -> (res: Self)
        ensures
            res.name@ == Seq::<char>::empty(),
            !res.is_async,
            res.arguments@.len() == 0,
            res.return_type is None,
            res.has_rust_call_status_arg,
            !res.is_object_free_function,
    {
        FfiFunction {
            name: String::new(),
            is_async: false,
            arguments: Vec::new(),
            return_type: None,
            has_rust_call_status_arg: true,
            is_object_free_function: false,
        }
    }
}

impl FfiArgument {
    pub fn name(&self) -> (res: &str)
        ensures
            res@ == self.name@,
    {
        self.name.as_str()
    }

    pub fn type_(&self) -> (res: FfiType)
        ensures
            res == self.type_,
    {
        self.type_.clone()
    }
}

} // verus!
