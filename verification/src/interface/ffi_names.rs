//! # FFI Names
//!
//! This module calculates the names we export in dylibs.
//!
//! We have two main goals with naming things:
//!   - Avoid name collisions.  For example when two objects having methods with the same name or
//!     two UniFFI crates are bundled together in the same dylib.
//!   - Guard against accidentally using foreign-language bindings generated from one version of
//!     an interface with the compiled Rust code from a different version of that interface.  We
//!     add checksums that depend on things like function signatures to avoid the possibility of
//!     the bindings calling into the scaffolding when they don't agree on the interface.
//!
//! A checksum is taken of a hash of the item it guards; the hash is computed by
//! the caller, from the item's `Hash`, and handed in.

use vstd::prelude::*;

use crate::text::{digit_char, digits, exec_digit_char, owned, push_char, push_digits, push_str};

verus! {

/// API contract version.  Bump this if you make any changes to how the foreign bindings calls the
/// scaffolding functions, for example the semantics of `RustCallStatus` or how types are
/// lifted/lowered.
pub const UNIFFI_API_VERSION: u32 = 0;

/// The checksum of an item with the given hash: its low 16 bits, in lower-case hexadecimal.
pub open spec fn checksum_text(hash: u64) -> Seq<char> {
    digits((hash % 0x10000) as nat, 16)
}

/// Generate a checksum to include in an interface component name
///
/// This is used to guard against accidentally using foreign-language bindings generated from
/// one version of an interface with the compiled Rust code from a different version of that
/// interface. The checksum is taken of the hash of the component data, which includes things
/// like the function signature.
///
/// Note that this is designed to prevent accidents, not attacks, so there is no need for the
/// checksum to be cryptographically secure.
pub fn checksum(hash: u64) -> (res: String)
    ensures
        res@ == checksum_text(hash),
{
    let mut s = String::new();
    push_digits(&mut s, hash & 0xFFFF, 16);
    assert(hash & 0xFFFF == hash % 0x10000) by (bit_vector);
    assert(s@ =~= checksum_text(hash));
    s
}

/// The namespace of the FFI-level functions of a component: its namespace and
/// the checksum of the component, from the component's hash.
///
/// If foreign-language bindings attempt to load and use a version of the Rust
/// code compiled from a different UDL definition than the one used for the
/// bindings themselves, then there is a high probability of checksum mismatch
/// and they will fail to link against the compiled Rust code.
pub fn ffi_namespace(namespace: &str, hash: u64) -> (res: String)
    ensures
        res@ == namespace@ + "_"@ + four_hex_digits(hash),
        four_hex_digits(hash).len() == 4,
        forall|i: int|
            0 <= i < 4 ==> {
                let c = #[trigger] four_hex_digits(hash)[i];
                ('0' <= c <= '9') || ('a' <= c <= 'f')
            },
{
    let v = hash & 0xFFFF;
    assert(v == hash % 0x10000) by (bit_vector)
        requires
            v == hash & 0xFFFF,
    ;
    let mut s = owned(namespace);
    push_str(&mut s, "_");
    push_char(&mut s, exec_digit_char(v / 4096));
    push_char(&mut s, exec_digit_char((v / 256) % 16));
    push_char(&mut s, exec_digit_char((v / 16) % 16));
    push_char(&mut s, exec_digit_char(v % 16));
    assert(s@ =~= namespace@ + "_"@ + four_hex_digits(hash));
    s
}

/// The low 16 bits of a hash as exactly four lower-case hexadecimal digits,
/// zero-padded.
pub open spec fn four_hex_digits(hash: u64) -> Seq<char> {
    let v = (hash % 0x10000) as nat;
    seq![digit_char(v / 4096), digit_char((v / 256) % 16), digit_char((v / 16) % 16), digit_char(v % 16)]
}

/// Calculates FFI names for the interface
///
/// This is an enum because we calculate our prefix differently depending on if we're using a UDL
/// file or a proc-macro.
#[derive(Debug)]
pub enum FFINames {
    // Namespace of a UDL file
    InterfaceNamespace(String),
    // Name of the crate, this comes from the proc-macro code
    CrateName(String),
    // Module path of the item, including the crate name.
    ModulePath(String),
}

impl FFINames {
    /// The namespace, crate name or module path that the names are made from.
    pub open spec fn base(&self) -> Seq<char> {
        match self {
            FFINames::InterfaceNamespace(name) => name@,
            FFINames::CrateName(name) => name@,
            FFINames::ModulePath(name) => name@,
        }
    }

    /// The prefix of the names of things of a kind.
    pub open spec fn prefix_text(&self, kind: Seq<char>) -> Seq<char> {
        "_uniffi_v0_"@ + self.base() + "_"@ + kind
    }

    /// Get a prefix to use for the name of something
    ///
    /// This prefix includes:
    ///   - The word "uniffi" to avoid name collisions with other exports
    ///   - The UDL namespace, crate name, or full module path, so that different crates
    ///     can't have the same prefix.
    ///   - UNIFFI_API_VERSION to cause lookup/linker errors rather than UB when the scaffolding
    ///     API contract changes.
    ///   - A unique string for the kind of thing we're naming (function, method, constructor,
    ///     etc).  This prevents name collisions between different kinds of things, for if
    ///     there's an `Car.drive()` method and a `car_drive()` function.
    pub fn prefix(&self, kind: &str) -> (res: String)
        ensures
            res@ == self.prefix_text(kind@),
    {
        let name_string = match self {
            Self::InterfaceNamespace(name) | Self::CrateName(name) | Self::ModulePath(name) => name,
        };
        let mut s = owned("_uniffi_v0_");
        push_str(&mut s, name_string.as_str());
        push_str(&mut s, "_");
        push_str(&mut s, kind);
        s
    }

    /// The name of the scaffolding function of a function with the given hash and name.
    pub fn function(&self, hash: u64, func_name: &str) -> (res: String)
        ensures
            res@ == self.prefix_text("func"@) + "_"@ + checksum_text(hash) + "_"@ + func_name@,
    {
        let mut s = self.prefix("func");
        push_str(&mut s, "_");
        push_str(&mut s, checksum(hash).as_str());
        push_str(&mut s, "_");
        push_str(&mut s, func_name);
        s
    }

    /// The name of the scaffolding function of a constructor, with the constructor's hash.
    pub fn constructor(&self, hash: u64, obj_name: &str, cons_name: &str) -> (res: String)
        ensures
            res@ == self.prefix_text("constructor"@) + "_"@ + checksum_text(hash) + "_"@
                + obj_name@ + "_"@ + cons_name@,
    {
        let mut s = self.prefix("constructor");
        push_str(&mut s, "_");
        push_str(&mut s, checksum(hash).as_str());
        push_str(&mut s, "_");
        push_str(&mut s, obj_name);
        push_str(&mut s, "_");
        push_str(&mut s, cons_name);
        s
    }

    /// The name of the scaffolding function of a method, with the hash of its object: that
    /// includes the method signature but also the rest of the object definition.
    pub fn method(&self, hash: u64, obj_name: &str, meth_name: &str) -> (res: String)
        ensures
            res@ == self.prefix_text("methods"@) + "_"@ + checksum_text(hash) + "_"@ + obj_name@
                + "_"@ + meth_name@,
    {
        let mut s = self.prefix("methods");
        push_str(&mut s, "_");
        push_str(&mut s, checksum(hash).as_str());
        push_str(&mut s, "_");
        push_str(&mut s, obj_name);
        push_str(&mut s, "_");
        push_str(&mut s, meth_name);
        s
    }

    /// The name of the function that frees an object, with the object's hash.
    pub fn object_free(&self, hash: u64, obj_name: &str) -> (res: String)
        ensures
            res@ == self.prefix_text("free"@) + "_"@ + checksum_text(hash) + "_"@ + obj_name@,
    {
        let mut s = self.prefix("free");
        push_str(&mut s, "_");
        push_str(&mut s, checksum(hash).as_str());
        push_str(&mut s, "_");
        push_str(&mut s, obj_name);
        s
    }

    /// The name of the function that initialises a callback interface, with its hash.
    pub fn callback_init(&self, hash: u64, callback_name: &str) -> (res: String)
        ensures
            res@ == self.prefix_text("callback"@) + "_"@ + checksum_text(hash) + "_"@
                + callback_name@ + "_init"@,
    {
        let mut s = self.prefix("callback");
        push_str(&mut s, "_");
        push_str(&mut s, checksum(hash).as_str());
        push_str(&mut s, "_");
        push_str(&mut s, callback_name);
        push_str(&mut s, "_init");
        s
    }

    /// Name for a UniFFI global function, like `rustbuffer_alloc()`
    ///
    /// This name doesn't include a checksum.  If we make changes to those functions, then we
    /// need to bump the UNIFFI_API_VERSION.
    pub fn uniffi_func(&self, name: &str) -> (res: String)
        ensures
            res@ == self.prefix_text("uniffi"@) + "_"@ + name@,
    {
        let mut s = self.prefix("uniffi");
        push_str(&mut s, "_");
        push_str(&mut s, name);
        s
    }
}

/// The kinds of thing that names are made for.
pub open spec fn name_kinds() -> Seq<Seq<char>> {
    seq!["func"@, "constructor"@, "methods"@, "free"@, "callback"@, "uniffi"@]
}

proof fn lemma_kind_literals()
    ensures
        "func"@ == seq!['f', 'u', 'n', 'c'],
        "constructor"@ == seq!['c', 'o', 'n', 's', 't', 'r', 'u', 'c', 't', 'o', 'r'],
        "methods"@ == seq!['m', 'e', 't', 'h', 'o', 'd', 's'],
        "free"@ == seq!['f', 'r', 'e', 'e'],
        "callback"@ == seq!['c', 'a', 'l', 'l', 'b', 'a', 'c', 'k'],
        "uniffi"@ == seq!['u', 'n', 'i', 'f', 'f', 'i'],
{
    reveal_strlit("func");
    reveal_strlit("constructor");
    reveal_strlit("methods");
    reveal_strlit("free");
    reveal_strlit("callback");
    reveal_strlit("uniffi");
    assert("func"@ =~= seq!['f', 'u', 'n', 'c']);
    assert("constructor"@ =~= seq!['c', 'o', 'n', 's', 't', 'r', 'u', 'c', 't', 'o', 'r']);
    assert("methods"@ =~= seq!['m', 'e', 't', 'h', 'o', 'd', 's']);
    assert("free"@ =~= seq!['f', 'r', 'e', 'e']);
    assert("callback"@ =~= seq!['c', 'a', 'l', 'l', 'b', 'a', 'c', 'k']);
    assert("uniffi"@ =~= seq!['u', 'n', 'i', 'f', 'f', 'i']);
}

/// Names of things of different kinds never collide: whatever follows the
/// prefixes, two names made by the same `FFINames` for two different kinds differ.
pub proof fn lemma_kinds_never_collide(
    names: FFINames,
    i: int,
    j: int,
    rest_i: Seq<char>,
    rest_j: Seq<char>,
)
    requires
        0 <= i < name_kinds().len(),
        0 <= j < name_kinds().len(),
        i != j,
    ensures
        names.prefix_text(name_kinds()[i]) + rest_i != names.prefix_text(name_kinds()[j]) + rest_j,
{
    lemma_kind_literals();
    let base = "_uniffi_v0_"@ + names.base() + "_"@;
    let a = names.prefix_text(name_kinds()[i]) + rest_i;
    let b = names.prefix_text(name_kinds()[j]) + rest_j;
    let n = base.len() as int;
    assert(a == base + (name_kinds()[i] + rest_i));
    assert(b == base + (name_kinds()[j] + rest_j));
    if a == b {
        assert(a[n] == name_kinds()[i][0]);
        assert(b[n] == name_kinds()[j][0]);
        assert(a[n + 1] == name_kinds()[i][1]);
        assert(b[n + 1] == name_kinds()[j][1]);
    }
}

/// Names of one kind made from different namespaces, crate names or module
/// paths never collide: the prefix tells the base apart.
pub proof fn lemma_bases_never_collide(a: FFINames, b: FFINames, kind: Seq<char>)
    requires
        a.prefix_text(kind) == b.prefix_text(kind),
    ensures
        a.base() == b.base(),
{
    let pa = a.prefix_text(kind);
    let n = pa.len() - 1 - kind.len();
    assert(a.base() =~= pa.subrange(11, n as int)) by {
        reveal_strlit("_uniffi_v0_");
        reveal_strlit("_");
    }
    assert(b.base() =~= pa.subrange(11, n as int)) by {
        reveal_strlit("_uniffi_v0_");
        reveal_strlit("_");
    }
}

} // verus!
