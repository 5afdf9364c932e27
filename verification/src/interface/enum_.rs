//! # Enum definitions for a component interface.
//!
//! An enum has named variants, each of which may have named and typed fields.
//! Enums are passed across the FFI by serializing to a bytebuffer, with an
//! `i32` indicating the variant followed by the serialization of each field.

use vstd::prelude::*;

use super::types::{Type, TypeUniverse};
use crate::text::{owned, push_str};

verus! {

/// A named, typed field of an enum variant.
#[derive(Debug)]
pub struct FieldDescr {
    pub name: String,
    pub type_: Type,
}

/// The definition of an enum.
#[derive(Debug)]
pub struct EnumDescr {
    pub name: String,
    pub variants: Vec<VariantDescr>,
    /// "Flat" enums do not have, and will never have, variants with associated data.
    pub flat: bool,
}

/// The definition of a variant of an enum: its name and its fields.
#[derive(Debug)]
pub struct VariantDescr {
    pub name: String,
    pub fields: Vec<FieldDescr>,
}

impl EnumDescr {
    /// A flat enum, as a UDL `enum` defines one: its variants have the given
    /// names, in order, and no fields.
    pub fn flat_from_values(name: &str, values: &Vec<&str>) -> (res: Self)
        ensures
            res.name@ == name@,
            res.flat,
            res.variants@.len() == values@.len(),
            forall|i: int|
                0 <= i < values@.len() ==> #[trigger] res.variants@[i].name@ == values@[i]@
                    && res.variants@[i].fields@.len() == 0,
    {
        let mut variants: Vec<VariantDescr> = Vec::new();
        let mut i: usize = 0;
        while i < values.len()
            invariant
                i <= values@.len(),
                variants@.len() == i,
                forall|j: int|
                    0 <= j < i ==> #[trigger] variants@[j].name@ == values@[j]@
                        && variants@[j].fields@.len() == 0,
            decreases values.len() - i,
        {
            variants.push(VariantDescr { name: owned(values[i]), fields: Vec::new() });
            i = i + 1;
        }
        EnumDescr { name: owned(name), variants, flat: true }
    }

    pub fn name(&self) -> (res: &str)
        ensures
            res@ == self.name@,
    {
        self.name.as_str()
    }

    pub fn is_flat(&self) -> (res: bool)
        ensures
            res == self.flat,
    {
        self.flat
    }
}

impl VariantDescr {
    pub fn name(&self) -> (res: &str)
        ensures
            res@ == self.name@,
    {
        self.name.as_str()
    }

    pub fn has_fields(&self) -> (res: bool)
        ensures
            res == (self.fields@.len() != 0),
    {
        self.fields.len() != 0
    }
}

/// Perform global consistency checks on the declared interface: it must have
/// a namespace, and, to keep code generation tractable, enum variant names must
/// not shadow type names.
pub fn check_consistency(namespace: &str, enums: &Vec<EnumDescr>, types: &TypeUniverse) -> (res: Result<(), String>)
    requires
        types.wf(),
    ensures
        namespace@.len() == 0 ==> (res matches Err(e) && e@ == "missing namespace definition"@),
        namespace@.len() != 0 ==> match res {
            Ok(()) => forall|e: int, v: int|
                0 <= e < enums@.len() && 0 <= v < enums@[e].variants@.len() ==> !types.definitions().contains_key(
                    #[trigger] enums@[e].variants@[v].name@,
                ),
            Err(m) => exists|e: int, v: int|
                {
                    &&& 0 <= e < enums@.len() && 0 <= v < enums@[e].variants@.len()
                    &&& types.definitions().contains_key(#[trigger] enums@[e].variants@[v].name@)
                    &&& forall|e2: int, v2: int|
                        0 <= e2 < enums@.len() && 0 <= v2 < enums@[e2].variants@.len() && (e2 < e || (
                            e2 == e && v2 < v)) ==> !types.definitions().contains_key(
                            #[trigger] enums@[e2].variants@[v2].name@,
                        )
                    &&& m@ == "Enum variant names must not shadow type names: \""@ + enums@[e].variants@[v].name@ + "\""@
                },
        },
{
    if namespace.unicode_len() == 0 {
        return Err(owned("missing namespace definition"));
    }
    let mut e: usize = 0;
    while e < enums.len()
        invariant
            e <= enums@.len(),
            namespace@.len() != 0,
            types.wf(),
            forall|e2: int, v2: int|
                0 <= e2 < e && 0 <= v2 < enums@[e2].variants@.len() ==> !types.definitions().contains_key(
                    #[trigger] enums@[e2].variants@[v2].name@,
                ),
        decreases enums.len() - e,
    {
        let mut v: usize = 0;
        while v < enums[e].variants.len()
            invariant
                e < enums@.len(),
                v <= enums@[e as int].variants@.len(),
                namespace@.len() != 0,
                types.wf(),
                forall|e2: int, v2: int|
                    0 <= e2 < e && 0 <= v2 < enums@[e2].variants@.len() ==> !types.definitions().contains_key(
                        #[trigger] enums@[e2].variants@[v2].name@,
                    ),
                forall|v2: int|
                    0 <= v2 < v ==> !types.definitions().contains_key(
                        #[trigger] enums@[e as int].variants@[v2].name@,
                    ),
            decreases enums@[e as int].variants@.len() - v,
        {
            let name = enums[e].variants[v].name.as_str();
            if types.get_type_definition(name).is_some() {
                let mut m = owned("Enum variant names must not shadow type names: \"");
                push_str(&mut m, name);
                push_str(&mut m, "\"");
                assert(types.definitions().contains_key(enums@[e as int].variants@[v as int].name@));
                return Err(m);
            }
            v = v + 1;
        }
        e = e + 1;
    }
    Ok(())
}

} // verus!
