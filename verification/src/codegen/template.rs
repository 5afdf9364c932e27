//! A list of rendered templates without duplicates.

use std::collections::BTreeSet;

use vstd::prelude::*;

verus! {

broadcast use vstd::laws_cmp::group_laws_cmp;

/// Stores a list of rendered templates without duplicates
///
/// This is used for types like `CallbackInterface` and `Object` that need support code that
/// should only be rendered once, even if there are multiples of those types. A
/// template is known by a hash of it (and of its type): of two templates with
/// the same hash, the first one inserted is kept.
pub struct TemplateRenderSet {
    items: Vec<String>,
    hashes_seen: BTreeSet<u64>,
}

impl TemplateRenderSet {
    /// The rendered templates, in the order they were inserted.
    pub closed spec fn items(&self) -> Seq<Seq<char>> {
        self.items@.map_values(|s: String| s@)
    }

    /// The hashes of the templates inserted.
    pub closed spec fn hashes(&self) -> Set<u64> {
        self.hashes_seen@
    }

    /// One rendered template for each hash seen.
    pub closed spec fn wf(&self) -> bool {
        &&& self.hashes_seen@.finite()
        &&& self.items@.len() == self.hashes_seen@.len()
    }

    pub fn new() -> (res: Self)
        ensures
            res.wf(),
            res.items() == Seq::<Seq<char>>::empty(),
            res.hashes() == Set::<u64>::empty(),
    {
        let res = TemplateRenderSet { items: Vec::new(), hashes_seen: BTreeSet::new() };
        assert(res.items() =~= Seq::<Seq<char>>::empty());
        res
    }

    /// Whether a template with the hash was inserted: one that need not be
    /// rendered again.
    pub fn contains(&self, hash: u64) -> (res: bool)
        ensures
            res == self.hashes().contains(hash),
    {
        broadcast use vstd::std_specs::btree::group_btree_axioms;
        self.hashes_seen.contains(&hash)
    }

    /// Inserts a rendered template, known by its hash, unless a template with
    /// the same hash was inserted before; says whether it was inserted.
    pub fn insert(&mut self, hash: u64, rendered: String) -> (res: bool)
        requires
            old(self).wf(),
        ensures
            final(self).wf(),
            res == !old(self).hashes().contains(hash),
            final(self).hashes() == old(self).hashes().insert(hash),
            res ==> final(self).items() == old(self).items().push(rendered@),
            !res ==> final(self).items() == old(self).items(),
    {
        let ghost before = self.items@;
        if self.hashes_seen.insert(hash) {
            self.items.push(rendered);
            proof {
                assert(self.items() =~= old(self).items().push(rendered@));
            }
            true
        } else {
            proof {
                assert(old(self).hashes().insert(hash) =~= old(self).hashes());
            }
            false
        }
    }

    /// The rendered templates, in the order they were inserted.
    pub fn into_items(self) -> (res: Vec<String>)
        ensures
            res@.map_values(|s: String| s@) == self.items(),
    {
        self.items
    }
}

} // verus!
