//! The context that code generation runs in.

use vstd::prelude::*;

use crate::text::owned;

verus! {

/// Context that the code generation is running in: the root directory of the
/// crate that bindings are generated for.
#[derive(Debug)]
pub struct UniffiContext {
    pub crate_root: String,
}

impl UniffiContext {
    /// The path to a binding-specific file, as the components to join in
    /// order: the crate root, `uniffi`, `bindings`, the binding's directory
    /// and the file.
    pub fn get_bindings_path(&self, binding_dir_name: &str, filename: &str) -> (res: Vec<String>)
        ensures
            res@.map_values(|s: String| s@) == seq![
                self.crate_root@,
                "uniffi"@,
                "bindings"@,
                binding_dir_name@,
                filename@,
            ],
    {
        let mut res: Vec<String> = Vec::new();
        res.push(self.crate_root.clone());
        res.push(owned("uniffi"));
        res.push(owned("bindings"));
        res.push(owned(binding_dir_name));
        res.push(owned(filename));
        assert(res@.map_values(|s: String| s@) =~= seq![
            self.crate_root@,
            "uniffi"@,
            "bindings"@,
            binding_dir_name@,
            filename@,
        ]);
        res
    }
}

} // verus!
