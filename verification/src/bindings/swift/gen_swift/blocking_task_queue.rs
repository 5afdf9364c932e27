//! The Swift code type of the blocking task queue.

use vstd::prelude::*;

use super::CodeType;
use crate::text::owned;

verus! {

/// The Swift code type of a blocking task queue: on Swift, a `DispatchQueue`.
pub struct BlockingTaskQueueCodeType;

impl CodeType for BlockingTaskQueueCodeType {
    open spec fn label(&self) -> Seq<char> {
        "DispatchQueue"@
    }

    fn type_label(&self) -> (res: String)
        ensures
            res@ == "DispatchQueue"@,
    {
        // On Swift, we use a DispatchQueue for BlockingTaskQueue
        owned("DispatchQueue")
    }

    fn canonical_name(&self) -> (res: String)
        ensures
            res@ == "BlockingTaskQueue"@,
    {
        owned("BlockingTaskQueue")
    }
}

} // verus!
