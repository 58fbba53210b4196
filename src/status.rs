//! Working-tree status flags, as the version-control layer reports them for
//! each path, and the two questions the workflow asks of a status listing.

use vstd::prelude::*;

verus! {

/// Status flag: the path is in the working tree but not tracked.
pub const WT_NEW: u32 = 128;

/// Status flag: the tracked file differs from the index in the working tree.
pub const WT_MODIFIED: u32 = 256;

/// Status flag: the path matches an ignore rule.
pub const IGNORED: u32 = 16384;

/// The flags that leave a tree clean: untracked and ignored paths are tolerated.
pub const TOLERATED: u32 = WT_NEW | IGNORED;

/// A path whose status shows any tracked change: an addition, modification,
/// deletion, rename or type change in the index or the working tree, or a conflict.
pub open spec fn entry_is_dirty(flags: u32) -> bool {
    flags & !TOLERATED != 0
}

/// A path whose status shows a working-tree modification of a tracked file.
pub open spec fn entry_is_modified(flags: u32) -> bool {
    flags & WT_MODIFIED != 0
}

/// No listed path shows a tracked change.
pub open spec fn tree_is_clean(statuses: Seq<u32>) -> bool {
    forall|i: int| 0 <= i < statuses.len() ==> !entry_is_dirty(#[trigger] statuses[i])
}

/// Some listed path shows a working-tree modification.
pub open spec fn shows_modification(statuses: Seq<u32>) -> bool {
    exists|i: int| 0 <= i < statuses.len() && entry_is_modified(#[trigger] statuses[i])
}

/// Whether a status listing leaves the tree clean.
pub fn is_clean(statuses: &Vec<u32>) -> (r: bool)
    ensures
        r == tree_is_clean(statuses@),
{
    let mut i: usize = 0;
    while i < statuses.len()
        invariant
            0 <= i <= statuses@.len(),
            forall|j: int| 0 <= j < i ==> !entry_is_dirty(#[trigger] statuses@[j]),
        decreases statuses@.len() - i,
    {
        if statuses[i] & !TOLERATED != 0 {
            return false;
        }
        i = i + 1;
    }
    true
}

/// Whether a status listing shows at least one modified tracked file.
pub fn has_modification(statuses: &Vec<u32>) -> (r: bool)
    ensures
        r == shows_modification(statuses@),
{
    let mut i: usize = 0;
    while i < statuses.len()
        invariant
            0 <= i <= statuses@.len(),
            forall|j: int| 0 <= j < i ==> !entry_is_modified(#[trigger] statuses@[j]),
        decreases statuses@.len() - i,
    {
        if statuses[i] & WT_MODIFIED != 0 {
            return true;
        }
        i = i + 1;
    }
    false
}

} // verus!
