use vstd::prelude::*;

verus! {

/// What happened to the entry that a change describes.
#[derive(Debug, Clone, Copy, PartialEq, Eq, Structural)]
pub enum ChangeType {
    Added,
    Modified,
    Deleted,
}

} // verus!
