//! Tracked changes and comments shown in the review panel.
use vstd::prelude::*;

verus! {

/// Kind of a review item.
#[derive(PartialEq, Eq, Structural, Clone, Copy, Debug)]
pub enum ReviewKind {
    Insertion,
    Deletion,
    Comment,
}

/// One tracked change or comment.
pub struct ReviewItem {
    pub kind: ReviewKind,
    pub author: String,
    pub date: String,
    /// Inserted / deleted text, or the comment body.
    pub text: String,
    /// The passage the item is anchored to (may be empty).
    pub context: String,
}

} // verus!
