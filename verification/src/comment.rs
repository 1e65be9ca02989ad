//! The comment record and its mathematical value.

use vstd::prelude::*;

verus! {

/// A comment as it was submitted.
pub struct Comment {
    /// Display name or identifier of whoever wrote the comment.
    pub author: String,
    /// The body of the comment.
    pub content: String,
    /// When the comment was written. An opaque number: it is carried along
    /// and never interpreted.
    pub timestamp: u64,
}

/// The mathematical value of a [`Comment`]: its two texts as sequences of
/// characters, and its timestamp.
pub struct CommentView {
    pub author: Seq<char>,
    pub content: Seq<char>,
    pub timestamp: u64,
}

impl View for Comment {
    type V = CommentView;

    open spec fn view(&self) -> CommentView {
        CommentView { author: self.author@, content: self.content@, timestamp: self.timestamp }
    }
}

impl CommentView {
    /// A comment is valid when its author and its content are both
    /// non-empty. Nothing is asked of the timestamp.
    pub open spec fn is_valid(self) -> bool {
        self.author.len() > 0 && self.content.len() > 0
    }
}

impl Comment {
    /// Tells whether both the author and the content are present.
    pub fn is_valid(&self) -> (valid: bool)
        ensures
            valid == self@.is_valid(),
    {
        !self.author.as_str().is_empty() && !self.content.as_str().is_empty()
    }
}

} // verus!
