//! The validator: from what the reader produced to a verdict and a log entry.

use crate::comment::{Comment, CommentView};
use vstd::prelude::*;
use vstd::string::StringExecFns;

verus! {

/// The diagnostic for a record that was read but lacks its author or its
/// content. It does not say which of the two was missing.
pub const EMPTY_FIELD_MESSAGE: &'static str = "Validation failed: Empty author or content";

/// What the diagnostic for an unreadable payload begins with. The reader's
/// own description of the failure follows it.
pub const INVALID_JSON_PREFIX: &'static str = "Invalid JSON: ";

/// The mathematical value of what the reader produced: the record's view, or
/// the characters of the reader's error description.
pub open spec fn parsed_view(parsed: Result<Comment, String>) -> Result<CommentView, Seq<char>> {
    match parsed {
        Ok(comment) => Ok(comment@),
        Err(description) => Err(description@),
    }
}

/// A comment is accepted exactly when a record was read and that record
/// is valid.
pub open spec fn accepts(parsed: Result<CommentView, Seq<char>>) -> bool {
    match parsed {
        Ok(comment) => comment.is_valid(),
        Err(_) => false,
    }
}

/// The diagnostics that one validation emits, in order: none for an accepted
/// comment, the fixed message for a record with an empty required field, and
/// the reader's description behind its prefix for an unreadable payload.
pub open spec fn diagnostics(parsed: Result<CommentView, Seq<char>>) -> Seq<Seq<char>> {
    match parsed {
        Ok(comment) => if comment.is_valid() {
            Seq::empty()
        } else {
            seq![EMPTY_FIELD_MESSAGE@]
        },
        Err(description) => seq![INVALID_JSON_PREFIX@ + description],
    }
}

/// Decides whether a comment is acceptable and appends to `log` the
/// diagnostic that explains a rejection.
///
/// `parsed` is what reading the payload produced: the record, or the reader's
/// description of why the payload could not be read as one. The verdict
/// depends on `parsed` alone. The log keeps what it held and grows by exactly
/// the entries of [`diagnostics`].
pub fn validate_comment(parsed: Result<Comment, String>, log: &mut Vec<String>) -> (accepted: bool)
    ensures
        accepted == accepts(parsed_view(parsed)),
        final(log).deep_view() == old(log).deep_view() + diagnostics(parsed_view(parsed)),
{
    match parsed {
        Ok(comment) => {
            if comment.is_valid() {
                assert(log.deep_view() =~= old(log).deep_view() + Seq::<Seq<char>>::empty());
                true
            } else {
                log.push(EMPTY_FIELD_MESSAGE.to_owned());
                assert(log.deep_view() =~= old(log).deep_view() + seq![EMPTY_FIELD_MESSAGE@]);
                false
            }
        },
        Err(description) => {
            let mut message = INVALID_JSON_PREFIX.to_owned();
            message.append(description.as_str());
            log.push(message);
            assert(log.deep_view() =~= old(log).deep_view() + seq![
                INVALID_JSON_PREFIX@ + description@,
            ]);
            false
        },
    }
}

/// Every rejection is explained exactly once, and an acceptance never is:
/// a validation emits one diagnostic when it rejects and none when it
/// accepts.
pub proof fn rejection_has_one_diagnostic(parsed: Result<CommentView, Seq<char>>)
    ensures
        accepts(parsed) ==> diagnostics(parsed).len() == 0,
        !accepts(parsed) ==> diagnostics(parsed).len() == 1,
{
}

/// The timestamp is carried but never inspected: two records with the same
/// author and the same content get the same verdict and the same
/// diagnostics, whatever their timestamps are.
pub proof fn timestamp_is_not_inspected(first: CommentView, second: CommentView)
    requires
        first.author == second.author,
        first.content == second.content,
    ensures
        accepts(Ok(first)) == accepts(Ok(second)),
        diagnostics(Ok(first)) == diagnostics(Ok(second)),
{
}

/// Validation keeps no memory between calls: two inputs with the same
/// mathematical value get the same verdict and the same diagnostics,
/// whichever is validated first and whatever the log already holds.
pub proof fn validation_is_repeatable(first: Result<Comment, String>, second: Result<Comment, String>)
    requires
        parsed_view(first) == parsed_view(second),
    ensures
        accepts(parsed_view(first)) == accepts(parsed_view(second)),
        diagnostics(parsed_view(first)) == diagnostics(parsed_view(second)),
{
}

} // verus!
