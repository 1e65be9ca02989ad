//! Validation of user comments.
//!
//! A comment arrives as a record of three fields: who wrote it, what it says
//! and when it was written. The record is acceptable when it could be read at
//! all and both its author and its content are present. Every rejection is
//! explained by exactly one diagnostic message; an accepted comment produces
//! none.
//!
//! Reading the record out of its textual payload and delivering the
//! diagnostics to a console are the caller's business. The caller hands in
//! what its reader produced, a record or a description of why there is none,
//! together with a log to which diagnostics are appended.

pub mod comment;
pub mod validate;

pub use comment::Comment;
pub use comment::CommentView;
pub use validate::validate_comment;
