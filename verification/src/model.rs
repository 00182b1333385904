//! Plain data describing a fetched issue. Values of these types are produced
//! by the data-source adapter outside the library and owned by the
//! application core afterwards; the core never mutates an issue in place.

use vstd::prelude::*;

verus! {

/// The handle of the account that opened an issue or wrote a comment.
pub struct Author {
    pub login: String,
}

/// A label attached to an issue: a name and a color given as a 6-hex-digit
/// RGB string (as delivered by the tracker, possibly malformed).
pub struct Label {
    pub name: String,
    pub color: String,
}

/// One comment on an issue. The adapter may leave `author` and `body` empty
/// when it resolves only the comment count; the count of comments is what the
/// header and preview rely on.
pub struct Comment {
    pub author: String,
    pub body: String,
}

/// An issue as fetched from the tracker: immutable once constructed.
pub struct Issue {
    pub number: u64,
    pub title: String,
    pub body: Option<String>,
    pub author: Author,
    pub created_at: String,
    pub labels: Vec<Label>,
    pub comments: Vec<Comment>,
}

} // verus!
