use vstd::prelude::*;

verus! {

/// A comment to add to an issue.
pub struct CreateCommentRequest {
    pub body: String,
}

/// The comment added.
pub struct CreateCommentResponse {
    pub comment_id: u128,
    /// Microseconds since the Unix epoch.
    pub created_at: i64,
}

/// A comment of an issue, as shown.
pub struct CommentItem {
    pub comment_id: u128,
    pub author_id: Option<u128>,
    pub author_name: Option<String>,
    pub body: String,
    /// Microseconds since the Unix epoch.
    pub created_at: i64,
}

/// The comments of an issue.
pub struct ListCommentsResponse {
    pub items: Vec<CommentItem>,
}

} // verus!
