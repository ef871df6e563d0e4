//! Request and response bodies exchanged with the frontend: plain
//! field-named records.
use vstd::prelude::*;

verus! {

/// A user, as sent over the wire to the frontend.
#[derive(Debug, Clone)]
pub struct UserResponse {
    /// The user's unique login name.
    pub user_name: String,
    /// The name shown beside the user's contributions.
    pub display_name: String,
    /// The user's key in the frontend's own numbering.
    pub id: i32,
}

/// The body of a request to create a user.
#[derive(Debug, Clone)]
pub struct NewUserRequest {
    /// The unique login name the new user asks for.
    pub user_name: String,
    /// The name to show beside the user's contributions.
    pub display_name: String,
    /// The credential, before the authentication collaborator hashes it.
    pub plaintext_password: String,
}

/// The body of a request to change a user's display name.
#[derive(Debug, Clone)]
pub struct UpdateDisplayNameRequest {
    /// The login name of the user to change.
    pub user_name: String,
    /// The display name to change to.
    pub new_display_name: String,
}

/// A post, as sent over the wire to the frontend; replies are nested.
#[derive(Debug)]
pub struct PostResponse {
    /// The post's key.
    pub id: i32,
    /// The author, as the frontend shows it.
    pub author: UserResponse,
    /// Seconds since the epoch when the post was created.
    pub created_date: i64,
    /// Seconds since the epoch of the last edit, absent when never edited.
    pub modified_date: Option<i64>,
    /// The text of the post.
    pub content: String,
    /// Whether a moderator hid the content.
    pub censored: bool,
    /// The replies to this post.
    pub children: Vec<PostResponse>,
}

} // verus!
