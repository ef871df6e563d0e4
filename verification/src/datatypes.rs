//! The frontend's own data shapes, converted from wire responses.
use vstd::prelude::*;

use crate::requests::PostResponse;
use crate::requests::UserResponse;

verus! {

/// A user as the frontend holds it.
#[derive(Debug, Clone)]
pub struct UserData {
    /// The user's key in the frontend's own numbering.
    pub id: i32,
    /// The unique login name.
    pub user_name: String,
    /// The name shown beside the user's contributions.
    pub display_name: String,
}

impl vstd::std_specs::convert::FromSpecImpl<UserResponse> for UserData {
    open spec fn obeys_from_spec() -> bool {
        true
    }

    open spec fn from_spec(t: UserResponse) -> UserData {
        UserData { id: t.id, user_name: t.user_name, display_name: t.display_name }
    }
}

impl From<UserResponse> for UserData {
    /// Takes a wire user into the frontend's shape, field for field.
    fn from(t: UserResponse) -> (r: UserData) {
        UserData { id: t.id, user_name: t.user_name, display_name: t.display_name }
    }
}

/// The fields a new post needs before the frontend fills in the rest.
#[derive(Clone, Debug, PartialEq, Default)]
pub struct MinimalNewPostData {
    /// The user writing the post.
    pub author_id: i32,
    /// The text of the post.
    pub content: String,
}

/// A post as the frontend holds it; replies are nested.
#[derive(Debug)]
pub struct PostData {
    /// The post's key.
    pub id: i32,
    /// The author.
    pub author: UserData,
    /// Seconds since the epoch when the post was created.
    pub created_date: i64,
    /// Seconds since the epoch of the last edit, absent when never edited.
    pub modified_date: Option<i64>,
    /// The text of the post.
    pub content: String,
    /// Whether a moderator hid the content.
    pub censored: bool,
    /// The replies to this post.
    pub children: Vec<PostData>,
}

/// Whether `d` is the frontend shape of the wire post `p`, replies
/// included.
pub open spec fn matches_response(d: PostData, p: PostResponse) -> bool
    decreases p,
{
    &&& d.id == p.id
    &&& d.author.id == p.author.id
    &&& d.author.user_name == p.author.user_name
    &&& d.author.display_name == p.author.display_name
    &&& d.created_date == p.created_date
    &&& d.modified_date == p.modified_date
    &&& d.content == p.content
    &&& d.censored == p.censored
    &&& d.children@.len() == p.children@.len()
    &&& forall|i: int|
        0 <= i < p.children@.len() ==> matches_response(
            #[trigger] d.children@[i],
            p.children@[i],
        )
}

impl PostData {
    /// Takes a wire post into the frontend's shape, replies included,
    /// field for field.
    pub fn from_response(response: &PostResponse) -> (r: PostData)
        ensures
            matches_response(r, *response),
        decreases *response,
    {
        let mut kids: Vec<PostData> = Vec::new();
        let mut i: usize = 0;
        let n = response.children.len();
        while i < n
            invariant
                i <= n,
                n == response.children@.len(),
                kids@.len() == i,
                forall|j: int|
                    0 <= j < i ==> matches_response(#[trigger] kids@[j], response.children@[j]),
            decreases n - i,
        {
            proof {
                assert(decreases_to!(*response => response.children@[i as int]));
            }
            kids.push(PostData::from_response(&response.children[i]));
            i += 1;
        }
        PostData {
            id: response.id,
            author: UserData {
                id: response.author.id,
                user_name: response.author.user_name.clone(),
                display_name: response.author.display_name.clone(),
            },
            created_date: response.created_date,
            modified_date: response.modified_date,
            content: response.content.clone(),
            censored: response.censored,
            children: kids,
        }
    }
}

impl vstd::std_specs::convert::FromSpecImpl<PostResponse> for PostData {
    open spec fn obeys_from_spec() -> bool {
        false
    }

    open spec fn from_spec(t: PostResponse) -> PostData {
        arbitrary()
    }
}

impl From<PostResponse> for PostData {
    /// Takes a wire post into the frontend's shape; the contract lives on
    /// `PostData::from_response`, which this forwards to.
    fn from(response: PostResponse) -> (r: PostData) {
        PostData::from_response(&response)
    }
}

} // verus!
