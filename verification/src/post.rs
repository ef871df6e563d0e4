//! The posts table: the messages inside a thread.
use vstd::prelude::*;

use crate::error::Error;
use crate::store::Row;
use crate::store::Store;
use crate::store::has_key;
use crate::store::find_row;
use crate::store::lemma_row_with;
use crate::store::row_with;
use crate::user::User;

verus! {

/// The store's representation of a post.
#[derive(Debug)]
pub struct Post {
    /// The serial primary key.
    pub id: i32,
    /// The thread the post belongs to.
    pub thread_id: i32,
    /// The user who wrote the post.
    pub author_uuid: u128,
    /// Seconds since the epoch when the post was created.
    pub created_date: i64,
    /// The text of the post.
    pub content: String,
    /// Whether a moderator hid the content.
    pub censored: bool,
}

impl Clone for Post {
    /// A clone is the same post, field for field.
    fn clone(&self) -> (r: Self)
        ensures
            r == *self,
    {
        Post {
            id: self.id,
            thread_id: self.thread_id,
            author_uuid: self.author_uuid,
            created_date: self.created_date,
            content: self.content.clone(),
            censored: self.censored,
        }
    }
}

impl Row for Post {
    open spec fn row_key(&self) -> u128 {
        self.id as u128
    }

    fn key(&self) -> u128 {
        self.id as u128
    }
}

/// A post to be inserted: everything but the server-assigned key.
#[derive(Debug, Clone)]
pub struct NewPost {
    /// The thread the post belongs to.
    pub thread_id: i32,
    /// The user who writes the post.
    pub author_uuid: u128,
    /// Seconds since the epoch when the post is created.
    pub created_date: i64,
    /// The text of the post.
    pub content: String,
}

/// The row that inserting `new` under the serial key `id` stores; a new
/// post starts uncensored.
pub open spec fn created_post(new: NewPost, id: i32) -> Post {
    Post {
        id,
        thread_id: new.thread_id,
        author_uuid: new.author_uuid,
        created_date: new.created_date,
        content: new.content,
        censored: false,
    }
}

/// A post together with its author, without its replies.
#[derive(Debug, Clone)]
pub struct ChildlessPostData {
    /// The post itself.
    pub post: Post,
    /// The post's author.
    pub user: User,
}

/// A post together with its author and its replies.
#[derive(Debug)]
pub struct PostData {
    /// The post itself.
    pub post: Post,
    /// The post's author.
    pub user: User,
    /// The replies to the post.
    pub children: Vec<PostData>,
}

impl PostData {
    /// A post without replies becomes one whose reply list is empty.
    pub fn from_childless(t: ChildlessPostData) -> (r: PostData)
        ensures
            r.post == t.post,
            r.user == t.user,
            r.children@.len() == 0,
    {
        PostData { post: t.post, user: t.user, children: Vec::new() }
    }
}

impl Post {
    /// Inserts a post and fetches its author in the same call. The
    /// thread and the author must both exist, or the insert violates a
    /// foreign-key relation.
    pub fn create_and_get_user(new: NewPost, store: &mut Store) -> (r: Result<
        ChildlessPostData,
        Error,
    >)
        requires
            old(store).wf(),
        ensures
            final(store).wf(),
            ({
                let thread_ok = new.thread_id >= 0 && has_key(
                    old(store).threads@,
                    new.thread_id as u128,
                );
                let author_ok = has_key(old(store).users@, new.author_uuid);
                let id_ok = old(store).next_post_id < i32::MAX;
                if !thread_ok || !author_ok {
                    r == Err::<ChildlessPostData, Error>(Error::ConstraintViolation) && *final(store) == *old(store)
                } else if !id_ok {
                    r == Err::<ChildlessPostData, Error>(Error::Internal) && *final(store) == *old(store)
                } else {
                    &&& r matches Ok(d)
                    &&& (r matches Ok(d) ==> {
                        &&& d.post == created_post(new, old(store).next_post_id)
                        &&& d.user == row_with(old(store).users@, new.author_uuid)
                        &&& final(store).posts@ == old(store).posts@.push(d.post)
                        &&& final(store).next_post_id == old(store).next_post_id + 1
                        &&& final(store).users@ == old(store).users@
                        &&& final(store).articles@ == old(store).articles@
                        &&& final(store).forums@ == old(store).forums@
                        &&& final(store).threads@ == old(store).threads@
                        &&& final(store).chats@ == old(store).chats@
                        &&& final(store).messages@ == old(store).messages@
                        &&& final(store).next_forum_id == old(store).next_forum_id
                        &&& final(store).next_thread_id == old(store).next_thread_id
                    })
                }
            }),
    {
        if new.thread_id < 0 {
            return Err(Error::ConstraintViolation);
        }
        if find_row(&store.threads, new.thread_id as u128).is_none() {
            return Err(Error::ConstraintViolation);
        }
        let author_idx = match find_row(&store.users, new.author_uuid) {
            Some(i) => i,
            None => {
                return Err(Error::ConstraintViolation);
            },
        };
        if store.next_post_id == i32::MAX {
            return Err(Error::Internal);
        }
        proof {
            lemma_row_with(store.users@, new.author_uuid, author_idx as int);
            let ti = choose|ti: int|
                0 <= ti < store.threads@.len() && store.threads@[ti].row_key() == new.thread_id
                    as u128;
            assert(store.threads@[ti].id as u128 == new.thread_id as u128);
            assert(1 <= new.thread_id);
        }
        let user = store.users[author_idx].clone();
        let id = store.next_post_id;
        store.next_post_id = id + 1;
        let row = Post {
            id,
            thread_id: new.thread_id,
            author_uuid: new.author_uuid,
            created_date: new.created_date,
            content: new.content,
            censored: false,
        };
        let post = row.clone();
        store.posts.push(row);
        proof {
            let posts = store.posts@;
            assert forall|i: int, j: int|
                0 <= i < j < posts.len() implies posts[i].row_key() != posts[j].row_key() by {
                assert(posts[i].id != posts[j].id);
            }
        }
        Ok(ChildlessPostData { post, user })
    }
}

} // verus!
