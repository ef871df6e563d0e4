//! The threads table: moderation flags, listing by forum, and creation
//! together with an initial post.
use vstd::prelude::*;

use crate::error::Error;
use crate::post::ChildlessPostData;
use crate::post::NewPost;
use crate::post::Post;
use crate::post::PostData;
use crate::post::created_post;
use crate::sorting::SortPair;
use crate::sorting::lemma_sort_pairs_ensures;
use crate::sorting::sort_pairs;
use crate::sorting::sort_pairs_exec;
use crate::store::Row;
use crate::store::Store;
use crate::store::find_row;
use crate::store::has_key;
use crate::store::key_idx;
use crate::store::lemma_filter_element;
use crate::store::lemma_filter_take_step;
use crate::store::lemma_row_with;
use crate::store::row_with;
use crate::user::User;

verus! {

/// The store's representation of a thread.
#[derive(Debug)]
pub struct Thread {
    /// The serial primary key.
    pub id: i32,
    /// The forum the thread belongs to.
    pub forum_id: i32,
    /// The user who created the thread.
    pub author_uuid: u128,
    /// Seconds since the epoch when the thread was created; recent
    /// listings order by it.
    pub created_date: i64,
    /// A locked thread cannot be edited, nor can any of its posts.
    pub locked: bool,
    /// An archived thread is hidden from the usual listings.
    pub archived: bool,
    /// The title, shown in the forum and at the top of the thread.
    pub title: String,
}

impl Clone for Thread {
    /// A clone is the same thread, field for field.
    fn clone(&self) -> (r: Self)
        ensures
            r == *self,
    {
        Thread {
            id: self.id,
            forum_id: self.forum_id,
            author_uuid: self.author_uuid,
            created_date: self.created_date,
            locked: self.locked,
            archived: self.archived,
            title: self.title.clone(),
        }
    }
}

impl Row for Thread {
    open spec fn row_key(&self) -> u128 {
        self.id as u128
    }

    fn key(&self) -> u128 {
        self.id as u128
    }
}

/// A thread to be inserted: everything but the server-assigned key.
#[derive(Debug, Clone)]
pub struct NewThread {
    /// The forum the thread belongs to.
    pub forum_id: i32,
    /// The user who creates the thread.
    pub author_uuid: u128,
    /// Seconds since the epoch when the thread is created.
    pub created_date: i64,
    /// Whether the thread starts locked.
    pub locked: bool,
    /// Whether the thread starts archived.
    pub archived: bool,
    /// The title.
    pub title: String,
}

/// A thread with its initial post and its author.
#[derive(Debug)]
pub struct ThreadData {
    /// The thread itself.
    pub thread: Thread,
    /// The thread's initial post.
    pub post: PostData,
    /// The thread's author.
    pub user: User,
}

/// A thread with its author: what a forum listing shows.
#[derive(Debug, Clone)]
pub struct MinimalThreadData {
    /// The thread itself.
    pub thread: Thread,
    /// The thread's author.
    pub user: User,
}

/// The row that inserting `new` under the serial key `id` stores.
pub open spec fn created_thread(new: NewThread, id: i32) -> Thread {
    Thread {
        id,
        forum_id: new.forum_id,
        author_uuid: new.author_uuid,
        created_date: new.created_date,
        locked: new.locked,
        archived: new.archived,
        title: new.title,
    }
}

/// The thread with its moderation flags changed: a present flag is
/// applied, an absent one left untouched.
pub open spec fn with_thread_flags(t: Thread, locked: Option<bool>, archived: Option<bool>)
    -> Thread {
    Thread {
        locked: if locked is Some {
            locked.unwrap()
        } else {
            t.locked
        },
        archived: if archived is Some {
            archived.unwrap()
        } else {
            t.archived
        },
        ..t
    }
}

/// The live (not archived) threads of one forum, in table order.
pub open spec fn live_threads_in(s: Store, forum_id: i32) -> Seq<Thread> {
    s.threads@.filter(|t: Thread| t.forum_id == forum_id && !t.archived)
}

/// The live threads of one forum tagged for sorting: creation timestamp
/// as the key, table position as the tie-break.
pub open spec fn thread_pairs(ts: Seq<Thread>) -> Seq<SortPair> {
    Seq::new(ts.len(), |i: int| (ts[i].created_date, i as usize))
}

/// The order in which a forum's listing presents its live threads.
pub open spec fn thread_order(s: Store, forum_id: i32) -> Seq<SortPair> {
    sort_pairs(thread_pairs(live_threads_in(s, forum_id)))
}

/// The full listing of one forum: every live thread joined with its
/// author, ordered by creation timestamp with ties in table order.
pub open spec fn thread_data_seq(s: Store, forum_id: i32) -> Seq<MinimalThreadData> {
    let live = live_threads_in(s, forum_id);
    let order = thread_order(s, forum_id);
    Seq::new(
        order.len(),
        |i: int|
            MinimalThreadData {
                thread: live[order[i].1 as int],
                user: row_with(s.users@, live[order[i].1 as int].author_uuid),
            },
    )
}

impl Thread {
    /// Inserts a thread. The forum and the author must both exist, or
    /// the insert violates a foreign-key relation.
    pub fn create(new: NewThread, store: &mut Store) -> (r: Result<Thread, Error>)
        requires
            old(store).wf(),
        ensures
            final(store).wf(),
            ({
                let forum_ok = new.forum_id >= 0 && has_key(
                    old(store).forums@,
                    new.forum_id as u128,
                );
                let author_ok = has_key(old(store).users@, new.author_uuid);
                if !forum_ok || !author_ok {
                    r == Err::<Thread, Error>(Error::ConstraintViolation) && *final(store) == *old(store)
                } else if old(store).next_thread_id == i32::MAX {
                    r == Err::<Thread, Error>(Error::Internal) && *final(store) == *old(store)
                } else {
                    &&& r == Ok::<Thread, Error>(created_thread(new, old(store).next_thread_id))
                    &&& final(store).threads@ == old(store).threads@.push(
                        created_thread(new, old(store).next_thread_id),
                    )
                    &&& final(store).next_thread_id == old(store).next_thread_id + 1
                    &&& final(store).users@ == old(store).users@
                    &&& final(store).articles@ == old(store).articles@
                    &&& final(store).forums@ == old(store).forums@
                    &&& final(store).posts@ == old(store).posts@
                    &&& final(store).chats@ == old(store).chats@
                    &&& final(store).messages@ == old(store).messages@
                    &&& final(store).next_forum_id == old(store).next_forum_id
                    &&& final(store).next_post_id == old(store).next_post_id
                }
            }),
    {
        if new.forum_id < 0 {
            return Err(Error::ConstraintViolation);
        }
        if find_row(&store.forums, new.forum_id as u128).is_none() {
            return Err(Error::ConstraintViolation);
        }
        if find_row(&store.users, new.author_uuid).is_none() {
            return Err(Error::ConstraintViolation);
        }
        if store.next_thread_id == i32::MAX {
            return Err(Error::Internal);
        }
        proof {
            let fi = choose|fi: int|
                0 <= fi < store.forums@.len() && store.forums@[fi].row_key() == new.forum_id
                    as u128;
            assert(store.forums@[fi].id as u128 == new.forum_id as u128);
            assert(1 <= new.forum_id);
        }
        let id = store.next_thread_id;
        store.next_thread_id = id + 1;
        let row = Thread {
            id,
            forum_id: new.forum_id,
            author_uuid: new.author_uuid,
            created_date: new.created_date,
            locked: new.locked,
            archived: new.archived,
            title: new.title,
        };
        let copy = row.clone();
        store.threads.push(row);
        proof {
            let threads = store.threads@;
            assert forall|i: int, j: int|
                0 <= i < j < threads.len() implies threads[i].row_key()
                != threads[j].row_key() by {
                assert(threads[i].id != threads[j].id);
            }
            assert forall|w: u128| has_key(old(store).threads@, w) implies has_key(
                threads,
                w,
            ) by {
                crate::store::lemma_has_key_push(old(store).threads@, threads.last(), w);
                assert(old(store).threads@.push(threads.last()) =~= threads);
            }
        }
        Ok(copy)
    }

    /// The shared flag-update step behind locking, unlocking and
    /// archiving: applies the present flags and returns the thread with
    /// its author.
    fn set_thread_flags(
        thread_id: i32,
        set_locked: Option<bool>,
        set_archived: Option<bool>,
        store: &mut Store,
    ) -> (r: Result<MinimalThreadData, Error>)
        requires
            old(store).wf(),
        ensures
            final(store).wf(),
            thread_id < 0 || !has_key(old(store).threads@, thread_id as u128) ==> r == Err::<
                MinimalThreadData,
                Error,
            >(Error::NotFound) && *final(store) == *old(store),
            thread_id >= 0 && has_key(old(store).threads@, thread_id as u128) ==> {
                let k = key_idx(old(store).threads@, thread_id as u128);
                let updated = with_thread_flags(old(store).threads@[k], set_locked, set_archived);
                &&& r == Ok::<MinimalThreadData, Error>(
                    MinimalThreadData {
                        thread: updated,
                        user: row_with(old(store).users@, updated.author_uuid),
                    },
                )
                &&& final(store).threads@ == old(store).threads@.update(k, updated)
                &&& final(store).users@ == old(store).users@
                &&& final(store).articles@ == old(store).articles@
                &&& final(store).forums@ == old(store).forums@
                &&& final(store).posts@ == old(store).posts@
                &&& final(store).chats@ == old(store).chats@
                &&& final(store).messages@ == old(store).messages@
                &&& final(store).next_forum_id == old(store).next_forum_id
                &&& final(store).next_thread_id == old(store).next_thread_id
                &&& final(store).next_post_id == old(store).next_post_id
            },
    {
        if thread_id < 0 {
            return Err(Error::NotFound);
        }
        let i = match find_row(&store.threads, thread_id as u128) {
            Some(i) => i,
            None => {
                return Err(Error::NotFound);
            },
        };
        proof {
            lemma_row_with(store.threads@, thread_id as u128, i as int);
        }
        let mut row = store.threads.remove(i);
        match set_locked {
            Some(b) => {
                row.locked = b;
            },
            None => {},
        }
        match set_archived {
            Some(b) => {
                row.archived = b;
            },
            None => {},
        }
        let updated = row.clone();
        store.threads.insert(i, row);
        proof {
            assert(store.threads@ =~= old(store).threads@.update(
                i as int,
                with_thread_flags(old(store).threads@[i as int], set_locked, set_archived),
            ));
            let threads = store.threads@;
            assert forall|x: int, y: int|
                0 <= x < y < threads.len() implies threads[x].row_key()
                != threads[y].row_key() by {
                assert(old(store).threads@[x].row_key() != old(store).threads@[y].row_key());
            }
            assert forall|x: int| 0 <= x < threads.len() implies 1 <= (
            #[trigger] threads[x]).forum_id && has_key(store.forums@, threads[x].forum_id as u128)
                && has_key(store.users@, threads[x].author_uuid) && 1 <= threads[x].id
                < store.next_thread_id by {
                assert(1 <= old(store).threads@[x].forum_id);
                assert(has_key(old(store).forums@, old(store).threads@[x].forum_id as u128));
                assert(has_key(old(store).users@, old(store).threads@[x].author_uuid));
            }
            assert forall|x: int| 0 <= x < store.posts@.len() implies has_key(
                threads,
                (#[trigger] store.posts@[x]).thread_id as u128,
            ) by {
                let w = choose|w: int|
                    0 <= w < old(store).threads@.len() && old(store).threads@[w].row_key()
                        == store.posts@[x].thread_id as u128;
                assert(threads[w].row_key() == old(store).threads@[w].row_key());
            }
        }
        proof {
            assert(old(store).threads@[i as int].author_uuid == updated.author_uuid);
            assert(has_key(store.users@, updated.author_uuid));
        }
        let user_idx = match find_row(&store.users, updated.author_uuid) {
            Some(ui) => ui,
            None => {
                return Err(Error::Internal);
            },
        };
        proof {
            lemma_row_with(store.users@, updated.author_uuid, user_idx as int);
        }
        let user = store.users[user_idx].clone();
        Ok(MinimalThreadData { thread: updated, user })
    }

    /// Locks the thread, preventing posting and editing.
    pub fn lock_thread(thread_id: i32, store: &mut Store) -> (r: Result<MinimalThreadData, Error>)
        requires
            old(store).wf(),
        ensures
            final(store).wf(),
            thread_id < 0 || !has_key(old(store).threads@, thread_id as u128) ==> r == Err::<
                MinimalThreadData,
                Error,
            >(Error::NotFound) && *final(store) == *old(store),
            thread_id >= 0 && has_key(old(store).threads@, thread_id as u128) ==> {
                let k = key_idx(old(store).threads@, thread_id as u128);
                let updated = with_thread_flags(old(store).threads@[k], Some(true), None);
                &&& r == Ok::<MinimalThreadData, Error>(
                    MinimalThreadData {
                        thread: updated,
                        user: row_with(old(store).users@, updated.author_uuid),
                    },
                )
                &&& updated.locked
                &&& final(store).threads@ == old(store).threads@.update(k, updated)
                &&& final(store).users@ == old(store).users@
            },
    {
        Thread::set_thread_flags(thread_id, Some(true), None, store)
    }

    /// Unlocks the thread, allowing posting and editing again.
    pub fn unlock_thread(thread_id: i32, store: &mut Store) -> (r: Result<
        MinimalThreadData,
        Error,
    >)
        requires
            old(store).wf(),
        ensures
            final(store).wf(),
            thread_id < 0 || !has_key(old(store).threads@, thread_id as u128) ==> r == Err::<
                MinimalThreadData,
                Error,
            >(Error::NotFound) && *final(store) == *old(store),
            thread_id >= 0 && has_key(old(store).threads@, thread_id as u128) ==> {
                let k = key_idx(old(store).threads@, thread_id as u128);
                let updated = with_thread_flags(old(store).threads@[k], Some(false), None);
                &&& r == Ok::<MinimalThreadData, Error>(
                    MinimalThreadData {
                        thread: updated,
                        user: row_with(old(store).users@, updated.author_uuid),
                    },
                )
                &&& !updated.locked
                &&& final(store).threads@ == old(store).threads@.update(k, updated)
                &&& final(store).users@ == old(store).users@
            },
    {
        Thread::set_thread_flags(thread_id, Some(false), None, store)
    }

    /// Archives the thread, hiding it from the usual listings.
    pub fn archive_thread(thread_id: i32, store: &mut Store) -> (r: Result<
        MinimalThreadData,
        Error,
    >)
        requires
            old(store).wf(),
        ensures
            final(store).wf(),
            thread_id < 0 || !has_key(old(store).threads@, thread_id as u128) ==> r == Err::<
                MinimalThreadData,
                Error,
            >(Error::NotFound) && *final(store) == *old(store),
            thread_id >= 0 && has_key(old(store).threads@, thread_id as u128) ==> {
                let k = key_idx(old(store).threads@, thread_id as u128);
                let updated = with_thread_flags(old(store).threads@[k], None, Some(true));
                &&& r == Ok::<MinimalThreadData, Error>(
                    MinimalThreadData {
                        thread: updated,
                        user: row_with(old(store).users@, updated.author_uuid),
                    },
                )
                &&& updated.archived
                &&& final(store).threads@ == old(store).threads@.update(k, updated)
                &&& final(store).users@ == old(store).users@
            },
    {
        Thread::set_thread_flags(thread_id, None, Some(true), store)
    }

    /// Lists the most recent live threads of a forum, each joined with
    /// its author, ordered by creation timestamp with ties in table
    /// order, at most `num_threads` of them. Archived threads are not
    /// included.
    pub fn get_threads_in_forum(requested_forum_id: i32, num_threads: i64, store: &Store) -> (r:
        Result<Vec<MinimalThreadData>, Error>)
        requires
            store.wf(),
        ensures
            requested_forum_id < 0 || !has_key(store.forums@, requested_forum_id as u128) ==> r
                == Err::<Vec<MinimalThreadData>, Error>(Error::NotFound),
            num_threads < 0 && requested_forum_id >= 0 && has_key(
                store.forums@,
                requested_forum_id as u128,
            ) ==> r == Err::<Vec<MinimalThreadData>, Error>(Error::BadRequest),
            requested_forum_id >= 0 && num_threads >= 0 && has_key(
                store.forums@,
                requested_forum_id as u128,
            ) ==> (r matches Ok(v) && {
                let full = thread_data_seq(*store, requested_forum_id);
                v@ == if full.len() <= num_threads {
                    full
                } else {
                    full.take(num_threads as int)
                }
            }),
    {
        if requested_forum_id < 0 {
            return Err(Error::NotFound);
        }
        if find_row(&store.forums, requested_forum_id as u128).is_none() {
            return Err(Error::NotFound);
        }
        if num_threads < 0 {
            return Err(Error::BadRequest);
        }
        let mut live: Vec<Thread> = Vec::new();
        let mut i: usize = 0;
        while i < store.threads.len()
            invariant
                i <= store.threads@.len(),
                live@ == store.threads@.take(i as int).filter(
                    |t: Thread| t.forum_id == requested_forum_id && !t.archived,
                ),
            decreases store.threads@.len() - i,
        {
            proof {
                lemma_filter_take_step(
                    store.threads@,
                    i as int,
                    |t: Thread| t.forum_id == requested_forum_id && !t.archived,
                );
            }
            let t = &store.threads[i];
            if t.forum_id == requested_forum_id && !t.archived {
                live.push(t.clone());
            }
            i += 1;
        }
        proof {
            assert(store.threads@.take(store.threads@.len() as int) =~= store.threads@);
            assert(live@ == live_threads_in(*store, requested_forum_id));
        }
        let mut pairs: Vec<SortPair> = Vec::new();
        let mut j: usize = 0;
        while j < live.len()
            invariant
                j <= live@.len(),
                pairs@ == thread_pairs(live@).take(j as int),
            decreases live@.len() - j,
        {
            pairs.push((live[j].created_date, j));
            proof {
                assert(pairs@ =~= thread_pairs(live@).take(j + 1));
            }
            j += 1;
        }
        proof {
            assert(pairs@ =~= thread_pairs(live@));
        }
        let order = sort_pairs_exec(&pairs);
        proof {
            lemma_sort_pairs_ensures(pairs@);
        }
        let mut data: Vec<MinimalThreadData> = Vec::new();
        let mut k: usize = 0;
        while k < order.len()
            invariant
                k <= order@.len(),
                store.wf(),
                live@ == live_threads_in(*store, requested_forum_id),
                pairs@ == thread_pairs(live@),
                order@ == thread_order(*store, requested_forum_id),
                data@ == thread_data_seq(*store, requested_forum_id).take(k as int),
            decreases order@.len() - k,
        {
            proof {
                lemma_sort_pairs_ensures(pairs@);
                assert(pairs@.contains(order@[k as int]));
                let w = choose|w: int| 0 <= w < pairs@.len() && pairs@[w] == order@[k as int];
                assert(order@[k as int].1 == w as usize);
                lemma_filter_element(
                    store.threads@,
                    |t: Thread| t.forum_id == requested_forum_id && !t.archived,
                    w,
                );
            }
            let idx = order[k].1;
            let thread = live[idx].clone();
            let user = match find_row(&store.users, thread.author_uuid) {
                Some(ui) => {
                    proof {
                        lemma_row_with(store.users@, thread.author_uuid, ui as int);
                    }
                    store.users[ui].clone()
                },
                None => {
                    return Err(Error::Internal);
                },
            };
            data.push(MinimalThreadData { thread, user });
            proof {
                assert(data@ =~= thread_data_seq(*store, requested_forum_id).take(k + 1));
            }
            k += 1;
        }
        proof {
            assert(data@ =~= thread_data_seq(*store, requested_forum_id));
        }
        if (data.len() as u64) > (num_threads as u64) {
            data.truncate(num_threads as usize);
        }
        Ok(data)
    }

    /// Creates a thread together with its initial post. The post is
    /// placed in the new thread, whatever thread its body named. The two
    /// steps share no transaction: when the post step fails, the thread
    /// stays created, and the error says which step failed.
    pub fn create_thread_with_initial_post(
        new_thread: NewThread,
        new_post: NewPost,
        store: &mut Store,
    ) -> (r: Result<ThreadData, Error>)
        requires
            old(store).wf(),
        ensures
            final(store).wf(),
            ({
                let forum_ok = new_thread.forum_id >= 0 && has_key(
                    old(store).forums@,
                    new_thread.forum_id as u128,
                );
                let thread_author_ok = has_key(old(store).users@, new_thread.author_uuid);
                let post_author_ok = has_key(old(store).users@, new_post.author_uuid);
                let thread = created_thread(new_thread, old(store).next_thread_id);
                if !forum_ok || !thread_author_ok {
                    r == Err::<ThreadData, Error>(Error::ConstraintViolation) && *final(store)
                        == *old(store)
                } else if old(store).next_thread_id == i32::MAX {
                    r == Err::<ThreadData, Error>(Error::Internal) && *final(store) == *old(store)
                } else {
                    &&& final(store).threads@ == old(store).threads@.push(thread)
                    &&& final(store).next_thread_id == old(store).next_thread_id + 1
                    &&& final(store).users@ == old(store).users@
                    &&& final(store).articles@ == old(store).articles@
                    &&& final(store).forums@ == old(store).forums@
                    &&& final(store).chats@ == old(store).chats@
                    &&& final(store).messages@ == old(store).messages@
                    &&& final(store).next_forum_id == old(store).next_forum_id
                    &&& (!post_author_ok ==> r == Err::<ThreadData, Error>(
                        Error::ConstraintViolation,
                    ) && final(store).posts@ == old(store).posts@ && final(store).next_post_id
                        == old(store).next_post_id)
                    &&& (post_author_ok && old(store).next_post_id == i32::MAX ==> r == Err::<
                        ThreadData,
                        Error,
                    >(Error::Internal) && final(store).posts@ == old(store).posts@ && final(store).next_post_id
                        == old(store).next_post_id)
                    &&& (post_author_ok && old(store).next_post_id < i32::MAX ==> (r matches Ok(d)
                        && {
                        &&& d.thread == thread
                        &&& d.post.post == crate::post::created_post(
                            NewPost {
                                thread_id: thread.id,
                                author_uuid: new_post.author_uuid,
                                created_date: new_post.created_date,
                                content: new_post.content,
                            },
                            old(store).next_post_id,
                        )
                        &&& d.post.children@.len() == 0
                        &&& d.user == d.post.user
                        &&& d.user == row_with(old(store).users@, new_post.author_uuid)
                        &&& final(store).posts@ == old(store).posts@.push(d.post.post)
                        &&& final(store).next_post_id == old(store).next_post_id + 1
                    }))
                }
            }),
    {
        let ghost g_forum_id = new_thread.forum_id;
        let ghost g_thread_author = new_thread.author_uuid;
        let thread = match Thread::create(new_thread, store) {
            Ok(t) => t,
            Err(e) => {
                proof {
                    if g_forum_id >= 0 && has_key(old(store).forums@, g_forum_id as u128)
                        && has_key(old(store).users@, g_thread_author) && old(
                        store,
                    ).next_thread_id != i32::MAX {
                        assert(false);
                    }
                }
                return Err(e);
            },
        };
        proof {
            assert(store.threads@[store.threads@.len() - 1].row_key() == thread.id as u128);
            assert(has_key(store.threads@, thread.id as u128));
        }
        let post_body = NewPost {
            thread_id: thread.id,
            author_uuid: new_post.author_uuid,
            created_date: new_post.created_date,
            content: new_post.content,
        };
        let post_data = match Post::create_and_get_user(post_body, store) {
            Ok(d) => d,
            Err(e) => {
                return Err(e);
            },
        };
        let user: User = post_data.user.clone();
        Ok(ThreadData { thread, post: PostData::from_childless(post_data), user })
    }
}

} // verus!
