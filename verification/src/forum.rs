//! The forums table.
use vstd::prelude::*;

use crate::error::Error;
use crate::store::Row;
use crate::store::Store;
use crate::store::has_key;
use crate::store::lemma_row_with;
use crate::store::find_row;
use crate::store::row_with;

verus! {

/// The store's representation of a forum.
#[derive(Debug)]
pub struct Forum {
    /// The serial primary key.
    pub id: i32,
    /// The displayed title of the forum.
    pub title: String,
    /// What topics belong in the forum.
    pub description: String,
}

impl Clone for Forum {
    /// A clone is the same forum, field for field.
    fn clone(&self) -> (r: Self)
        ensures
            r == *self,
    {
        Forum { id: self.id, title: self.title.clone(), description: self.description.clone() }
    }
}

impl Row for Forum {
    open spec fn row_key(&self) -> u128 {
        self.id as u128
    }

    fn key(&self) -> u128 {
        self.id as u128
    }
}

/// A forum to be inserted: everything but the server-assigned key.
#[derive(Debug, Clone)]
pub struct NewForum {
    /// The displayed title of the forum.
    pub title: String,
    /// What topics belong in the forum.
    pub description: String,
}

/// The row that inserting `new` under the serial key `id` stores.
pub open spec fn created_forum(new: NewForum, id: i32) -> Forum {
    Forum { id, title: new.title, description: new.description }
}

impl Forum {
    /// Creates a new forum under the next serial key. The store's serial
    /// keys can run out; that surfaces as an unclassified store failure.
    pub fn create_forum(new: NewForum, store: &mut Store) -> (r: Result<Forum, Error>)
        requires
            old(store).wf(),
        ensures
            final(store).wf(),
            old(store).next_forum_id == i32::MAX ==> r == Err::<Forum, Error>(Error::Internal)
                && *final(store) == *old(store),
            old(store).next_forum_id < i32::MAX ==> {
                &&& r == Ok::<Forum, Error>(created_forum(new, old(store).next_forum_id))
                &&& final(store).forums@ == old(store).forums@.push(
                    created_forum(new, old(store).next_forum_id),
                )
                &&& final(store).next_forum_id == old(store).next_forum_id + 1
                &&& final(store).users@ == old(store).users@
                &&& final(store).articles@ == old(store).articles@
                &&& final(store).threads@ == old(store).threads@
                &&& final(store).posts@ == old(store).posts@
                &&& final(store).chats@ == old(store).chats@
                &&& final(store).messages@ == old(store).messages@
                &&& final(store).next_thread_id == old(store).next_thread_id
                &&& final(store).next_post_id == old(store).next_post_id
            },
    {
        if store.next_forum_id == i32::MAX {
            return Err(Error::Internal);
        }
        let id = store.next_forum_id;
        store.next_forum_id = id + 1;
        let row = Forum { id, title: new.title, description: new.description };
        let copy = row.clone();
        store.forums.push(row);
        proof {
            let forums = store.forums@;
            assert forall|i: int, j: int|
                0 <= i < j < forums.len() implies forums[i].row_key() != forums[j].row_key() by {
                assert(forums[i].id != forums[j].id);
            }
            assert forall|w: u128| has_key(old(store).forums@, w) implies has_key(forums, w) by {
                crate::store::lemma_has_key_push(old(store).forums@, forums.last(), w);
                assert(old(store).forums@.push(forums.last()) =~= forums);
            }
        }
        Ok(copy)
    }

    /// Fetches every forum, in table order.
    pub fn get_forums(store: &Store) -> (r: Result<Vec<Forum>, Error>)
        requires
            store.wf(),
        ensures
            r matches Ok(v) && v@ == store.forums@,
    {
        let mut out: Vec<Forum> = Vec::new();
        let mut i: usize = 0;
        while i < store.forums.len()
            invariant
                i <= store.forums@.len(),
                out@ == store.forums@.take(i as int),
            decreases store.forums@.len() - i,
        {
            out.push(store.forums[i].clone());
            proof {
                assert(out@ =~= store.forums@.take(i + 1));
            }
            i += 1;
        }
        proof {
            assert(store.forums@.take(store.forums@.len() as int) =~= store.forums@);
        }
        Ok(out)
    }

    /// Fetches a forum by key.
    pub fn get_forum(forum_id: i32, store: &Store) -> (r: Result<Forum, Error>)
        requires
            store.wf(),
        ensures
            forum_id >= 0 && has_key(store.forums@, forum_id as u128) ==> r == Ok::<Forum, Error>(
                row_with(store.forums@, forum_id as u128),
            ),
            forum_id < 0 || !has_key(store.forums@, forum_id as u128) ==> r == Err::<Forum, Error>(
                Error::NotFound,
            ),
    {
        if forum_id < 0 {
            return Err(Error::NotFound);
        }
        match find_row(&store.forums, forum_id as u128) {
            Some(i) => {
                proof {
                    lemma_row_with(store.forums@, forum_id as u128, i as int);
                }
                Ok(store.forums[i].clone())
            },
            None => Err(Error::NotFound),
        }
    }
}

} // verus!
