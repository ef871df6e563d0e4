//! The in-memory relational store: one table per entity, each row
//! identified by a unique key, with foreign keys for ownership and
//! parent relations.
//!
//! A pool handle is constructed once at startup and passed explicitly
//! into every data-access call; here the store itself is that handle.
use vstd::prelude::*;

use crate::article::Article;
use crate::chat::Chat;
use crate::chat::Message;
use crate::forum::Forum;
use crate::post::Post;
use crate::thread::Thread;
use crate::user::User;

verus! {

/// One capability interface for every table row: each row exposes its
/// primary key as a 128-bit value (serial 32-bit keys are widened).
pub trait Row {
    /// The row's primary key.
    spec fn row_key(&self) -> u128;

    /// Returns the row's primary key.
    fn key(&self) -> (k: u128)
        ensures
            k == self.row_key(),
    ;
}

/// Whether some row of the table has the given key.
pub open spec fn has_key<T: Row>(rows: Seq<T>, key: u128) -> bool {
    exists|i: int| 0 <= i < rows.len() && rows[i].row_key() == key
}

/// No two rows of the table share a key.
pub open spec fn unique_keys<T: Row>(rows: Seq<T>) -> bool {
    forall|i: int, j: int|
        0 <= i < j < rows.len() ==> rows[i].row_key() != rows[j].row_key()
}

/// The index of the row with the given key.
pub open spec fn key_idx<T: Row>(rows: Seq<T>, key: u128) -> int {
    choose|i: int| 0 <= i < rows.len() && rows[i].row_key() == key
}

/// The row with the given key.
pub open spec fn row_with<T: Row>(rows: Seq<T>, key: u128) -> T
    recommends
        has_key(rows, key),
{
    rows[key_idx(rows, key)]
}

/// Under unique keys, any row holding the key is the row `row_with`
/// denotes.
pub proof fn lemma_row_with<T: Row>(rows: Seq<T>, key: u128, i: int)
    requires
        unique_keys(rows),
        0 <= i < rows.len(),
        rows[i].row_key() == key,
    ensures
        has_key(rows, key),
        key_idx(rows, key) == i,
        row_with(rows, key) == rows[i],
{
    assert(has_key(rows, key));
    let j = key_idx(rows, key);
    assert(0 <= j < rows.len() && rows[j].row_key() == key);
    if i != j {
        assert(rows[i].row_key() != rows[j].row_key());
    }
}

/// Finds the index of the row with the given key, scanning in table
/// order.
pub fn find_row<T: Row>(rows: &Vec<T>, key: u128) -> (r: Option<usize>)
    ensures
        match r {
            Some(i) => 0 <= i < rows@.len() && rows@[i as int].row_key() == key,
            None => !has_key(rows@, key),
        },
{
    let mut i: usize = 0;
    while i < rows.len()
        invariant
            i <= rows@.len(),
            forall|j: int| 0 <= j < i ==> rows@[j].row_key() != key,
        decreases rows@.len() - i,
    {
        if rows[i].key() == key {
            return Some(i);
        }
        i += 1;
    }
    None
}

/// Stepping a filter over a growing prefix: filtering one more row
/// appends that row exactly when it passes the predicate.
pub proof fn lemma_filter_take_step<T>(s: Seq<T>, i: int, pred: spec_fn(T) -> bool)
    requires
        0 <= i < s.len(),
    ensures
        s.take(i + 1).filter(pred) == if pred(s[i]) {
            s.take(i).filter(pred).push(s[i])
        } else {
            s.take(i).filter(pred)
        },
{
    assert(s.take(i + 1) =~= s.take(i) + seq![s[i]]);
    Seq::<T>::filter_distributes_over_add(s.take(i), seq![s[i]], pred);
    reveal(Seq::filter);
    assert(seq![s[i]].drop_last() =~= Seq::<T>::empty());
    assert(Seq::<T>::empty().filter(pred) =~= Seq::<T>::empty());
    if pred(s[i]) {
        assert(seq![s[i]].filter(pred) =~= seq![s[i]]);
        assert(s.take(i).filter(pred) + seq![s[i]].filter(pred) =~= s.take(i).filter(pred).push(
            s[i],
        ));
    } else {
        assert(seq![s[i]].filter(pred) =~= Seq::<T>::empty());
        assert(s.take(i).filter(pred) + seq![s[i]].filter(pred) =~= s.take(i).filter(pred));
    }
}

/// A filtered table holds exactly the rows that pass the predicate, so
/// every row of the result came from the table.
pub proof fn lemma_filter_element<T>(s: Seq<T>, pred: spec_fn(T) -> bool, i: int)
    requires
        0 <= i < s.filter(pred).len(),
    ensures
        pred(s.filter(pred)[i]),
        exists|j: int| 0 <= j < s.len() && s[j] == s.filter(pred)[i],
    decreases s.len(),
{
    reveal(Seq::filter);
    if s.len() > 0 {
        let rest = s.drop_last();
        let out = s.filter(pred);
        if pred(s.last()) && i == out.len() - 1 {
            assert(out[i] == s.last());
            assert(s[s.len() - 1] == out[i]);
        } else {
            lemma_filter_element(rest, pred, i);
            let j = choose|j: int| 0 <= j < rest.len() && rest[j] == rest.filter(pred)[i];
            assert(s[j] == rest[j]);
        }
    }
}

/// A key present in a table stays present when a row is appended.
pub proof fn lemma_has_key_push<T: Row>(rows: Seq<T>, x: T, key: u128)
    requires
        has_key(rows, key),
    ensures
        has_key(rows.push(x), key),
{
    let i = choose|i: int| 0 <= i < rows.len() && rows[i].row_key() == key;
    assert(rows.push(x)[i] == rows[i]);
}

/// Filtering a table with unique keys keeps its keys unique.
pub proof fn lemma_filter_unique<T: Row>(s: Seq<T>, pred: spec_fn(T) -> bool, i: int, j: int)
    requires
        unique_keys(s),
        0 <= i < j < s.filter(pred).len(),
    ensures
        s.filter(pred)[i].row_key() != s.filter(pred)[j].row_key(),
    decreases s.len(),
{
    reveal(Seq::filter);
    if s.len() > 0 {
        let last = s.last();
        let rest = s.drop_last();
        assert(forall|x: int, y: int|
            0 <= x < y < rest.len() ==> rest[x].row_key() != rest[y].row_key());
        if pred(last) {
            if j < s.filter(pred).len() - 1 {
                lemma_filter_unique(rest, pred, i, j);
            } else {
                lemma_filter_element(rest, pred, i);
                let j0 = choose|j0: int|
                    0 <= j0 < rest.len() && rest[j0] == rest.filter(pred)[i];
                assert(s[j0] == rest[j0]);
                assert(s[s.len() - 1] == last);
            }
        } else {
            lemma_filter_unique(rest, pred, i, j);
        }
    }
}

/// The store: one table per entity and the next value of each serial
/// key. Serial keys count up from 1, as a relational store's key
/// sequences do.
pub struct Store {
    /// The users table.
    pub users: Vec<User>,
    /// The articles table; `author_uuid` references `users`.
    pub articles: Vec<Article>,
    /// The forums table.
    pub forums: Vec<Forum>,
    /// The threads table; references `forums` and `users`.
    pub threads: Vec<Thread>,
    /// The posts table; references `threads` and `users`.
    pub posts: Vec<Post>,
    /// The chats table; members reference `users`.
    pub chats: Vec<Chat>,
    /// The messages table; references `chats` and `users`.
    pub messages: Vec<Message>,
    /// The next serial forum key.
    pub next_forum_id: i32,
    /// The next serial thread key.
    pub next_thread_id: i32,
    /// The next serial post key.
    pub next_post_id: i32,
}

impl Store {
    /// Well-formedness: unique keys in every table, serial keys below
    /// their next value, and every foreign key referring to an existing
    /// row.
    pub open spec fn wf(self) -> bool {
        &&& unique_keys(self.users@)
        &&& unique_keys(self.articles@)
        &&& unique_keys(self.forums@)
        &&& unique_keys(self.threads@)
        &&& unique_keys(self.posts@)
        &&& unique_keys(self.chats@)
        &&& unique_keys(self.messages@)
        &&& self.next_forum_id >= 1
        &&& self.next_thread_id >= 1
        &&& self.next_post_id >= 1
        &&& forall|i: int|
            0 <= i < self.forums@.len() ==> 1 <= (#[trigger] self.forums@[i]).id
                < self.next_forum_id
        &&& forall|i: int|
            0 <= i < self.threads@.len() ==> 1 <= (#[trigger] self.threads@[i]).id
                < self.next_thread_id
        &&& forall|i: int|
            0 <= i < self.posts@.len() ==> 1 <= (#[trigger] self.posts@[i]).id < self.next_post_id
        &&& forall|i: int|
            0 <= i < self.articles@.len() ==> has_key(
                self.users@,
                (#[trigger] self.articles@[i]).author_uuid,
            )
        &&& forall|i: int|
            0 <= i < self.threads@.len() ==> 1 <= (#[trigger] self.threads@[i]).forum_id && has_key(
                self.forums@,
                self.threads@[i].forum_id as u128,
            ) && has_key(self.users@, self.threads@[i].author_uuid)
        &&& forall|i: int|
            0 <= i < self.posts@.len() ==> 1 <= (#[trigger] self.posts@[i]).thread_id && has_key(
                self.threads@,
                self.posts@[i].thread_id as u128,
            ) && has_key(self.users@, self.posts@[i].author_uuid)
        &&& forall|i: int, m: int|
            0 <= i < self.chats@.len() && 0 <= m < self.chats@[i].members@.len() ==> has_key(
                self.users@,
                #[trigger] self.chats@[i].members@[m],
            )
        &&& forall|i: int|
            0 <= i < self.messages@.len() ==> has_key(
                self.chats@,
                (#[trigger] self.messages@[i]).chat_uuid,
            ) && has_key(self.users@, self.messages@[i].author_uuid)
    }

    /// A fresh, empty store.
    pub fn new() -> (s: Store)
        ensures
            s.wf(),
            s.users@.len() == 0,
            s.articles@.len() == 0,
            s.forums@.len() == 0,
            s.threads@.len() == 0,
            s.posts@.len() == 0,
            s.chats@.len() == 0,
            s.messages@.len() == 0,
    {
        Store {
            users: Vec::new(),
            articles: Vec::new(),
            forums: Vec::new(),
            threads: Vec::new(),
            posts: Vec::new(),
            chats: Vec::new(),
            messages: Vec::new(),
            next_forum_id: 1,
            next_thread_id: 1,
            next_post_id: 1,
        }
    }
}

} // verus!
