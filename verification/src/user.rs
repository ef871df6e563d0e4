//! The users table: the owner side of every ownership relation.
use vstd::prelude::*;

use crate::error::Error;
use crate::identifiers::UserUuid;
use crate::identifiers::fresh_uuid;
use crate::requests::NewUserRequest;
use crate::store::Row;
use crate::store::Store;
use crate::store::has_key;
use crate::store::key_idx;
use crate::store::lemma_row_with;
use crate::store::lemma_filter_take_step;
use crate::store::find_row;
use crate::store::row_with;
use crate::article::Article;

verus! {

/// The roles granted to a user.
#[derive(Clone, Copy, Debug, PartialEq, Eq, Structural)]
pub struct UserRoles {
    /// May moderate forums: lock, unlock and archive threads.
    pub moderator: bool,
    /// May administer the service.
    pub admin: bool,
    /// May publish articles.
    pub publisher: bool,
}

impl UserRoles {
    /// No granted roles.
    pub fn none() -> (r: UserRoles)
        ensures
            r == (UserRoles { moderator: false, admin: false, publisher: false }),
    {
        UserRoles { moderator: false, admin: false, publisher: false }
    }
}

/// The store's representation of a user.
#[derive(Debug)]
pub struct User {
    /// The primary key.
    pub uuid: u128,
    /// The unique login name.
    pub user_name: String,
    /// The name shown beside the user's contributions.
    pub display_name: String,
    /// The stored credential; validating and hashing it is the external
    /// authentication collaborator's concern and opaque here.
    pub password_hash: String,
    /// The roles granted to the user.
    pub roles: UserRoles,
}

impl Clone for User {
    /// A clone is the same user, field for field.
    fn clone(&self) -> (r: Self)
        ensures
            r == *self,
    {
        User {
            uuid: self.uuid,
            user_name: self.user_name.clone(),
            display_name: self.display_name.clone(),
            password_hash: self.password_hash.clone(),
            roles: self.roles,
        }
    }
}

impl Row for User {
    open spec fn row_key(&self) -> u128 {
        self.uuid
    }

    fn key(&self) -> u128 {
        self.uuid
    }
}

/// A user to be inserted: everything but the server-assigned key.
#[derive(Debug, Clone)]
pub struct NewUser {
    /// The unique login name.
    pub user_name: String,
    /// The name shown beside the user's contributions.
    pub display_name: String,
    /// The stored credential, as handed over by the authentication
    /// collaborator.
    pub password_hash: String,
    /// The roles granted at creation.
    pub roles: UserRoles,
}

impl vstd::std_specs::convert::FromSpecImpl<NewUserRequest> for NewUser {
    open spec fn obeys_from_spec() -> bool {
        true
    }

    open spec fn from_spec(t: NewUserRequest) -> NewUser {
        NewUser {
            user_name: t.user_name,
            display_name: t.display_name,
            password_hash: t.plaintext_password,
            roles: UserRoles { moderator: false, admin: false, publisher: false },
        }
    }
}

impl From<NewUserRequest> for NewUser {
    /// A creation request asks for an unprivileged user; the credential
    /// is stored as the authentication collaborator hands it over.
    fn from(t: NewUserRequest) -> (r: NewUser) {
        NewUser {
            user_name: t.user_name,
            display_name: t.display_name,
            password_hash: t.plaintext_password,
            roles: UserRoles::none(),
        }
    }
}

/// The row that inserting `new` under the key `uuid` stores.
pub open spec fn created_user(new: NewUser, uuid: u128) -> User {
    User {
        uuid,
        user_name: new.user_name,
        display_name: new.display_name,
        password_hash: new.password_hash,
        roles: new.roles,
    }
}

/// Whether any dependent row other than an article refers to the user:
/// a thread or post they authored, a message they sent, or a chat they
/// belong to. Deleting a user with such a dependent is rejected;
/// articles, by contrast, cascade.
pub open spec fn user_has_dependents(s: Store, uuid: u128) -> bool {
    ||| exists|i: int| 0 <= i < s.threads@.len() && s.threads@[i].author_uuid == uuid
    ||| exists|i: int| 0 <= i < s.posts@.len() && s.posts@[i].author_uuid == uuid
    ||| exists|i: int| 0 <= i < s.messages@.len() && s.messages@[i].author_uuid == uuid
    ||| exists|i: int, m: int|
        0 <= i < s.chats@.len() && 0 <= m < s.chats@[i].members@.len()
            && #[trigger] s.chats@[i].members@[m] == uuid
}

/// The articles table after the user's articles cascade away.
pub open spec fn cascade_articles(articles: Seq<Article>, uuid: u128) -> Seq<Article> {
    articles.filter(|a: Article| a.author_uuid != uuid)
}

/// How deleting the user with key `uuid` relates the store before (`s`)
/// and after (`t`) and the result `r`: a missing user is not found; a
/// user with a dependent thread, post, message or chat membership is a
/// constraint violation; otherwise the user goes and their articles
/// cascade with them.
pub open spec fn user_removal(s: Store, t: Store, uuid: u128, r: Result<User, Error>) -> bool {
    if !has_key(s.users@, uuid) {
        r == Err::<User, Error>(Error::NotFound) && t == s
    } else if user_has_dependents(s, uuid) {
        r == Err::<User, Error>(Error::ConstraintViolation) && t == s
    } else {
        let i = key_idx(s.users@, uuid);
        &&& r == Ok::<User, Error>(row_with(s.users@, uuid))
        &&& t.users@ == s.users@.subrange(0, i) + s.users@.subrange(i + 1, s.users@.len() as int)
        &&& t.articles@ == cascade_articles(s.articles@, uuid)
        &&& t.forums@ == s.forums@
        &&& t.threads@ == s.threads@
        &&& t.posts@ == s.posts@
        &&& t.chats@ == s.chats@
        &&& t.messages@ == s.messages@
        &&& t.next_forum_id == s.next_forum_id
        &&& t.next_thread_id == s.next_thread_id
        &&& t.next_post_id == s.next_post_id
    }
}

/// Deleting an owner never leaves an orphaned dependent: either the
/// deletion cascades, after which no surviving article references the
/// removed owner and the store is well-formed again, or it is rejected
/// as a constraint violation because a dependent other than an article
/// exists, and the store is untouched.
pub proof fn lemma_owner_deletion_safe(s: Store, t: Store, uuid: u128, r: Result<User, Error>)
    requires
        s.wf(),
        user_removal(s, t, uuid, r),
    ensures
        r matches Ok(_) ==> t.wf() && forall|i: int|
            0 <= i < t.articles@.len() ==> (#[trigger] t.articles@[i]).author_uuid != uuid,
        r == Err::<User, Error>(Error::ConstraintViolation) ==> user_has_dependents(s, uuid) && t
            == s,
        r == Err::<User, Error>(Error::NotFound) ==> !has_key(s.users@, uuid) && t == s,
{
    if has_key(s.users@, uuid) && !user_has_dependents(s, uuid) {
        User::lemma_user_removal_wf(s, t, uuid);
    }
}

impl User {
    /// Fetches a user by key.
    pub fn get_user(uuid: UserUuid, store: &Store) -> (r: Result<User, Error>)
        requires
            store.wf(),
        ensures
            has_key(store.users@, uuid.0) ==> r == Ok::<User, Error>(
                row_with(store.users@, uuid.0),
            ),
            !has_key(store.users@, uuid.0) ==> r == Err::<User, Error>(Error::NotFound),
    {
        match find_row(&store.users, uuid.0) {
            Some(i) => {
                proof {
                    lemma_row_with(store.users@, uuid.0, i as int);
                }
                Ok(store.users[i].clone())
            },
            None => Err(Error::NotFound),
        }
    }

    /// Inserts `new` under the key `uuid`: the one verified step of
    /// creation, exact for every key the caller may bring. A key already
    /// in use is a uniqueness violation.
    pub fn create_with_uuid(new: NewUser, uuid: u128, store: &mut Store) -> (r: Result<
        User,
        Error,
    >)
        requires
            old(store).wf(),
        ensures
            final(store).wf(),
            has_key(old(store).users@, uuid) ==> r == Err::<User, Error>(
                Error::ConstraintViolation,
            ) && *final(store) == *old(store),
            !has_key(old(store).users@, uuid) ==> {
                &&& r == Ok::<User, Error>(created_user(new, uuid))
                &&& final(store).users@ == old(store).users@.push(created_user(new, uuid))
                &&& final(store).articles@ == old(store).articles@
                &&& final(store).forums@ == old(store).forums@
                &&& final(store).threads@ == old(store).threads@
                &&& final(store).posts@ == old(store).posts@
                &&& final(store).chats@ == old(store).chats@
                &&& final(store).messages@ == old(store).messages@
                &&& final(store).next_forum_id == old(store).next_forum_id
                &&& final(store).next_thread_id == old(store).next_thread_id
                &&& final(store).next_post_id == old(store).next_post_id
            },
    {
        match find_row(&store.users, uuid) {
            Some(_) => Err(Error::ConstraintViolation),
            None => {
                let row = User {
                    uuid,
                    user_name: new.user_name,
                    display_name: new.display_name,
                    password_hash: new.password_hash,
                    roles: new.roles,
                };
                let copy = row.clone();
                store.users.push(row);
                proof {
                    let users = store.users@;
                    assert forall|i: int, j: int|
                        0 <= i < j < users.len() implies users[i].row_key()
                        != users[j].row_key() by {
                        if j == users.len() - 1 {
                            assert(!has_key(old(store).users@, uuid));
                        }
                    }
                    assert forall|w: u128| has_key(old(store).users@, w) implies has_key(
                        users,
                        w,
                    ) by {
                        crate::store::lemma_has_key_push(
                            old(store).users@,
                            created_user(new, uuid),
                            w,
                        );
                    }
                }
                Ok(copy)
            },
        }
    }

    /// Creates a user under a freshly drawn key. The store assigns the
    /// key, so nothing more than a uniqueness failure can be promised
    /// about which draws succeed.
    pub fn create(new: NewUser, store: &mut Store) -> (r: Result<User, Error>)
        requires
            old(store).wf(),
        ensures
            final(store).wf(),
            r matches Err(e) ==> e == Error::ConstraintViolation && *final(store) == *old(store)
                && old(store).users@.len() > 0,
            r matches Ok(u) ==> {
                &&& u == created_user(new, u.uuid)
                &&& !has_key(old(store).users@, u.uuid)
                &&& final(store).users@ == old(store).users@.push(u)
                &&& final(store).articles@ == old(store).articles@
                &&& final(store).forums@ == old(store).forums@
                &&& final(store).threads@ == old(store).threads@
                &&& final(store).posts@ == old(store).posts@
                &&& final(store).chats@ == old(store).chats@
                &&& final(store).messages@ == old(store).messages@
                &&& final(store).next_forum_id == old(store).next_forum_id
                &&& final(store).next_thread_id == old(store).next_thread_id
                &&& final(store).next_post_id == old(store).next_post_id
            },
    {
        let uuid = fresh_uuid();
        User::create_with_uuid(new, uuid, store)
    }

    /// Deletes a user by key. Articles cascade with their owner; any
    /// other dependent row rejects the deletion with a constraint
    /// violation, so no orphaned dependent is ever left behind.
    pub fn delete_by_id(uuid: UserUuid, store: &mut Store) -> (r: Result<User, Error>)
        requires
            old(store).wf(),
        ensures
            final(store).wf(),
            user_removal(*old(store), *final(store), uuid.0, r),
    {
        User::delete_user_inner(uuid.0, store)
    }

    /// Deletes the first user with the given login name, with the same
    /// cascade rule as deletion by key.
    pub fn delete_user_by_name(name: String, store: &mut Store) -> (r: Result<User, Error>)
        requires
            old(store).wf(),
        ensures
            final(store).wf(),
            match first_user_named(old(store).users@, name@) {
                Some(u) => user_removal(*old(store), *final(store), u.uuid, r),
                None => r == Err::<User, Error>(Error::NotFound) && *final(store) == *old(store),
            },
    {
        proof {
            assert(store.users@.skip(0) =~= store.users@);
        }
        let mut i: usize = 0;
        while i < store.users.len()
            invariant
                store.wf(),
                i <= store.users@.len(),
                store.users@ == old(store).users@,
                *store == *old(store),
                first_user_named(store.users@, name@) == first_user_named(
                    store.users@.skip(i as int),
                    name@,
                ),
            decreases store.users@.len() - i,
        {
            proof {
                assert(store.users@.skip(i as int).drop_first() =~= store.users@.skip(i + 1));
                assert(store.users@.skip(i as int)[0] == store.users@[i as int]);
            }
            if store.users[i].user_name == name {
                let uuid = store.users[i].uuid;
                proof {
                    assert(store.users@.skip(i as int)[0] == store.users@[i as int]);
                }
                return User::delete_user_inner(uuid, store);
            }
            i += 1;
        }
        proof {
            assert(store.users@.skip(store.users@.len() as int) =~= Seq::<User>::empty());
        }
        Err(Error::NotFound)
    }

    /// The shared deletion step: checks for dependents, removes the
    /// user, and cascades their articles.
    fn delete_user_inner(uuid: u128, store: &mut Store) -> (r: Result<User, Error>)
        requires
            old(store).wf(),
        ensures
            final(store).wf(),
            user_removal(*old(store), *final(store), uuid, r),
    {
        let i = match find_row(&store.users, uuid) {
            Some(i) => i,
            None => {
                return Err(Error::NotFound);
            },
        };
        proof {
            lemma_row_with(store.users@, uuid, i as int);
        }
        if Self::any_thread_authored(&store.threads, uuid) {
            return Err(Error::ConstraintViolation);
        }
        if Self::any_post_authored(&store.posts, uuid) {
            return Err(Error::ConstraintViolation);
        }
        if Self::any_message_authored(&store.messages, uuid) {
            return Err(Error::ConstraintViolation);
        }
        if Self::any_chat_membership(&store.chats, uuid) {
            return Err(Error::ConstraintViolation);
        }
        let removed = store.users.remove(i);
        let mut kept: Vec<Article> = Vec::new();
        let mut j: usize = 0;
        while j < store.articles.len()
            invariant
                j <= store.articles@.len(),
                kept@ == store.articles@.take(j as int).filter(
                    |a: Article| a.author_uuid != uuid,
                ),
            decreases store.articles@.len() - j,
        {
            proof {
                lemma_filter_take_step(
                    store.articles@,
                    j as int,
                    |a: Article| a.author_uuid != uuid,
                );
            }
            if store.articles[j].author_uuid != uuid {
                kept.push(store.articles[j].clone());
            }
            j += 1;
        }
        proof {
            assert(store.articles@.take(store.articles@.len() as int) =~= store.articles@);
        }
        store.articles = kept;
        proof {
            Self::lemma_user_removal_wf(*old(store), *store, uuid);
            assert(store.users@ == old(store).users@.subrange(0, i as int) + old(store).users@.subrange(i + 1, old(store).users@.len() as int));
        }
        Ok(removed)
    }

    /// Deleting a user never leaves an orphaned dependent: when the
    /// deletion succeeds, the store is well-formed again and no article
    /// of the removed owner survives.
    proof fn lemma_user_removal_wf(s: Store, t: Store, uuid: u128)
        requires
            s.wf(),
            has_key(s.users@, uuid),
            !user_has_dependents(s, uuid),
            t.users@ == s.users@.subrange(0, key_idx(s.users@, uuid)) + s.users@.subrange(
                key_idx(s.users@, uuid) + 1,
                s.users@.len() as int,
            ),
            t.articles@ == cascade_articles(s.articles@, uuid),
            t.forums@ == s.forums@,
            t.threads@ == s.threads@,
            t.posts@ == s.posts@,
            t.chats@ == s.chats@,
            t.messages@ == s.messages@,
            t.next_forum_id == s.next_forum_id,
            t.next_thread_id == s.next_thread_id,
            t.next_post_id == s.next_post_id,
        ensures
            t.wf(),
            forall|i: int|
                0 <= i < t.articles@.len() ==> (#[trigger] t.articles@[i]).author_uuid != uuid,
    {
        let k = key_idx(s.users@, uuid);
        let users = t.users@;
        let pred = |a: Article| a.author_uuid != uuid;
        assert(0 <= k < s.users@.len() && s.users@[k].row_key() == uuid);
        assert forall|i: int| 0 <= i < users.len() implies #[trigger] users[i] == s.users@[
            if i < k {
                i
            } else {
                i + 1
            }
        ] by {}
        assert forall|x: int, y: int| 0 <= x < y < users.len() implies (
        #[trigger] users[x]).row_key() != (#[trigger] users[y]).row_key() by {}
        assert forall|w: u128| w != uuid && has_key(s.users@, w) implies has_key(
            t.users@,
            w,
        ) by {
            let i = choose|i: int| 0 <= i < s.users@.len() && s.users@[i].row_key() == w;
            assert(i != k);
            if i < k {
                assert(users[i] == s.users@[i]);
            } else {
                assert(users[i - 1] == s.users@[i]);
            }
        }
        assert forall|i: int| 0 <= i < t.articles@.len() implies pred(#[trigger] t.articles@[i])
            && has_key(t.users@, t.articles@[i].author_uuid) by {
            crate::store::lemma_filter_element(s.articles@, pred, i);
            let j = choose|j: int| 0 <= j < s.articles@.len() && s.articles@[j] == t.articles@[i];
            assert(has_key(s.users@, s.articles@[j].author_uuid));
        }
        assert forall|i: int, j: int|
            0 <= i < j < t.articles@.len() implies (#[trigger] t.articles@[i]).row_key() != (
        #[trigger] t.articles@[j]).row_key() by {
            crate::store::lemma_filter_unique(s.articles@, pred, i, j);
        }
        assert forall|i: int| 0 <= i < t.threads@.len() implies has_key(
            t.users@,
            (#[trigger] t.threads@[i]).author_uuid,
        ) by {
            assert(t.threads@[i] == s.threads@[i]);
            assert(s.threads@[i].author_uuid != uuid);
        }
        assert forall|i: int| 0 <= i < t.posts@.len() implies has_key(
            t.users@,
            (#[trigger] t.posts@[i]).author_uuid,
        ) by {
            assert(t.posts@[i] == s.posts@[i]);
            assert(s.posts@[i].author_uuid != uuid);
        }
        assert forall|i: int| 0 <= i < t.messages@.len() implies has_key(
            t.users@,
            (#[trigger] t.messages@[i]).author_uuid,
        ) by {
            assert(t.messages@[i] == s.messages@[i]);
            assert(s.messages@[i].author_uuid != uuid);
        }
        assert forall|i: int, m: int|
            0 <= i < t.chats@.len() && 0 <= m < t.chats@[i].members@.len() implies has_key(
            t.users@,
            #[trigger] t.chats@[i].members@[m],
        ) by {
            assert(t.chats@[i] == s.chats@[i]);
            assert(s.chats@[i].members@[m] != uuid);
        }
    }

    /// Whether any thread is authored by the user.
    fn any_thread_authored(threads: &Vec<crate::thread::Thread>, uuid: u128) -> (r: bool)
        ensures
            r == exists|i: int| 0 <= i < threads@.len() && threads@[i].author_uuid == uuid,
    {
        let mut i: usize = 0;
        while i < threads.len()
            invariant
                i <= threads@.len(),
                forall|j: int| 0 <= j < i ==> threads@[j].author_uuid != uuid,
            decreases threads@.len() - i,
        {
            if threads[i].author_uuid == uuid {
                return true;
            }
            i += 1;
        }
        false
    }

    /// Whether any post is authored by the user.
    fn any_post_authored(posts: &Vec<crate::post::Post>, uuid: u128) -> (r: bool)
        ensures
            r == exists|i: int| 0 <= i < posts@.len() && posts@[i].author_uuid == uuid,
    {
        let mut i: usize = 0;
        while i < posts.len()
            invariant
                i <= posts@.len(),
                forall|j: int| 0 <= j < i ==> posts@[j].author_uuid != uuid,
            decreases posts@.len() - i,
        {
            if posts[i].author_uuid == uuid {
                return true;
            }
            i += 1;
        }
        false
    }

    /// Whether any message is authored by the user.
    fn any_message_authored(messages: &Vec<crate::chat::Message>, uuid: u128) -> (r: bool)
        ensures
            r == exists|i: int| 0 <= i < messages@.len() && messages@[i].author_uuid == uuid,
    {
        let mut i: usize = 0;
        while i < messages.len()
            invariant
                i <= messages@.len(),
                forall|j: int| 0 <= j < i ==> messages@[j].author_uuid != uuid,
            decreases messages@.len() - i,
        {
            if messages[i].author_uuid == uuid {
                return true;
            }
            i += 1;
        }
        false
    }

    /// Whether the user belongs to any chat.
    fn any_chat_membership(chats: &Vec<crate::chat::Chat>, uuid: u128) -> (r: bool)
        ensures
            r == exists|i: int, m: int|
                0 <= i < chats@.len() && 0 <= m < chats@[i].members@.len()
                    && #[trigger] chats@[i].members@[m] == uuid,
    {
        let mut i: usize = 0;
        while i < chats.len()
            invariant
                i <= chats@.len(),
                forall|j: int, m: int|
                    0 <= j < i && 0 <= m < chats@[j].members@.len()
                        ==> #[trigger] chats@[j].members@[m] != uuid,
            decreases chats@.len() - i,
        {
            let members = &chats[i].members;
            let mut m: usize = 0;
            while m < members.len()
                invariant
                    m <= members@.len(),
                    members@ == chats@[i as int].members@,
                    i < chats@.len(),
                    forall|x: int| 0 <= x < m ==> members@[x] != uuid,
                decreases members@.len() - m,
            {
                if members[m] == uuid {
                    return true;
                }
                m += 1;
            }
            i += 1;
        }
        false
    }
}

/// The first user with the given login name, in table order.
pub open spec fn first_user_named(users: Seq<User>, name: Seq<char>) -> Option<User>
    decreases users.len(),
{
    if users.len() == 0 {
        None
    } else if users[0].user_name@ == name {
        Some(users[0])
    } else {
        first_user_named(users.drop_first(), name)
    }
}

} // verus!
