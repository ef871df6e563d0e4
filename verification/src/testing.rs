//! Fixture data: a batch of rows for every entity a fresh deployment
//! wants populated.
use vstd::prelude::*;
use vstd::string::StringExecFns;

use crate::clock::now_timestamp;
use crate::error::Error;
use crate::forum::Forum;
use crate::forum::NewForum;
use crate::requests::NewUserRequest;
use crate::store::Row;
use crate::store::Store;
use crate::store::has_key;
use crate::thread::NewThread;
use crate::thread::Thread;
use crate::user::NewUser;
use crate::user::User;
use crate::user::UserRoles;

verus! {

/// The title of the `i`-th thread every fixture forum starts with.
pub open spec fn fixture_thread_title(i: int) -> Seq<char> {
    if i == 0 {
        "Thread Title"@
    } else if i == 1 {
        "Another Thread"@
    } else {
        "Yet Another Thread"@
    }
}

/// What the fixtures leave in the store on success: after the rows the
/// store already had, an administrator (named "Admin", holding the admin
/// and moderator roles), the forums "Joe Forum" and "Off Topic", and in
/// each of the two forums the three threads of `fixture_thread_title`,
/// all authored by that administrator, neither locked nor archived.
pub open spec fn fixtures_created(s: Store, t: Store) -> bool {
    let admin = t.users@[s.users@.len() as int];
    let forum1 = t.forums@[s.forums@.len() as int];
    let forum2 = t.forums@[s.forums@.len() as int + 1];
    &&& t.users@.len() == s.users@.len() + 1
    &&& t.forums@.len() == s.forums@.len() + 2
    &&& t.threads@.len() == s.threads@.len() + 6
    &&& admin.user_name@ == "Admin"@
    &&& admin.display_name@ == "Admin"@
    &&& admin.roles == (UserRoles { moderator: true, admin: true, publisher: false })
    &&& forum1.title@ == "Joe Forum"@
    &&& forum1.description@ == "A Forum for All Things Joe."@
    &&& forum2.title@ == "Off Topic"@
    &&& forum2.description@ == "A Forum for All Things Not Related to Joe."@
    &&& forall|i: int|
        0 <= i < 6 ==> {
            let th = #[trigger] t.threads@[s.threads@.len() + i];
            &&& th.author_uuid == admin.uuid
            &&& th.forum_id == if i < 3 {
                forum1.id
            } else {
                forum2.id
            }
            &&& th.title@ == fixture_thread_title(
                if i < 3 {
                    i
                } else {
                    i - 3
                },
            )
            &&& !th.locked
            &&& !th.archived
        }
}

/// Creates a batch of entries for every data type the service serves: an
/// administrator, two forums, and three threads in each forum. On a
/// fresh store with room in its serial keys, success is owed — the one
/// key draw cannot collide in an empty users table; on any failure the
/// store is left well-formed with whatever had been created.
pub fn generate_test_fixtures(store: &mut Store) -> (r: Result<(), Error>)
    requires
        old(store).wf(),
    ensures
        final(store).wf(),
        r == Ok::<(), Error>(()) ==> fixtures_created(*old(store), *final(store)),
        r matches Err(e) ==> (e == Error::ConstraintViolation || e == Error::Internal),
        old(store).users@.len() == 0 && old(store).next_forum_id <= i32::MAX - 2 && old(
            store,
        ).next_thread_id <= i32::MAX - 6 ==> r == Ok::<(), Error>(()),
{
    let ghost owed = old(store).users@.len() == 0 && old(store).next_forum_id <= i32::MAX - 2
        && old(store).next_thread_id <= i32::MAX - 6;
    let mut user: NewUser = NewUser::from(
        NewUserRequest {
            user_name: String::from_str("Admin"),
            display_name: String::from_str("Admin"),
            plaintext_password: String::from_str("12345"),
        },
    );
    user.roles.admin = true;
    user.roles.moderator = true;
    let user: User = match User::create(user, store) {
        Ok(u) => u,
        Err(e) => {
            proof {
                if owed {
                    assert(false);
                }
            }
            return Err(e);
        },
    };
    let forum1: NewForum = NewForum {
        title: String::from_str("Joe Forum"),
        description: String::from_str("A Forum for All Things Joe."),
    };
    let forum1: Forum = match Forum::create_forum(forum1, store) {
        Ok(f) => f,
        Err(e) => {
            proof {
                if owed {
                    assert(false);
                }
            }
            return Err(e);
        },
    };
    let forum2: NewForum = NewForum {
        title: String::from_str("Off Topic"),
        description: String::from_str("A Forum for All Things Not Related to Joe."),
    };
    let forum2: Forum = match Forum::create_forum(forum2, store) {
        Ok(f) => f,
        Err(e) => {
            proof {
                if owed {
                    assert(false);
                }
            }
            return Err(e);
        },
    };
    let mut forum_ids: Vec<i32> = Vec::new();
    forum_ids.push(forum1.id);
    forum_ids.push(forum2.id);
    let ghost snap_users = store.users@;
    let ghost snap_forums = store.forums@;
    let ghost base_threads = store.threads@.len();
    let ghost base_next_thread = store.next_thread_id;
    proof {
        let fs = store.forums@;
        assert(fs[fs.len() - 2].row_key() == forum1.id as u128);
        assert(fs[fs.len() - 1].row_key() == forum2.id as u128);
        assert(has_key(fs, forum1.id as u128));
        assert(has_key(fs, forum2.id as u128));
        let us = store.users@;
        assert(us[us.len() - 1].row_key() == user.uuid);
        assert(has_key(us, user.uuid));
        assert(us[us.len() - 1] == user);
        assert(owed ==> base_next_thread <= i32::MAX - 6);
    }
    let mut made: usize = 0;
    let mut f: usize = 0;
    while f < forum_ids.len()
        invariant
            f <= forum_ids@.len(),
            forum_ids@.len() == 2,
            forum_ids@[0] == forum1.id,
            forum_ids@[1] == forum2.id,
            store.wf(),
            made == f * 3,
            store.users@ == snap_users,
            store.forums@ == snap_forums,
            store.threads@.len() == base_threads + made,
            store.next_thread_id == base_next_thread + made,
            owed == (old(store).users@.len() == 0 && old(store).next_forum_id <= i32::MAX - 2
                && old(store).next_thread_id <= i32::MAX - 6),
            owed ==> base_next_thread <= i32::MAX - 6,
            snap_users[snap_users.len() - 1] == user,
            forall|x: int|
                0 <= x < forum_ids@.len() ==> 1 <= #[trigger] forum_ids@[x] && has_key(
                    store.forums@,
                    forum_ids@[x] as u128,
                ),
            has_key(store.users@, user.uuid),
            forall|i: int|
                0 <= i < made ==> {
                    let th = #[trigger] store.threads@[base_threads + i];
                    &&& th.author_uuid == user.uuid
                    &&& th.forum_id == if i < 3 {
                        forum1.id
                    } else {
                        forum2.id
                    }
                    &&& th.title@ == fixture_thread_title(
                        if i < 3 {
                            i
                        } else {
                            i - 3
                        },
                    )
                    &&& !th.locked
                    &&& !th.archived
                },
        decreases forum_ids@.len() - f,
    {
        let forum_id = forum_ids[f];
        let mut t: usize = 0;
        while t < 3
            invariant
                t <= 3,
                f < forum_ids@.len(),
                forum_ids@.len() == 2,
                forum_ids@[0] == forum1.id,
                forum_ids@[1] == forum2.id,
                store.wf(),
                made == f * 3 + t,
                store.users@ == snap_users,
                store.forums@ == snap_forums,
                store.threads@.len() == base_threads + made,
                store.next_thread_id == base_next_thread + made,
                owed == (old(store).users@.len() == 0 && old(store).next_forum_id <= i32::MAX - 2
                    && old(store).next_thread_id <= i32::MAX - 6),
                owed ==> base_next_thread <= i32::MAX - 6,
                snap_users[snap_users.len() - 1] == user,
                forum_id == forum_ids@[f as int],
                forall|x: int|
                    0 <= x < forum_ids@.len() ==> 1 <= #[trigger] forum_ids@[x] && has_key(
                        store.forums@,
                        forum_ids@[x] as u128,
                    ),
                has_key(store.users@, user.uuid),
                forall|i: int|
                    0 <= i < made ==> {
                        let th = #[trigger] store.threads@[base_threads + i];
                        &&& th.author_uuid == user.uuid
                        &&& th.forum_id == if i < 3 {
                            forum1.id
                        } else {
                            forum2.id
                        }
                        &&& th.title@ == fixture_thread_title(
                            if i < 3 {
                                i
                            } else {
                                i - 3
                            },
                        )
                        &&& !th.locked
                        &&& !th.archived
                    },
            decreases 3 - t,
        {
            let title: String = if t == 0 {
                String::from_str("Thread Title")
            } else if t == 1 {
                String::from_str("Another Thread")
            } else {
                String::from_str("Yet Another Thread")
            };
            let new_thread: NewThread = NewThread {
                forum_id,
                author_uuid: user.uuid,
                created_date: now_timestamp(),
                locked: false,
                archived: false,
                title,
            };
            match Thread::create(new_thread, store) {
                Ok(_) => {},
                Err(e) => {
                    proof {
                        if owed {
                            assert(base_next_thread + made < i32::MAX);
                            assert(false);
                        }
                    }
                    return Err(e);
                },
            }
            made += 1;
            t += 1;
        }
        f += 1;
    }
    proof {
        assert(fixtures_created(*old(store), *store));
    }
    Ok(())
}

} // verus!
