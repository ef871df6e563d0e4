use forum_core::error::Error;
use forum_core::error::StoreFailure;
use forum_core::identifiers::UserUuid;
use forum_core::routes::identity::resolve_identity;
use forum_core::error::handle_store_error;
use forum_core::forum::Forum;
use forum_core::forum::NewForum;
use forum_core::post::NewPost;
use forum_core::requests::NewUserRequest;
use forum_core::store::Store;
use forum_core::thread::NewThread;
use forum_core::thread::Thread;
use forum_core::user::User;

fn setup() -> (Store, u128, i32) {
    let mut store = Store::new();
    let user = User::create(
        NewUserRequest {
            user_name: String::from("author"),
            display_name: String::from("Author"),
            plaintext_password: String::from("pw"),
        }
        .into(),
        &mut store,
    )
    .unwrap();
    let forum = Forum::create_forum(
        NewForum {
            title: String::from("General"),
            description: String::from("Anything"),
        },
        &mut store,
    )
    .unwrap();
    (store, user.uuid, forum.id)
}

fn new_thread(forum_id: i32, author: u128, created: i64, title: &str) -> NewThread {
    NewThread {
        forum_id,
        author_uuid: author,
        created_date: created,
        locked: false,
        archived: false,
        title: String::from(title),
    }
}

#[test]
fn forums_are_created_and_fetched() {
    let (mut store, _user, forum_id) = setup();
    let fetched = Forum::get_forum(forum_id, &store).unwrap();
    assert_eq!(fetched.title, "General");
    assert!(matches!(Forum::get_forum(99, &store), Err(Error::NotFound)));
    let second = Forum::create_forum(
        NewForum { title: String::from("Second"), description: String::from("More") },
        &mut store,
    )
    .unwrap();
    assert_ne!(second.id, forum_id);
    let all = Forum::get_forums(&store).unwrap();
    assert_eq!(all.len(), 2);
    assert_eq!(all[0].title, "General");
    assert_eq!(all[1].title, "Second");
}

#[test]
fn lock_unlock_and_archive_set_their_flags() {
    let (mut store, user, forum_id) = setup();
    let t = Thread::create(new_thread(forum_id, user, 50, "flags"), &mut store).unwrap();
    assert!(!t.locked);
    assert!(!t.archived);

    let locked = Thread::lock_thread(t.id, &mut store).unwrap();
    assert!(locked.thread.locked);
    assert_eq!(locked.user.uuid, user);

    let unlocked = Thread::unlock_thread(t.id, &mut store).unwrap();
    assert!(!unlocked.thread.locked);

    let archived = Thread::archive_thread(t.id, &mut store).unwrap();
    assert!(archived.thread.archived);

    assert!(matches!(Thread::lock_thread(777, &mut store), Err(Error::NotFound)));
}

#[test]
fn forum_listing_excludes_archived_and_orders_by_creation() {
    let (mut store, user, forum_id) = setup();
    let a = Thread::create(new_thread(forum_id, user, 300, "late"), &mut store).unwrap();
    let b = Thread::create(new_thread(forum_id, user, 100, "early"), &mut store).unwrap();
    let c = Thread::create(new_thread(forum_id, user, 200, "middle"), &mut store).unwrap();
    let _ = (a, c);
    let hidden = Thread::create(new_thread(forum_id, user, 1, "hidden"), &mut store).unwrap();
    Thread::archive_thread(hidden.id, &mut store).unwrap();

    let listing = Thread::get_threads_in_forum(forum_id, 10, &store).unwrap();
    let titles: Vec<&str> = listing.iter().map(|d| d.thread.title.as_str()).collect();
    assert_eq!(titles, vec!["early", "middle", "late"]);
    assert_eq!(listing[0].user.uuid, user);
    assert_eq!(listing[0].thread.id, b.id);

    let limited = Thread::get_threads_in_forum(forum_id, 2, &store).unwrap();
    assert_eq!(limited.len(), 2);
    assert_eq!(limited[0].thread.title, "early");

    assert!(matches!(
        Thread::get_threads_in_forum(55, 10, &store),
        Err(Error::NotFound)
    ));
}

#[test]
fn thread_creation_checks_its_foreign_keys() {
    let (mut store, user, forum_id) = setup();
    assert!(matches!(
        Thread::create(new_thread(44, user, 5, "no forum"), &mut store),
        Err(Error::ConstraintViolation)
    ));
    assert!(matches!(
        Thread::create(new_thread(forum_id, 424242, 5, "no author"), &mut store),
        Err(Error::ConstraintViolation)
    ));
}

#[test]
fn creating_a_thread_with_its_initial_post() {
    let (mut store, user, forum_id) = setup();
    let data = Thread::create_thread_with_initial_post(
        new_thread(forum_id, user, 10, "opening"),
        NewPost {
            thread_id: 0, // the new thread's key replaces this
            author_uuid: user,
            created_date: 10,
            content: String::from("first!"),
        },
        &mut store,
    )
    .unwrap();
    assert_eq!(data.thread.title, "opening");
    assert_eq!(data.post.post.thread_id, data.thread.id);
    assert_eq!(data.post.post.content, "first!");
    assert!(!data.post.post.censored);
    assert!(data.post.children.is_empty());
    assert_eq!(data.user.uuid, user);
    assert_eq!(store.posts.len(), 1);
}

#[test]
fn store_failures_map_onto_the_taxonomy() {
    assert_eq!(handle_store_error(StoreFailure::RowNotFound), Error::NotFound);
    assert_eq!(
        handle_store_error(StoreFailure::ForeignKeyViolation),
        Error::ConstraintViolation
    );
    assert_eq!(
        handle_store_error(StoreFailure::UniqueViolation),
        Error::ConstraintViolation
    );
    assert_eq!(handle_store_error(StoreFailure::Other), Error::Internal);
}

#[test]
fn error_tags_are_machine_readable() {
    assert_eq!(Error::NotFound.tag(), "not found");
    assert_eq!(Error::ConstraintViolation.tag(), "constraint violation");
    assert_eq!(Error::Unauthorized.tag(), "unauthorized");
    assert_eq!(Error::Forbidden.tag(), "forbidden");
    assert_eq!(Error::BadRequest.tag(), "bad request");
    assert_eq!(Error::ServiceUnavailable.tag(), "service unavailable");
    assert_eq!(Error::Internal.tag(), "internal error");
}

#[test]
fn absent_credentials_are_unauthorized() {
    assert!(matches!(resolve_identity(None), Err(Error::Unauthorized)));
    assert_eq!(resolve_identity(Some(UserUuid(3))), Ok(UserUuid(3)));
}
