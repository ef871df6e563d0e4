use forum_core::article::Article;
use forum_core::article::NewArticle;
use forum_core::error::Error;
use forum_core::identifiers::ArticleUuid;
use forum_core::identifiers::UserUuid;
use forum_core::requests::NewUserRequest;
use forum_core::store::Store;
use forum_core::testing::generate_test_fixtures;
use forum_core::thread::NewThread;
use forum_core::thread::Thread;
use forum_core::forum::Forum;
use forum_core::forum::NewForum;
use forum_core::user::NewUser;
use forum_core::user::User;

fn new_user_request(name: &str) -> NewUserRequest {
    NewUserRequest {
        user_name: String::from(name),
        display_name: String::from("DisplayName"),
        plaintext_password: String::from("TestPassword"),
    }
}

#[test]
fn cascade_delete_test() {
    let mut store = Store::new();

    let user_name: String = String::from("CascadeDeleteTest-UserName");

    let _ = User::delete_user_by_name(user_name.clone(), &mut store);

    let new_user: NewUser = NewUserRequest {
        user_name: user_name.clone(),
        display_name: String::from("DisplayName"),
        plaintext_password: String::from("TestPassword"),
    }
    .into();

    let user = User::create(new_user, &mut store).unwrap();

    let new_article: NewArticle = NewArticle {
        title: String::from("CascadeDeleteTest-ArticleTitle"),
        slug: String::from("aah"),
        body: String::from("body"),
        author_uuid: user.uuid,
    };

    let _child_article: Article = Article::create_article(new_article, &mut store).unwrap();

    // Cascade delete should take care of the child article
    assert!(User::delete_by_id(UserUuid(user.uuid), &mut store).is_ok());
}

#[test]
fn create_without_dependencies() {
    let mut store = Store::new();

    let new_article: NewArticle = NewArticle {
        title: String::from("CreateTest-ArticleTitle"),
        slug: String::from("aah"),
        body: String::from("body"),
        author_uuid: 420420, // non-existent id
    };

    // Because the id of the author does not exist, creating a new article will fail.
    assert!(Article::create_article(new_article, &mut store).is_err());
}

#[test]
fn create_then_get_returns_created_input() {
    let mut store = Store::new();
    let user = User::create(new_user_request("author").into(), &mut store).unwrap();
    let created = Article::create_article(
        NewArticle {
            title: String::from("a title"),
            slug: String::from("a-title"),
            body: String::from("a body"),
            author_uuid: user.uuid,
        },
        &mut store,
    )
    .unwrap();
    let fetched = Article::get_article(ArticleUuid(created.uuid), &store).unwrap();
    assert_eq!(fetched.title, "a title");
    assert_eq!(fetched.slug, "a-title");
    assert_eq!(fetched.body, "a body");
    assert_eq!(fetched.author_uuid, user.uuid);
    assert_eq!(fetched.publish_date, None);
    assert_eq!(fetched.uuid, created.uuid);
}

#[test]
fn cascade_delete_removes_owned_articles() {
    let mut store = Store::new();
    let owner = User::create(new_user_request("owner").into(), &mut store).unwrap();
    let other = User::create(new_user_request("other").into(), &mut store).unwrap();
    let owned = Article::create_article(
        NewArticle {
            title: String::from("owned"),
            slug: String::from("owned"),
            body: String::from("b"),
            author_uuid: owner.uuid,
        },
        &mut store,
    )
    .unwrap();
    let kept = Article::create_article(
        NewArticle {
            title: String::from("kept"),
            slug: String::from("kept"),
            body: String::from("b"),
            author_uuid: other.uuid,
        },
        &mut store,
    )
    .unwrap();
    let removed = User::delete_by_id(UserUuid(owner.uuid), &mut store).unwrap();
    assert_eq!(removed.uuid, owner.uuid);
    assert!(matches!(
        Article::get_article(ArticleUuid(owned.uuid), &store),
        Err(Error::NotFound)
    ));
    assert!(Article::get_article(ArticleUuid(kept.uuid), &store).is_ok());
}

#[test]
fn delete_owner_with_thread_is_rejected() {
    let mut store = Store::new();
    let owner = User::create(new_user_request("threadowner").into(), &mut store).unwrap();
    let forum = Forum::create_forum(
        NewForum { title: String::from("f"), description: String::from("d") },
        &mut store,
    )
    .unwrap();
    Thread::create(
        NewThread {
            forum_id: forum.id,
            author_uuid: owner.uuid,
            created_date: 1000,
            locked: false,
            archived: false,
            title: String::from("t"),
        },
        &mut store,
    )
    .unwrap();
    assert!(matches!(
        User::delete_by_id(UserUuid(owner.uuid), &mut store),
        Err(Error::ConstraintViolation)
    ));
    // The owner and the thread both survive the rejected deletion.
    assert!(User::get_user(UserUuid(owner.uuid), &store).is_ok());
}

#[test]
fn delete_missing_user_is_not_found() {
    let mut store = Store::new();
    assert!(matches!(
        User::delete_by_id(UserUuid(7), &mut store),
        Err(Error::NotFound)
    ));
    assert!(matches!(
        User::delete_user_by_name(String::from("nobody"), &mut store),
        Err(Error::NotFound)
    ));
}

#[test]
fn fixtures_populate_every_table() {
    let mut store = Store::new();
    assert!(generate_test_fixtures(&mut store).is_ok());
    assert_eq!(store.users.len(), 1);
    assert_eq!(store.forums.len(), 2);
    assert_eq!(store.threads.len(), 6);
    assert_eq!(store.forums[0].title, "Joe Forum");
    assert_eq!(store.forums[1].title, "Off Topic");
    assert_eq!(store.users[0].user_name, "Admin");
    assert!(store.users[0].roles.admin);
    assert!(store.users[0].roles.moderator);
    assert!(!store.users[0].roles.publisher);
    let titles: Vec<&str> = store.threads.iter().map(|t| t.title.as_str()).collect();
    assert_eq!(
        titles,
        vec![
            "Thread Title",
            "Another Thread",
            "Yet Another Thread",
            "Thread Title",
            "Another Thread",
            "Yet Another Thread",
        ]
    );
    for (i, thread) in store.threads.iter().enumerate() {
        assert_eq!(thread.author_uuid, store.users[0].uuid);
        let expected_forum = if i < 3 { store.forums[0].id } else { store.forums[1].id };
        assert_eq!(thread.forum_id, expected_forum);
    }
}
