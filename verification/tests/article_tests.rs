use forum_core::article::Article;
use forum_core::article::NewArticle;
use forum_core::error::Error;
use forum_core::identifiers::ArticleUuid;
use forum_core::identifiers::UserUuid;
use forum_core::requests::NewUserRequest;
use forum_core::routes::article::create_article;
use forum_core::routes::article::get_article;
use forum_core::routes::article::get_published_articles;
use forum_core::routes::article::get_users_unpublished_articles;
use forum_core::routes::article::publish_article;
use forum_core::routes::article::unpublish_article;
use forum_core::routes::article::update_article;
use forum_core::store::Store;
use forum_core::user::User;
use forum_core::wire::NewArticleRequest;
use forum_core::wire::UpdateArticleRequest;

fn store_with_user(name: &str) -> (Store, UserUuid) {
    let mut store = Store::new();
    let user = User::create(
        NewUserRequest {
            user_name: String::from(name),
            display_name: String::from(name),
            plaintext_password: String::from("pw"),
        }
        .into(),
        &mut store,
    )
    .unwrap();
    (store, UserUuid(user.uuid))
}

/// Create an article titled "T" with body "B", publish it, list it, then
/// unpublish it and watch it leave the listing but stay fetchable.
#[test]
fn publish_listing_scenario() {
    let (mut store, u1) = store_with_user("U1");
    let created = create_article(
        NewArticleRequest {
            title: String::from("T"),
            slug: String::from("t"),
            body: String::from("B"),
            author_id: u1,
        },
        u1,
        &mut store,
    )
    .unwrap();
    let uuid = created.uuid;

    publish_article(uuid, u1, &mut store).unwrap();

    let page = get_published_articles(0, 10, &store).unwrap();
    assert_eq!(page.len(), 1);
    assert_eq!(page[0].uuid, uuid);
    assert_eq!(page[0].title, "T");
    assert!(page[0].publish_date.is_some());

    unpublish_article(uuid, u1, &mut store).unwrap();

    let page = get_published_articles(0, 10, &store).unwrap();
    assert!(page.is_empty());

    let full = get_article(uuid, &store).unwrap();
    assert_eq!(full.title, "T");
    assert_eq!(full.body, "B");
    assert!(full.publish_date.is_none());
}

#[test]
fn publish_round_trip_leaves_timestamp_absent() {
    let (mut store, u1) = store_with_user("roundtrip");
    let a = Article::create_article(
        NewArticle {
            title: String::from("x"),
            slug: String::from("x"),
            body: String::from("y"),
            author_uuid: u1.0,
        },
        &mut store,
    )
    .unwrap();
    let published = Article::set_publish_status(ArticleUuid(a.uuid), true, &mut store).unwrap();
    assert!(published.publish_date.is_some());
    let unpublished = Article::set_publish_status(ArticleUuid(a.uuid), false, &mut store).unwrap();
    assert!(unpublished.publish_date.is_none());

    let drafts = get_users_unpublished_articles(u1, &store).unwrap();
    assert_eq!(drafts.len(), 1);
    assert_eq!(drafts[0].uuid.0, a.uuid);

    let page = get_published_articles(0, 10, &store).unwrap();
    assert!(page.is_empty());
}

#[test]
fn published_listing_orders_by_publish_timestamp() {
    let (mut store, u1) = store_with_user("orderer");
    let mut uuids = Vec::new();
    for title in ["first", "second", "third"] {
        let a = Article::create_article(
            NewArticle {
                title: String::from(title),
                slug: String::from(title),
                body: String::from("b"),
                author_uuid: u1.0,
            },
            &mut store,
        )
        .unwrap();
        uuids.push(a.uuid);
    }
    // Stamp explicit timestamps out of creation order.
    Article::set_publish_value(ArticleUuid(uuids[0]), Some(300), &mut store).unwrap();
    Article::set_publish_value(ArticleUuid(uuids[1]), Some(100), &mut store).unwrap();
    Article::set_publish_value(ArticleUuid(uuids[2]), Some(200), &mut store).unwrap();
    let page = get_published_articles(0, 10, &store).unwrap();
    let titles: Vec<&str> = page.iter().map(|p| p.title.as_str()).collect();
    assert_eq!(titles, vec!["second", "third", "first"]);
    // A smaller window keeps the same order and the page length bound.
    let page = get_published_articles(0, 2, &store).unwrap();
    assert_eq!(page.len(), 2);
    assert_eq!(page[0].title, "second");
    assert_eq!(page[1].title, "third");
}

#[test]
fn update_applies_only_present_fields() {
    let (mut store, u1) = store_with_user("updater");
    let a = Article::create_article(
        NewArticle {
            title: String::from("old title"),
            slug: String::from("s"),
            body: String::from("old body"),
            author_uuid: u1.0,
        },
        &mut store,
    )
    .unwrap();
    let updated = update_article(
        UpdateArticleRequest {
            uuid: ArticleUuid(a.uuid),
            title: Some(String::from("new title")),
            body: None,
        },
        u1,
        &mut store,
    )
    .unwrap();
    assert_eq!(updated.title, "new title");
    assert_eq!(updated.body, "old body");
    assert_eq!(updated.slug, "s");
}

/// A mutating request from a non-owner yields Forbidden whether or not
/// the target exists.
#[test]
fn non_owner_mutations_are_forbidden() {
    let (mut store, owner) = store_with_user("the-owner");
    let intruder = UserUuid(owner.0.wrapping_add(1));
    let a = Article::create_article(
        NewArticle {
            title: String::from("mine"),
            slug: String::from("mine"),
            body: String::from("b"),
            author_uuid: owner.0,
        },
        &mut store,
    )
    .unwrap();
    let existing = ArticleUuid(a.uuid);
    let missing = ArticleUuid(a.uuid.wrapping_add(1));

    for target in [existing, missing] {
        assert!(matches!(
            publish_article(target, intruder, &mut store),
            Err(Error::Forbidden)
        ));
        assert!(matches!(
            unpublish_article(target, intruder, &mut store),
            Err(Error::Forbidden)
        ));
        assert!(matches!(
            update_article(
                UpdateArticleRequest { uuid: target, title: Some(String::from("x")), body: None },
                intruder,
                &mut store,
            ),
            Err(Error::Forbidden)
        ));
    }
    assert!(matches!(
        create_article(
            NewArticleRequest {
                title: String::from("t"),
                slug: String::from("t"),
                body: String::from("b"),
                author_id: owner,
            },
            intruder,
            &mut store,
        ),
        Err(Error::Forbidden)
    ));
    // The article is untouched.
    let full = get_article(existing, &store).unwrap();
    assert_eq!(full.title, "mine");
    assert!(full.publish_date.is_none());
}

#[test]
fn listing_routes_report_client_errors() {
    let (store, u1) = store_with_user("lister");
    assert!(matches!(
        get_published_articles(0, 0, &store),
        Err(Error::BadRequest)
    ));
    assert!(matches!(
        get_published_articles(-1, 10, &store),
        Err(Error::BadRequest)
    ));
    assert!(matches!(
        get_users_unpublished_articles(UserUuid(u1.0.wrapping_add(1)), &store),
        Err(Error::NotFound)
    ));
    assert!(matches!(
        get_article(ArticleUuid(12345), &store),
        Err(Error::NotFound)
    ));
}

#[test]
fn delete_article_returns_the_removed_row() {
    let (mut store, u1) = store_with_user("deleter");
    let a = Article::create_article(
        NewArticle {
            title: String::from("gone"),
            slug: String::from("gone"),
            body: String::from("b"),
            author_uuid: u1.0,
        },
        &mut store,
    )
    .unwrap();
    let removed = Article::delete_article(ArticleUuid(a.uuid), &mut store).unwrap();
    assert_eq!(removed.title, "gone");
    assert!(matches!(
        Article::delete_article(ArticleUuid(a.uuid), &mut store),
        Err(Error::NotFound)
    ));
}
