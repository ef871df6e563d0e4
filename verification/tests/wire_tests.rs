use forum_core::datatypes::PostData;
use forum_core::datatypes::UserData;
use forum_core::requests::PostResponse;
use forum_core::requests::UserResponse;
use forum_core::wire::NewArticleRequest;
use forum_core::article::NewArticle;
use forum_core::article::ArticleChangeset;
use forum_core::identifiers::ArticleUuid;
use forum_core::identifiers::UserUuid;
use forum_core::wire::UpdateArticleRequest;

fn wire_user(id: i32, name: &str) -> UserResponse {
    UserResponse {
        user_name: String::from(name),
        display_name: String::from(name),
        id,
    }
}

#[test]
fn user_responses_convert_to_frontend_data() {
    let data = UserData::from(wire_user(4, "carol"));
    assert_eq!(data.id, 4);
    assert_eq!(data.user_name, "carol");
    assert_eq!(data.display_name, "carol");
}

#[test]
fn post_responses_convert_with_their_replies() {
    let leaf = PostResponse {
        id: 2,
        author: wire_user(1, "replier"),
        created_date: 20,
        modified_date: Some(25),
        content: String::from("a reply"),
        censored: false,
        children: Vec::new(),
    };
    let root = PostResponse {
        id: 1,
        author: wire_user(9, "poster"),
        created_date: 10,
        modified_date: None,
        content: String::from("a post"),
        censored: true,
        children: vec![leaf],
    };
    let data = PostData::from(root);
    assert_eq!(data.id, 1);
    assert_eq!(data.author.id, 9);
    assert_eq!(data.created_date, 10);
    assert_eq!(data.modified_date, None);
    assert_eq!(data.content, "a post");
    assert!(data.censored);
    assert_eq!(data.children.len(), 1);
    let child = &data.children[0];
    assert_eq!(child.id, 2);
    assert_eq!(child.author.user_name, "replier");
    assert_eq!(child.modified_date, Some(25));
    assert_eq!(child.content, "a reply");
    assert!(!child.censored);
    assert!(child.children.is_empty());
}

#[test]
fn article_requests_convert_to_rows_and_changesets() {
    let row = NewArticle::from(NewArticleRequest {
        title: String::from("T"),
        slug: String::from("t"),
        body: String::from("B"),
        author_id: UserUuid(11),
    });
    assert_eq!(row.title, "T");
    assert_eq!(row.slug, "t");
    assert_eq!(row.body, "B");
    assert_eq!(row.author_uuid, 11);

    let cs = ArticleChangeset::from(UpdateArticleRequest {
        uuid: ArticleUuid(6),
        title: Some(String::from("T2")),
        body: None,
    });
    assert_eq!(cs.uuid, 6);
    assert_eq!(cs.title, Some(String::from("T2")));
    assert_eq!(cs.body, None);
}
