//! Wire DTOs of the backend API: projections of stored entities, and the
//! request bodies that create or change them.
use vstd::prelude::*;

use crate::article::Article;
use crate::article::ArticleChangeset;
use crate::article::ArticleData;
use crate::article::NewArticle;
use crate::chat::MessageData;
use crate::identifiers::AnswerUuid;
use crate::identifiers::ArticleUuid;
use crate::identifiers::ChatUuid;
use crate::identifiers::MessageUuid;
use crate::identifiers::QuestionUuid;
use crate::identifiers::UserUuid;
use crate::user::User;

verus! {

/// A user, as sent over the wire by the backend API.
#[derive(Debug, Clone)]
pub struct UserResponse {
    /// The user's key.
    pub uuid: UserUuid,
    /// The unique login name.
    pub user_name: String,
    /// The name shown beside the user's contributions.
    pub display_name: String,
}

/// What a stored user projects to on the wire: the credential and the
/// roles stay behind.
pub open spec fn user_response_of(u: User) -> UserResponse {
    UserResponse { uuid: UserUuid(u.uuid), user_name: u.user_name, display_name: u.display_name }
}

impl vstd::std_specs::convert::FromSpecImpl<User> for UserResponse {
    open spec fn obeys_from_spec() -> bool {
        true
    }

    open spec fn from_spec(t: User) -> UserResponse {
        user_response_of(t)
    }
}

impl From<User> for UserResponse {
    /// Projects a stored user onto the wire.
    fn from(t: User) -> (r: UserResponse) {
        UserResponse {
            uuid: UserUuid(t.uuid),
            user_name: t.user_name,
            display_name: t.display_name,
        }
    }
}

/// An answer, as sent over the wire.
#[derive(Debug, Clone)]
pub struct AnswerResponse {
    /// The answer's key.
    pub uuid: AnswerUuid,
    /// The text of the answer, absent for a pass.
    pub answer_text: Option<String>,
    /// The answer's author.
    pub author: UserResponse,
}

/// The body of a request to answer a question.
#[derive(Debug, Clone)]
pub struct NewAnswerRequest {
    /// The question being answered.
    pub question_uuid: QuestionUuid,
    /// The text of the answer, absent for a pass.
    pub answer_text: Option<String>,
}

/// The body of a request to create an article.
#[derive(Debug, Clone)]
pub struct NewArticleRequest {
    /// The title.
    pub title: String,
    /// The title converted for use in links.
    pub slug: String,
    /// The main content.
    pub body: String,
    /// The author; must be the requesting user.
    pub author_id: UserUuid,
}

impl vstd::std_specs::convert::FromSpecImpl<NewArticleRequest> for NewArticle {
    open spec fn obeys_from_spec() -> bool {
        true
    }

    open spec fn from_spec(t: NewArticleRequest) -> NewArticle {
        NewArticle { title: t.title, slug: t.slug, body: t.body, author_uuid: t.author_id.0 }
    }
}

impl From<NewArticleRequest> for NewArticle {
    /// The insert row a creation request asks for.
    fn from(t: NewArticleRequest) -> (r: NewArticle) {
        NewArticle { title: t.title, slug: t.slug, body: t.body, author_uuid: t.author_id.0 }
    }
}

/// The body of a request to change an article.
#[derive(Debug, Clone)]
pub struct UpdateArticleRequest {
    /// The key of the article to change.
    pub uuid: ArticleUuid,
    /// The title to change to, or absent for unchanged.
    pub title: Option<String>,
    /// The body to change to, or absent for unchanged.
    pub body: Option<String>,
}

impl vstd::std_specs::convert::FromSpecImpl<UpdateArticleRequest> for ArticleChangeset {
    open spec fn obeys_from_spec() -> bool {
        true
    }

    open spec fn from_spec(t: UpdateArticleRequest) -> ArticleChangeset {
        ArticleChangeset { uuid: t.uuid.0, title: t.title, body: t.body }
    }
}

impl From<UpdateArticleRequest> for ArticleChangeset {
    /// The changeset an update request asks for.
    fn from(t: UpdateArticleRequest) -> (r: ArticleChangeset) {
        ArticleChangeset { uuid: t.uuid.0, title: t.title, body: t.body }
    }
}

/// An article on the wire, without its author's details.
#[derive(Debug, Clone)]
pub struct MinimalArticleResponse {
    /// The article's key.
    pub uuid: ArticleUuid,
    /// The author's key.
    pub author_id: UserUuid,
    /// The title.
    pub title: String,
    /// The title converted for use in links.
    pub slug: String,
    /// The main content.
    pub body: String,
    /// Seconds since the epoch when published, absent while unpublished.
    pub publish_date: Option<i64>,
}

/// What a stored article projects to on the wire.
pub open spec fn minimal_article_response_of(a: Article) -> MinimalArticleResponse {
    MinimalArticleResponse {
        uuid: ArticleUuid(a.uuid),
        author_id: UserUuid(a.author_uuid),
        title: a.title,
        slug: a.slug,
        body: a.body,
        publish_date: a.publish_date,
    }
}

impl vstd::std_specs::convert::FromSpecImpl<Article> for MinimalArticleResponse {
    open spec fn obeys_from_spec() -> bool {
        true
    }

    open spec fn from_spec(t: Article) -> MinimalArticleResponse {
        minimal_article_response_of(t)
    }
}

impl From<Article> for MinimalArticleResponse {
    /// Projects a stored article onto the wire.
    fn from(t: Article) -> (r: MinimalArticleResponse) {
        MinimalArticleResponse {
            uuid: ArticleUuid(t.uuid),
            author_id: UserUuid(t.author_uuid),
            title: t.title,
            slug: t.slug,
            body: t.body,
            publish_date: t.publish_date,
        }
    }
}

/// An article joined with its author, as the detail view needs it.
#[derive(Debug, Clone)]
pub struct FullArticleResponse {
    /// The article's key.
    pub uuid: ArticleUuid,
    /// The author.
    pub author: UserResponse,
    /// The title.
    pub title: String,
    /// The title converted for use in links.
    pub slug: String,
    /// The main content.
    pub body: String,
    /// Seconds since the epoch when published, absent while unpublished.
    pub publish_date: Option<i64>,
}

/// What an article joined with its author projects to on the wire.
pub open spec fn full_article_response_of(d: ArticleData) -> FullArticleResponse {
    FullArticleResponse {
        uuid: ArticleUuid(d.article.uuid),
        author: user_response_of(d.user),
        title: d.article.title,
        slug: d.article.slug,
        body: d.article.body,
        publish_date: d.article.publish_date,
    }
}

impl vstd::std_specs::convert::FromSpecImpl<ArticleData> for FullArticleResponse {
    open spec fn obeys_from_spec() -> bool {
        true
    }

    open spec fn from_spec(t: ArticleData) -> FullArticleResponse {
        full_article_response_of(t)
    }
}

impl From<ArticleData> for FullArticleResponse {
    /// Projects an article and its author onto the wire.
    fn from(t: ArticleData) -> (r: FullArticleResponse) {
        FullArticleResponse {
            uuid: ArticleUuid(t.article.uuid),
            author: UserResponse::from(t.user),
            title: t.article.title,
            slug: t.article.slug,
            body: t.article.body,
            publish_date: t.article.publish_date,
        }
    }
}

/// What a list view shows of a published article.
#[derive(Debug, Clone)]
pub struct ArticlePreviewResponse {
    /// The article's key.
    pub uuid: ArticleUuid,
    /// The author.
    pub author: UserResponse,
    /// The title.
    pub title: String,
    /// Seconds since the epoch when published, absent while unpublished.
    pub publish_date: Option<i64>,
}

/// What an article joined with its author projects to in a list view.
pub open spec fn article_preview_of(d: ArticleData) -> ArticlePreviewResponse {
    ArticlePreviewResponse {
        uuid: ArticleUuid(d.article.uuid),
        author: user_response_of(d.user),
        title: d.article.title,
        publish_date: d.article.publish_date,
    }
}

impl vstd::std_specs::convert::FromSpecImpl<ArticleData> for ArticlePreviewResponse {
    open spec fn obeys_from_spec() -> bool {
        true
    }

    open spec fn from_spec(t: ArticleData) -> ArticlePreviewResponse {
        article_preview_of(t)
    }
}

impl From<ArticleData> for ArticlePreviewResponse {
    /// Projects an article and its author onto a list view row.
    fn from(t: ArticleData) -> (r: ArticlePreviewResponse) {
        ArticlePreviewResponse {
            uuid: ArticleUuid(t.article.uuid),
            author: UserResponse::from(t.user),
            title: t.article.title,
            publish_date: t.article.publish_date,
        }
    }
}

/// The body of a request to send a chat message.
#[derive(Debug, Clone)]
pub struct NewMessageRequest {
    /// The chat the message goes to.
    pub chat_uuid: ChatUuid,
    /// The sender; must be the requesting user.
    pub author_uuid: UserUuid,
    /// The text of the message.
    pub content: String,
}

/// A chat message, as sent over the wire.
#[derive(Debug, Clone)]
pub struct MessageResponse {
    /// The message's key.
    pub uuid: MessageUuid,
    /// The chat the message belongs to.
    pub chat_uuid: ChatUuid,
    /// The author.
    pub author: UserResponse,
    /// The text of the message.
    pub content: String,
    /// Seconds since the epoch when the message was sent.
    pub created_date: i64,
}

/// What a message joined with its author projects to on the wire.
pub open spec fn message_response_of(d: MessageData) -> MessageResponse {
    MessageResponse {
        uuid: MessageUuid(d.message.uuid),
        chat_uuid: ChatUuid(d.message.chat_uuid),
        author: user_response_of(d.author),
        content: d.message.content,
        created_date: d.message.created_date,
    }
}

impl vstd::std_specs::convert::FromSpecImpl<MessageData> for MessageResponse {
    open spec fn obeys_from_spec() -> bool {
        true
    }

    open spec fn from_spec(t: MessageData) -> MessageResponse {
        message_response_of(t)
    }
}

impl From<MessageData> for MessageResponse {
    /// Projects a message and its author onto the wire.
    fn from(t: MessageData) -> (r: MessageResponse) {
        MessageResponse {
            uuid: MessageUuid(t.message.uuid),
            chat_uuid: ChatUuid(t.message.chat_uuid),
            author: UserResponse::from(t.author),
            content: t.message.content,
            created_date: t.message.created_date,
        }
    }
}

} // verus!
