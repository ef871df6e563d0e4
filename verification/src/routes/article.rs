//! The article routes. Mutating routes fail closed: a request from
//! anyone but the target's owner is forbidden, and a missing target
//! looks exactly the same, so a non-owner learns nothing about whether
//! the target exists.
use vstd::prelude::*;

use crate::article::Article;
use crate::article::ArticleChangeset;
use crate::article::NewArticle;
use crate::article::article_data_seq;
use crate::article::publish_applied;
use crate::article::unpublished_for;
use crate::article::with_changeset;
use crate::article::with_publish;
use crate::error::Error;
use crate::identifiers::ArticleUuid;
use crate::identifiers::UserUuid;
use crate::pagination::page_window;
use crate::store::Store;
use crate::store::has_key;
use crate::store::key_idx;
use crate::store::row_with;
use crate::wire::FullArticleResponse;
use crate::wire::MinimalArticleResponse;
use crate::wire::ArticlePreviewResponse;
use crate::wire::NewArticleRequest;
use crate::wire::UpdateArticleRequest;
use crate::wire::article_preview_of;
use crate::wire::full_article_response_of;
use crate::wire::minimal_article_response_of;

verus! {

/// Whether the article exists and the acting user owns it: what every
/// mutating article route demands.
pub open spec fn article_owned_by(s: Store, uuid: u128, user: u128) -> bool {
    has_key(s.articles@, uuid) && row_with(s.articles@, uuid).author_uuid == user
}

/// What the update route answers: forbidden unless the target exists and
/// the acting user owns it, else the changed article on the wire.
pub open spec fn update_article_outcome(s: Store, request: UpdateArticleRequest, user: u128)
    -> Result<MinimalArticleResponse, Error> {
    if !article_owned_by(s, request.uuid.0, user) {
        Err(Error::Forbidden)
    } else {
        let k = key_idx(s.articles@, request.uuid.0);
        let cs = ArticleChangeset { uuid: request.uuid.0, title: request.title, body: request.body };
        Ok(minimal_article_response_of(with_changeset(s.articles@[k], cs)))
    }
}

/// What the unpublish route answers: forbidden unless owned, else
/// success with no body.
pub open spec fn unpublish_article_outcome(s: Store, uuid: u128, user: u128) -> Result<(), Error> {
    if !article_owned_by(s, uuid, user) {
        Err(Error::Forbidden)
    } else {
        Ok(())
    }
}

/// Gets an article by key, joined with its author.
pub fn get_article(article_uuid: ArticleUuid, store: &Store) -> (r: Result<
    FullArticleResponse,
    Error,
>)
    requires
        store.wf(),
    ensures
        !has_key(store.articles@, article_uuid.0) ==> r == Err::<FullArticleResponse, Error>(
            Error::NotFound,
        ),
        has_key(store.articles@, article_uuid.0) ==> r == Ok::<FullArticleResponse, Error>(
            full_article_response_of(
                crate::article::ArticleData {
                    article: row_with(store.articles@, article_uuid.0),
                    user: row_with(
                        store.users@,
                        row_with(store.articles@, article_uuid.0).author_uuid,
                    ),
                },
            ),
        ),
{
    match Article::get_article_data(article_uuid, store) {
        Ok(data) => Ok(FullArticleResponse::from(data)),
        Err(e) => Err(e),
    }
}

/// Gets one page of the published articles as list-view previews,
/// ordered by publish timestamp.
pub fn get_published_articles(index: i32, page_size: i32, store: &Store) -> (r: Result<
    Vec<ArticlePreviewResponse>,
    Error,
>)
    requires
        store.wf(),
    ensures
        index < 0 || page_size < 1 ==> r == Err::<Vec<ArticlePreviewResponse>, Error>(
            Error::BadRequest,
        ),
        index >= 0 && page_size >= 1 ==> (r matches Ok(v) && {
            let page = page_window(article_data_seq(*store), index as nat, page_size as nat);
            &&& v@.len() == page.len()
            &&& v@.len() <= page_size
            &&& forall|i: int| 0 <= i < page.len() ==> v@[i] == article_preview_of(#[trigger] page[i])
        }),
{
    let data = match Article::get_paginated(index, page_size, store) {
        Ok(d) => d,
        Err(e) => {
            return Err(e);
        },
    };
    let ghost page = data@;
    let mut out: Vec<ArticlePreviewResponse> = Vec::new();
    let mut data = data;
    let mut i: usize = 0;
    let n = data.len();
    while i < n
        invariant
            i <= n,
            n == page.len(),
            n == data@.len() + i,
            data@ == page.skip(i as int),
            out@.len() == i,
            forall|j: int| 0 <= j < i ==> out@[j] == article_preview_of(#[trigger] page[j]),
        decreases n - i,
    {
        let d = data.remove(0);
        proof {
            assert(page.skip(i as int)[0] == page[i as int]);
            assert(page.skip(i as int).remove(0) =~= page.skip(i + 1));
        }
        out.push(ArticlePreviewResponse::from(d));
        i += 1;
    }
    Ok(out)
}

/// Gets the unpublished articles of the logged-in user, as the owner's
/// drafts view shows them.
pub fn get_users_unpublished_articles(logged_in_user: UserUuid, store: &Store) -> (r: Result<
    Vec<MinimalArticleResponse>,
    Error,
>)
    requires
        store.wf(),
    ensures
        !has_key(store.users@, logged_in_user.0) ==> r == Err::<
            Vec<MinimalArticleResponse>,
            Error,
        >(Error::NotFound),
        has_key(store.users@, logged_in_user.0) ==> (r matches Ok(v) && {
            let drafts = unpublished_for(*store, logged_in_user.0);
            &&& v@.len() == drafts.len()
            &&& forall|i: int|
                0 <= i < drafts.len() ==> v@[i] == minimal_article_response_of(#[trigger] drafts[i])
        }),
{
    let articles = match Article::get_unpublished_articles_for_user(logged_in_user, store) {
        Ok(a) => a,
        Err(e) => {
            return Err(e);
        },
    };
    let ghost drafts = articles@;
    let mut out: Vec<MinimalArticleResponse> = Vec::new();
    let mut articles = articles;
    let mut i: usize = 0;
    let n = articles.len();
    while i < n
        invariant
            i <= n,
            n == drafts.len(),
            n == articles@.len() + i,
            articles@ == drafts.skip(i as int),
            out@.len() == i,
            forall|j: int|
                0 <= j < i ==> out@[j] == minimal_article_response_of(#[trigger] drafts[j]),
        decreases n - i,
    {
        let a = articles.remove(0);
        proof {
            assert(drafts.skip(i as int)[0] == drafts[i as int]);
            assert(drafts.skip(i as int).remove(0) =~= drafts.skip(i + 1));
        }
        out.push(MinimalArticleResponse::from(a));
        i += 1;
    }
    Ok(out)
}

/// Creates an article. The request's author must be the requesting user,
/// or the route is forbidden before the store is touched.
pub fn create_article(new_article: NewArticleRequest, user: UserUuid, store: &mut Store) -> (r:
    Result<MinimalArticleResponse, Error>)
    requires
        old(store).wf(),
    ensures
        final(store).wf(),
        new_article.author_id != user ==> r == Err::<MinimalArticleResponse, Error>(
            Error::Forbidden,
        ) && *final(store) == *old(store),
        new_article.author_id == user && !has_key(old(store).users@, user.0) ==> r == Err::<
            MinimalArticleResponse,
            Error,
        >(Error::ConstraintViolation) && *final(store) == *old(store),
        r matches Err(e) ==> (e == Error::Forbidden || e == Error::ConstraintViolation) && *final(store)
            == *old(store),
        r == Err::<MinimalArticleResponse, Error>(Error::ConstraintViolation) ==> !has_key(
            old(store).users@,
            user.0,
        ) || old(store).articles@.len() > 0,
        r matches Ok(resp) ==> {
            &&& new_article.author_id == user
            &&& resp.author_id == user
            &&& resp.title == new_article.title
            &&& resp.slug == new_article.slug
            &&& resp.body == new_article.body
            &&& resp.publish_date is None
            &&& !has_key(old(store).articles@, resp.uuid.0)
            &&& final(store).articles@ == old(store).articles@.push(
                crate::article::created_article(
                    NewArticle {
                        title: new_article.title,
                        slug: new_article.slug,
                        body: new_article.body,
                        author_uuid: new_article.author_id.0,
                    },
                    resp.uuid.0,
                ),
            )
            &&& final(store).users@ == old(store).users@
        },
{
    if new_article.author_id.0 != user.0 {
        return Err(Error::Forbidden);
    }
    let row: NewArticle = NewArticle::from(new_article);
    match Article::create_article(row, store) {
        Ok(article) => Ok(MinimalArticleResponse::from(article)),
        Err(e) => Err(e),
    }
}

/// Changes an article. Forbidden unless the target exists and the acting
/// user owns it; the ownership check precedes the mutation, and a
/// missing target is indistinguishable from someone else's.
pub fn update_article(update_article_request: UpdateArticleRequest, user: UserUuid, store: &mut Store)
    -> (r: Result<MinimalArticleResponse, Error>)
    requires
        old(store).wf(),
    ensures
        final(store).wf(),
        r == update_article_outcome(*old(store), update_article_request, user.0),
        !article_owned_by(*old(store), update_article_request.uuid.0, user.0) ==> *final(store)
            == *old(store),
        article_owned_by(*old(store), update_article_request.uuid.0, user.0) ==> {
            let k = key_idx(old(store).articles@, update_article_request.uuid.0);
            let cs = ArticleChangeset {
                uuid: update_article_request.uuid.0,
                title: update_article_request.title,
                body: update_article_request.body,
            };
            &&& final(store).articles@ == old(store).articles@.update(
                k,
                with_changeset(old(store).articles@[k], cs),
            )
            &&& final(store).users@ == old(store).users@
        },
{
    let article_to_update: Article = match Article::get_article(
        ArticleUuid(update_article_request.uuid.0),
        store,
    ) {
        Ok(a) => a,
        Err(_) => {
            return Err(Error::Forbidden);
        },
    };
    if article_to_update.author_uuid != user.0 {
        return Err(Error::Forbidden);
    }
    let changeset: ArticleChangeset = ArticleChangeset::from(update_article_request);
    match Article::update_article(changeset, store) {
        Ok(article) => Ok(MinimalArticleResponse::from(article)),
        Err(e) => Err(e),
    }
}

/// Publishes an article, stamping the current time as its publish date.
/// Forbidden unless the target exists and the acting user owns it.
pub fn publish_article(article_uuid: ArticleUuid, user: UserUuid, store: &mut Store) -> (r: Result<
    (),
    Error,
>)
    requires
        old(store).wf(),
    ensures
        final(store).wf(),
        !article_owned_by(*old(store), article_uuid.0, user.0) ==> r == Err::<(), Error>(
            Error::Forbidden,
        ) && *final(store) == *old(store),
        article_owned_by(*old(store), article_uuid.0, user.0) ==> r == Ok::<(), Error>(())
            && exists|t: i64|
            #[trigger] publish_applied(
                *old(store),
                *final(store),
                article_uuid.0,
                t,
                Ok::<Article, Error>(
                    with_publish(
                        old(store).articles@[key_idx(old(store).articles@, article_uuid.0)],
                        Some(t),
                    ),
                ),
            ),
{
    let article_to_update: Article = match Article::get_article(article_uuid, store) {
        Ok(a) => a,
        Err(_) => {
            return Err(Error::Forbidden);
        },
    };
    if article_to_update.author_uuid != user.0 {
        return Err(Error::Forbidden);
    }
    match Article::set_publish_status(article_uuid, true, store) {
        Ok(_) => Ok(()),
        Err(e) => Err(e),
    }
}

/// Unpublishes an article, clearing its publish date. Forbidden unless
/// the target exists and the acting user owns it.
pub fn unpublish_article(article_uuid: ArticleUuid, user: UserUuid, store: &mut Store) -> (r:
    Result<(), Error>)
    requires
        old(store).wf(),
    ensures
        final(store).wf(),
        r == unpublish_article_outcome(*old(store), article_uuid.0, user.0),
        !article_owned_by(*old(store), article_uuid.0, user.0) ==> *final(store) == *old(store),
        article_owned_by(*old(store), article_uuid.0, user.0) ==> {
            let k = key_idx(old(store).articles@, article_uuid.0);
            &&& final(store).articles@ == old(store).articles@.update(
                k,
                with_publish(old(store).articles@[k], None),
            )
            &&& final(store).users@ == old(store).users@
        },
{
    let article_to_update: Article = match Article::get_article(article_uuid, store) {
        Ok(a) => a,
        Err(_) => {
            return Err(Error::Forbidden);
        },
    };
    if article_to_update.author_uuid != user.0 {
        return Err(Error::Forbidden);
    }
    match Article::set_publish_status(article_uuid, false, store) {
        Ok(_) => Ok(()),
        Err(e) => Err(e),
    }
}

/// A mutating article request from anyone but the owner answers
/// Forbidden, whether or not the target exists: the outcome of update
/// and unpublish is Forbidden for every non-owner, and the creation
/// route is forbidden whenever the named author is not the requester.
pub proof fn lemma_non_owner_always_forbidden(
    s: Store,
    request: UpdateArticleRequest,
    uuid: u128,
    user: u128,
)
    requires
        !article_owned_by(s, request.uuid.0, user),
        !article_owned_by(s, uuid, user),
    ensures
        update_article_outcome(s, request, user) == Err::<MinimalArticleResponse, Error>(
            Error::Forbidden,
        ),
        unpublish_article_outcome(s, uuid, user) == Err::<(), Error>(Error::Forbidden),
{
}

} // verus!
