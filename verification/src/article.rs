//! The articles table: create, fetch, change, delete, publish and list,
//! with the publish timestamp as the sole signal of published status.
use vstd::prelude::*;

use crate::clock::now_timestamp;
use crate::error::Error;
use crate::identifiers::ArticleUuid;
use crate::identifiers::UserUuid;
use crate::identifiers::fresh_uuid;
use crate::pagination::page_window;
use crate::pagination::paginate;
use crate::sorting::SortPair;
use crate::sorting::lemma_sort_pairs_ensures;
use crate::sorting::pairs_sorted;
use crate::sorting::sort_pairs;
use crate::sorting::sort_pairs_exec;
use crate::store::Row;
use crate::store::Store;
use crate::store::find_row;
use crate::store::has_key;
use crate::store::key_idx;
use crate::store::lemma_filter_element;
use crate::store::lemma_filter_take_step;
use crate::store::lemma_row_with;
use crate::store::row_with;
use crate::user::User;

verus! {

/// The store's representation of an article.
#[derive(Debug)]
pub struct Article {
    /// The primary key.
    pub uuid: u128,
    /// The user who authored the article.
    pub author_uuid: u128,
    /// The title, shown wherever the article is suggested.
    pub title: String,
    /// The title converted for use in links.
    pub slug: String,
    /// The main content, rendered as markdown.
    pub body: String,
    /// Seconds since the epoch when the article was published. Its
    /// presence is the sole signal of published status, and every
    /// published listing orders by it.
    pub publish_date: Option<i64>,
}

impl Clone for Article {
    /// A clone is the same article, field for field.
    fn clone(&self) -> (r: Self)
        ensures
            r == *self,
    {
        Article {
            uuid: self.uuid,
            author_uuid: self.author_uuid,
            title: self.title.clone(),
            slug: self.slug.clone(),
            body: self.body.clone(),
            publish_date: match self.publish_date {
                Some(d) => Some(d),
                None => None,
            },
        }
    }
}

impl Row for Article {
    open spec fn row_key(&self) -> u128 {
        self.uuid
    }

    fn key(&self) -> u128 {
        self.uuid
    }
}

/// A partial update of one article: only present fields are applied,
/// absent fields leave stored values untouched.
#[derive(Debug, Clone)]
pub struct ArticleChangeset {
    /// The key of the article to change.
    pub uuid: u128,
    /// The title to change to, or absent for unchanged.
    pub title: Option<String>,
    /// The body to change to, or absent for unchanged.
    pub body: Option<String>,
}

/// An article to be inserted: everything but the server-assigned key and
/// the publish date, which a fresh article does not have.
#[derive(Debug, Clone)]
pub struct NewArticle {
    /// The title.
    pub title: String,
    /// The title converted for use in links.
    pub slug: String,
    /// The main content.
    pub body: String,
    /// The user who authors the article.
    pub author_uuid: u128,
}

/// An article joined with its author.
#[derive(Debug, Clone)]
pub struct ArticleData {
    /// The article itself.
    pub article: Article,
    /// The article's author.
    pub user: User,
}

/// The row that inserting `new` under the key `uuid` stores: fresh
/// articles are unpublished.
pub open spec fn created_article(new: NewArticle, uuid: u128) -> Article {
    Article {
        uuid,
        author_uuid: new.author_uuid,
        title: new.title,
        slug: new.slug,
        body: new.body,
        publish_date: None,
    }
}

/// The article after a changeset: present fields replace stored ones,
/// absent fields leave them untouched.
pub open spec fn with_changeset(a: Article, cs: ArticleChangeset) -> Article {
    Article {
        title: if cs.title is Some {
            cs.title.unwrap()
        } else {
            a.title
        },
        body: if cs.body is Some {
            cs.body.unwrap()
        } else {
            a.body
        },
        ..a
    }
}

/// The article with its publish timestamp set or cleared.
pub open spec fn with_publish(a: Article, value: Option<i64>) -> Article {
    Article { publish_date: value, ..a }
}

/// How publishing with the timestamp `ts` relates the store before (`s`)
/// and after (`t`) and the result `r`.
pub open spec fn publish_applied(s: Store, t: Store, uuid: u128, ts: i64, r: Result<
    Article,
    Error,
>) -> bool {
    let k = key_idx(s.articles@, uuid);
    let updated = with_publish(s.articles@[k], Some(ts));
    &&& r == Ok::<Article, Error>(updated)
    &&& t.articles@ == s.articles@.update(k, updated)
    &&& t.users@ == s.users@
}

/// The published articles, in table order.
pub open spec fn published_articles(s: Store) -> Seq<Article> {
    s.articles@.filter(|a: Article| a.publish_date is Some)
}

/// The unpublished articles of one author, in table order.
pub open spec fn unpublished_for(s: Store, author: u128) -> Seq<Article> {
    s.articles@.filter(|a: Article| a.author_uuid == author && a.publish_date is None)
}

/// The published articles tagged for sorting: publish timestamp as the
/// key, table position as the tie-break.
pub open spec fn article_pairs(pubs: Seq<Article>) -> Seq<SortPair> {
    Seq::new(pubs.len(), |i: int| (pubs[i].publish_date.unwrap(), i as usize))
}

/// The order in which the published listing presents its rows.
pub open spec fn article_order(s: Store) -> Seq<SortPair> {
    sort_pairs(article_pairs(published_articles(s)))
}

/// The full published listing: every published article joined with its
/// author, ordered by publish timestamp with ties in table order.
pub open spec fn article_data_seq(s: Store) -> Seq<ArticleData> {
    let pubs = published_articles(s);
    let order = article_order(s);
    Seq::new(
        order.len(),
        |i: int|
            ArticleData {
                article: pubs[order[i].1 as int],
                user: row_with(s.users@, pubs[order[i].1 as int].author_uuid),
            },
    )
}

/// Every row the published listing presents is published, and the
/// listing is ordered by publish timestamp.
pub proof fn lemma_article_data_seq(s: Store)
    requires
        s.articles@.len() <= usize::MAX,
    ensures
        article_data_seq(s).len() == published_articles(s).len(),
        forall|i: int|
            0 <= i < article_data_seq(s).len() ==> (#[trigger] article_data_seq(
                s,
            )[i]).article.publish_date is Some,
        forall|i: int, j: int|
            0 <= i < j < article_data_seq(s).len()
                ==> (#[trigger] article_data_seq(s)[i]).article.publish_date.unwrap() <= (
            #[trigger] article_data_seq(s)[j]).article.publish_date.unwrap(),
{
    let pubs = published_articles(s);
    let pairs = article_pairs(pubs);
    let order = article_order(s);
    lemma_sort_pairs_ensures(pairs);
    assert forall|i: int| 0 <= i < order.len() implies 0 <= (#[trigger] order[i]).1 < pubs.len()
        && pubs[order[i].1 as int].publish_date is Some && pubs[order[i].1 as int
    ].publish_date.unwrap() == order[i].0 by {
        assert(pairs.contains(order[i]));
        let w = choose|w: int| 0 <= w < pairs.len() && pairs[w] == order[i];
        lemma_filter_element(s.articles@, |a: Article| a.publish_date is Some, w);
    }
    assert forall|i: int, j: int|
        0 <= i < j < article_data_seq(s).len() implies (#[trigger] article_data_seq(
        s,
    )[i]).article.publish_date.unwrap() <= (#[trigger] article_data_seq(
        s,
    )[j]).article.publish_date.unwrap() by {
        assert(pairs_sorted(order));
        assert(crate::sorting::pair_le(order[i], order[j]));
    }
}

/// Creating an article and then fetching it by its key returns a row
/// structurally equal to the created input: every caller-supplied field
/// is stored unchanged, and only the key and the publish timestamp are
/// server-assigned.
pub proof fn lemma_create_then_get(s: Seq<Article>, new: NewArticle, uuid: u128)
    requires
        crate::store::unique_keys(s),
        !has_key(s, uuid),
    ensures
        has_key(s.push(created_article(new, uuid)), uuid),
        row_with(s.push(created_article(new, uuid)), uuid) == created_article(new, uuid),
        created_article(new, uuid).title == new.title,
        created_article(new, uuid).slug == new.slug,
        created_article(new, uuid).body == new.body,
        created_article(new, uuid).author_uuid == new.author_uuid,
{
    let t = s.push(created_article(new, uuid));
    assert forall|i: int, j: int| 0 <= i < j < t.len() implies t[i].row_key()
        != t[j].row_key() by {
        if j == t.len() - 1 {
            assert(!has_key(s, uuid));
        }
    }
    lemma_row_with(t, uuid, t.len() - 1);
}

/// Publishing and then unpublishing an article leaves its publish
/// timestamp absent and every other field as it started: the round trip
/// is the identity but for clearing the timestamp. Afterwards the
/// author's unpublished listing includes the article, and the published
/// listing excludes it.
pub proof fn lemma_publish_round_trip(s0: Store, s1: Store, s2: Store, uuid: u128, ts: i64)
    requires
        s0.wf(),
        has_key(s0.articles@, uuid),
        s1.articles@ == s0.articles@.update(
            key_idx(s0.articles@, uuid),
            with_publish(s0.articles@[key_idx(s0.articles@, uuid)], Some(ts)),
        ),
        s2.articles@ == s1.articles@.update(
            key_idx(s1.articles@, uuid),
            with_publish(s1.articles@[key_idx(s1.articles@, uuid)], None),
        ),
        s2.users@ == s0.users@,
    ensures
        has_key(s2.articles@, uuid),
        row_with(s2.articles@, uuid) == with_publish(row_with(s0.articles@, uuid), None),
        row_with(s2.articles@, uuid).publish_date is None,
        unpublished_for(s2, row_with(s0.articles@, uuid).author_uuid).contains(
            row_with(s2.articles@, uuid),
        ),
        forall|i: int| 0 <= i < published_articles(s2).len() ==> (#[trigger] published_articles(
            s2,
        )[i]).uuid != uuid,
{
    let k = key_idx(s0.articles@, uuid);
    assert(0 <= k < s0.articles@.len() && s0.articles@[k].row_key() == uuid);
    assert forall|i: int, j: int| 0 <= i < j < s1.articles@.len() implies s1.articles@[i].row_key()
        != s1.articles@[j].row_key() by {
        assert(s0.articles@[i].row_key() != s0.articles@[j].row_key());
    }
    lemma_row_with(s1.articles@, uuid, k);
    assert forall|i: int, j: int| 0 <= i < j < s2.articles@.len() implies s2.articles@[i].row_key()
        != s2.articles@[j].row_key() by {
        assert(s0.articles@[i].row_key() != s0.articles@[j].row_key());
    }
    lemma_row_with(s2.articles@, uuid, k);
    let a2 = s2.articles@[k];
    assert(a2 == with_publish(s0.articles@[k], None));
    let author = s0.articles@[k].author_uuid;
    let upred = |a: Article| a.author_uuid == author && a.publish_date is None;
    assert(upred(a2));
    broadcast use vstd::seq_lib::group_filter_ensures;

    assert(unpublished_for(s2, author).contains(a2));
    let ppred = |a: Article| a.publish_date is Some;
    assert forall|i: int| 0 <= i < published_articles(s2).len() implies (
    #[trigger] published_articles(s2)[i]).uuid != uuid by {
        lemma_filter_element(s2.articles@, ppred, i);
        let j = choose|j: int|
            0 <= j < s2.articles@.len() && s2.articles@[j] == published_articles(s2)[i];
        if s2.articles@[j].uuid == uuid {
            if j != k {
                assert(s2.articles@[j].row_key() != s2.articles@[k].row_key());
            }
        }
    }
}

impl Article {
    /// Fetches an article by key.
    pub fn get_article(uuid: ArticleUuid, store: &Store) -> (r: Result<Article, Error>)
        requires
            store.wf(),
        ensures
            has_key(store.articles@, uuid.0) ==> r == Ok::<Article, Error>(
                row_with(store.articles@, uuid.0),
            ),
            !has_key(store.articles@, uuid.0) ==> r == Err::<Article, Error>(Error::NotFound),
    {
        match find_row(&store.articles, uuid.0) {
            Some(i) => {
                proof {
                    lemma_row_with(store.articles@, uuid.0, i as int);
                }
                Ok(store.articles[i].clone())
            },
            None => Err(Error::NotFound),
        }
    }

    /// Deletes an article by key. Nothing references articles, so a
    /// present article always goes.
    pub fn delete_article(uuid: ArticleUuid, store: &mut Store) -> (r: Result<Article, Error>)
        requires
            old(store).wf(),
        ensures
            final(store).wf(),
            !has_key(old(store).articles@, uuid.0) ==> r == Err::<Article, Error>(Error::NotFound)
                && *final(store) == *old(store),
            has_key(old(store).articles@, uuid.0) ==> {
                &&& r == Ok::<Article, Error>(row_with(old(store).articles@, uuid.0))
                &&& final(store).articles@ == old(store).articles@.remove(
                    key_idx(old(store).articles@, uuid.0),
                )
                &&& final(store).users@ == old(store).users@
                &&& final(store).forums@ == old(store).forums@
                &&& final(store).threads@ == old(store).threads@
                &&& final(store).posts@ == old(store).posts@
                &&& final(store).chats@ == old(store).chats@
                &&& final(store).messages@ == old(store).messages@
                &&& final(store).next_forum_id == old(store).next_forum_id
                &&& final(store).next_thread_id == old(store).next_thread_id
                &&& final(store).next_post_id == old(store).next_post_id
            },
    {
        let i = match find_row(&store.articles, uuid.0) {
            Some(i) => i,
            None => {
                return Err(Error::NotFound);
            },
        };
        proof {
            lemma_row_with(store.articles@, uuid.0, i as int);
        }
        let removed = store.articles.remove(i);
        proof {
            let arts = store.articles@;
            assert forall|x: int, y: int|
                0 <= x < y < arts.len() implies arts[x].row_key() != arts[y].row_key() by {
                assert(arts[x] == old(store).articles@[if x < i {
                    x
                } else {
                    x + 1
                }]);
                assert(arts[y] == old(store).articles@[if y < i {
                    y
                } else {
                    y + 1
                }]);
            }
            assert forall|x: int| 0 <= x < arts.len() implies has_key(
                store.users@,
                (#[trigger] arts[x]).author_uuid,
            ) by {
                assert(arts[x] == old(store).articles@[if x < i {
                    x
                } else {
                    x + 1
                }]);
            }
        }
        Ok(removed)
    }

    /// Inserts `new` under the key `uuid`: the one verified step of
    /// creation, exact for every key the caller may bring. A missing
    /// author violates the ownership foreign key; a key already in use
    /// violates uniqueness.
    pub fn create_article_with_uuid(new: NewArticle, uuid: u128, store: &mut Store) -> (r: Result<
        Article,
        Error,
    >)
        requires
            old(store).wf(),
        ensures
            final(store).wf(),
            !has_key(old(store).users@, new.author_uuid) || has_key(old(store).articles@, uuid)
                ==> r == Err::<Article, Error>(Error::ConstraintViolation) && *final(store) == *old(store),
            has_key(old(store).users@, new.author_uuid) && !has_key(old(store).articles@, uuid)
                ==> {
                &&& r == Ok::<Article, Error>(created_article(new, uuid))
                &&& final(store).articles@ == old(store).articles@.push(created_article(new, uuid))
                &&& final(store).users@ == old(store).users@
                &&& final(store).forums@ == old(store).forums@
                &&& final(store).threads@ == old(store).threads@
                &&& final(store).posts@ == old(store).posts@
                &&& final(store).chats@ == old(store).chats@
                &&& final(store).messages@ == old(store).messages@
                &&& final(store).next_forum_id == old(store).next_forum_id
                &&& final(store).next_thread_id == old(store).next_thread_id
                &&& final(store).next_post_id == old(store).next_post_id
            },
    {
        if find_row(&store.users, new.author_uuid).is_none() {
            return Err(Error::ConstraintViolation);
        }
        if find_row(&store.articles, uuid).is_some() {
            return Err(Error::ConstraintViolation);
        }
        let row = Article {
            uuid,
            author_uuid: new.author_uuid,
            title: new.title,
            slug: new.slug,
            body: new.body,
            publish_date: None,
        };
        let copy = row.clone();
        store.articles.push(row);
        proof {
            let arts = store.articles@;
            assert forall|x: int, y: int|
                0 <= x < y < arts.len() implies arts[x].row_key() != arts[y].row_key() by {
                if y == arts.len() - 1 {
                    assert(!has_key(old(store).articles@, uuid));
                }
            }
            assert forall|x: int| 0 <= x < arts.len() implies has_key(
                store.users@,
                (#[trigger] arts[x]).author_uuid,
            ) by {
                if x < arts.len() - 1 {
                    assert(arts[x] == old(store).articles@[x]);
                }
            }
        }
        Ok(copy)
    }

    /// Creates an article under a freshly drawn key. The store assigns
    /// the key, so beyond a missing author, which always fails, only a
    /// uniqueness failure can be promised about which draws succeed.
    pub fn create_article(new: NewArticle, store: &mut Store) -> (r: Result<Article, Error>)
        requires
            old(store).wf(),
        ensures
            final(store).wf(),
            !has_key(old(store).users@, new.author_uuid) ==> r == Err::<Article, Error>(
                Error::ConstraintViolation,
            ) && *final(store) == *old(store),
            r matches Err(e) ==> e == Error::ConstraintViolation && *final(store) == *old(store)
                && (!has_key(old(store).users@, new.author_uuid) || old(store).articles@.len()
                > 0),
            r matches Ok(a) ==> {
                &&& a == created_article(new, a.uuid)
                &&& !has_key(old(store).articles@, a.uuid)
                &&& has_key(old(store).users@, new.author_uuid)
                &&& final(store).articles@ == old(store).articles@.push(a)
                &&& final(store).users@ == old(store).users@
                &&& final(store).forums@ == old(store).forums@
                &&& final(store).threads@ == old(store).threads@
                &&& final(store).posts@ == old(store).posts@
                &&& final(store).chats@ == old(store).chats@
                &&& final(store).messages@ == old(store).messages@
                &&& final(store).next_forum_id == old(store).next_forum_id
                &&& final(store).next_thread_id == old(store).next_thread_id
                &&& final(store).next_post_id == old(store).next_post_id
            },
    {
        let uuid = fresh_uuid();
        Article::create_article_with_uuid(new, uuid, store)
    }

    /// Applies a changeset to its article: present fields are applied,
    /// absent fields leave stored values untouched.
    pub fn update_article(changeset: ArticleChangeset, store: &mut Store) -> (r: Result<
        Article,
        Error,
    >)
        requires
            old(store).wf(),
        ensures
            final(store).wf(),
            !has_key(old(store).articles@, changeset.uuid) ==> r == Err::<Article, Error>(
                Error::NotFound,
            ) && *final(store) == *old(store),
            has_key(old(store).articles@, changeset.uuid) ==> {
                let k = key_idx(old(store).articles@, changeset.uuid);
                let updated = with_changeset(old(store).articles@[k], changeset);
                &&& r == Ok::<Article, Error>(updated)
                &&& final(store).articles@ == old(store).articles@.update(k, updated)
                &&& final(store).users@ == old(store).users@
                &&& final(store).forums@ == old(store).forums@
                &&& final(store).threads@ == old(store).threads@
                &&& final(store).posts@ == old(store).posts@
                &&& final(store).chats@ == old(store).chats@
                &&& final(store).messages@ == old(store).messages@
                &&& final(store).next_forum_id == old(store).next_forum_id
                &&& final(store).next_thread_id == old(store).next_thread_id
                &&& final(store).next_post_id == old(store).next_post_id
            },
    {
        let i = match find_row(&store.articles, changeset.uuid) {
            Some(i) => i,
            None => {
                return Err(Error::NotFound);
            },
        };
        proof {
            lemma_row_with(store.articles@, changeset.uuid, i as int);
        }
        let mut row = store.articles.remove(i);
        match changeset.title {
            Some(title) => {
                row.title = title;
            },
            None => {},
        }
        match changeset.body {
            Some(body) => {
                row.body = body;
            },
            None => {},
        }
        let copy = row.clone();
        store.articles.insert(i, row);
        proof {
            assert(store.articles@ =~= old(store).articles@.update(
                i as int,
                with_changeset(old(store).articles@[i as int], changeset),
            ));
            Self::lemma_update_keeps_wf(
                *old(store),
                *store,
                i as int,
                with_changeset(old(store).articles@[i as int], changeset),
            );
        }
        Ok(copy)
    }

    /// Applies a changeset; the same contract as `update_article`,
    /// reached through the shared row-update path.
    pub fn update_article_2(changeset: ArticleChangeset, store: &mut Store) -> (r: Result<
        Article,
        Error,
    >)
        requires
            old(store).wf(),
        ensures
            final(store).wf(),
            !has_key(old(store).articles@, changeset.uuid) ==> r == Err::<Article, Error>(
                Error::NotFound,
            ) && *final(store) == *old(store),
            has_key(old(store).articles@, changeset.uuid) ==> {
                let k = key_idx(old(store).articles@, changeset.uuid);
                let updated = with_changeset(old(store).articles@[k], changeset);
                &&& r == Ok::<Article, Error>(updated)
                &&& final(store).articles@ == old(store).articles@.update(k, updated)
                &&& final(store).users@ == old(store).users@
            },
    {
        Article::update_article(changeset, store)
    }

    /// Replacing a row with one keeping its key and author keeps the
    /// store well-formed.
    proof fn lemma_update_keeps_wf(s: Store, t: Store, k: int, updated: Article)
        requires
            s.wf(),
            0 <= k < s.articles@.len(),
            updated.uuid == s.articles@[k].uuid,
            updated.author_uuid == s.articles@[k].author_uuid,
            t.articles@ == s.articles@.update(k, updated),
            t.users@ == s.users@,
            t.forums@ == s.forums@,
            t.threads@ == s.threads@,
            t.posts@ == s.posts@,
            t.chats@ == s.chats@,
            t.messages@ == s.messages@,
            t.next_forum_id == s.next_forum_id,
            t.next_thread_id == s.next_thread_id,
            t.next_post_id == s.next_post_id,
        ensures
            t.wf(),
    {
        let arts = t.articles@;
        assert forall|x: int, y: int|
            0 <= x < y < arts.len() implies arts[x].row_key() != arts[y].row_key() by {
            assert(s.articles@[x].row_key() != s.articles@[y].row_key());
        }
        assert forall|x: int| 0 <= x < arts.len() implies has_key(
            t.users@,
            (#[trigger] arts[x]).author_uuid,
        ) by {
            assert(has_key(s.users@, s.articles@[x].author_uuid));
        }
    }

    /// Gets the unpublished articles of the given user, in table order.
    pub fn get_unpublished_articles_for_user(user_uuid: UserUuid, store: &Store) -> (r: Result<
        Vec<Article>,
        Error,
    >)
        requires
            store.wf(),
        ensures
            !has_key(store.users@, user_uuid.0) ==> r == Err::<Vec<Article>, Error>(
                Error::NotFound,
            ),
            has_key(store.users@, user_uuid.0) ==> (r matches Ok(v) && v@ == unpublished_for(
                *store,
                user_uuid.0,
            )),
    {
        if find_row(&store.users, user_uuid.0).is_none() {
            return Err(Error::NotFound);
        }
        let mut out: Vec<Article> = Vec::new();
        let mut i: usize = 0;
        while i < store.articles.len()
            invariant
                i <= store.articles@.len(),
                out@ == store.articles@.take(i as int).filter(
                    |a: Article| a.author_uuid == user_uuid.0 && a.publish_date is None,
                ),
            decreases store.articles@.len() - i,
        {
            proof {
                lemma_filter_take_step(
                    store.articles@,
                    i as int,
                    |a: Article| a.author_uuid == user_uuid.0 && a.publish_date is None,
                );
            }
            let a = &store.articles[i];
            if a.author_uuid == user_uuid.0 && a.publish_date.is_none() {
                out.push(a.clone());
            }
            i += 1;
        }
        proof {
            assert(store.articles@.take(store.articles@.len() as int) =~= store.articles@);
        }
        Ok(out)
    }

    /// Sets or clears the publish timestamp: the one verified step of
    /// publishing, exact for every timestamp the caller may bring.
    pub fn set_publish_value(uuid: ArticleUuid, value: Option<i64>, store: &mut Store) -> (r:
        Result<Article, Error>)
        requires
            old(store).wf(),
        ensures
            final(store).wf(),
            !has_key(old(store).articles@, uuid.0) ==> r == Err::<Article, Error>(Error::NotFound)
                && *final(store) == *old(store),
            has_key(old(store).articles@, uuid.0) ==> {
                let k = key_idx(old(store).articles@, uuid.0);
                let updated = with_publish(old(store).articles@[k], value);
                &&& r == Ok::<Article, Error>(updated)
                &&& final(store).articles@ == old(store).articles@.update(k, updated)
                &&& final(store).users@ == old(store).users@
                &&& final(store).forums@ == old(store).forums@
                &&& final(store).threads@ == old(store).threads@
                &&& final(store).posts@ == old(store).posts@
                &&& final(store).chats@ == old(store).chats@
                &&& final(store).messages@ == old(store).messages@
                &&& final(store).next_forum_id == old(store).next_forum_id
                &&& final(store).next_thread_id == old(store).next_thread_id
                &&& final(store).next_post_id == old(store).next_post_id
            },
    {
        let i = match find_row(&store.articles, uuid.0) {
            Some(i) => i,
            None => {
                return Err(Error::NotFound);
            },
        };
        proof {
            lemma_row_with(store.articles@, uuid.0, i as int);
        }
        let mut row = store.articles.remove(i);
        row.publish_date = value;
        let copy = row.clone();
        store.articles.insert(i, row);
        proof {
            assert(store.articles@ =~= old(store).articles@.update(
                i as int,
                with_publish(old(store).articles@[i as int], value),
            ));
            Self::lemma_update_keeps_wf(
                *old(store),
                *store,
                i as int,
                with_publish(old(store).articles@[i as int], value),
            );
        }
        Ok(copy)
    }

    /// Sets the article's published status. Publishing stamps the
    /// current time, so some timestamp is set; unpublishing clears the
    /// timestamp, exactly.
    pub fn set_publish_status(uuid: ArticleUuid, publish: bool, store: &mut Store) -> (r: Result<
        Article,
        Error,
    >)
        requires
            old(store).wf(),
        ensures
            final(store).wf(),
            !has_key(old(store).articles@, uuid.0) ==> r == Err::<Article, Error>(Error::NotFound)
                && *final(store) == *old(store),
            has_key(old(store).articles@, uuid.0) && !publish ==> {
                let k = key_idx(old(store).articles@, uuid.0);
                let updated = with_publish(old(store).articles@[k], None);
                &&& r == Ok::<Article, Error>(updated)
                &&& final(store).articles@ == old(store).articles@.update(k, updated)
                &&& final(store).users@ == old(store).users@
                &&& final(store).forums@ == old(store).forums@
                &&& final(store).threads@ == old(store).threads@
                &&& final(store).posts@ == old(store).posts@
                &&& final(store).chats@ == old(store).chats@
                &&& final(store).messages@ == old(store).messages@
                &&& final(store).next_forum_id == old(store).next_forum_id
                &&& final(store).next_thread_id == old(store).next_thread_id
                &&& final(store).next_post_id == old(store).next_post_id
            },
            has_key(old(store).articles@, uuid.0) && publish ==> exists|t: i64|
                #[trigger] publish_applied(*old(store), *final(store), uuid.0, t, r),
    {
        let value: Option<i64> = if publish {
            Some(now_timestamp())
        } else {
            None
        };
        let ghost v = value;
        let r = Article::set_publish_value(uuid, value, store);
        proof {
            if has_key(old(store).articles@, uuid.0) && publish {
                let t0 = v.unwrap();
                assert(publish_applied(*old(store), *store, uuid.0, t0, r));
            }
        }
        r
    }

    /// Fetches an article joined with its author.
    pub fn get_article_data(article_uuid: ArticleUuid, store: &Store) -> (r: Result<
        ArticleData,
        Error,
    >)
        requires
            store.wf(),
        ensures
            !has_key(store.articles@, article_uuid.0) ==> r == Err::<ArticleData, Error>(
                Error::NotFound,
            ),
            has_key(store.articles@, article_uuid.0) ==> r == Ok::<ArticleData, Error>(
                ArticleData {
                    article: row_with(store.articles@, article_uuid.0),
                    user: row_with(
                        store.users@,
                        row_with(store.articles@, article_uuid.0).author_uuid,
                    ),
                },
            ),
    {
        let article = match Article::get_article(article_uuid, store) {
            Ok(a) => a,
            Err(e) => {
                return Err(e);
            },
        };
        proof {
            let k = key_idx(store.articles@, article_uuid.0);
            assert(has_key(store.users@, store.articles@[k].author_uuid));
        }
        match crate::user::User::get_user(UserUuid(article.author_uuid), store) {
            Ok(user) => Ok(ArticleData { article, user }),
            Err(_) => Err(Error::Internal),
        }
    }

    /// Lists one page of the published articles, each joined with its
    /// author, ordered by publish timestamp with ties in table order.
    pub fn get_paginated(page_index: i32, page_size: i32, store: &Store) -> (r: Result<
        Vec<ArticleData>,
        Error,
    >)
        requires
            store.wf(),
        ensures
            page_index < 0 || page_size < 1 ==> r == Err::<Vec<ArticleData>, Error>(
                Error::BadRequest,
            ),
            page_index >= 0 && page_size >= 1 ==> (r matches Ok(items) && {
                &&& items@ == page_window(
                    article_data_seq(*store),
                    page_index as nat,
                    page_size as nat,
                )
                &&& items@.len() <= page_size
            }),
    {
        if page_index < 0 || page_size < 1 {
            return Err(Error::BadRequest);
        }
        let mut pubs: Vec<Article> = Vec::new();
        let mut i: usize = 0;
        while i < store.articles.len()
            invariant
                i <= store.articles@.len(),
                pubs@ == store.articles@.take(i as int).filter(
                    |a: Article| a.publish_date is Some,
                ),
            decreases store.articles@.len() - i,
        {
            proof {
                lemma_filter_take_step(
                    store.articles@,
                    i as int,
                    |a: Article| a.publish_date is Some,
                );
            }
            let a = &store.articles[i];
            if a.publish_date.is_some() {
                pubs.push(a.clone());
            }
            i += 1;
        }
        proof {
            assert(store.articles@.take(store.articles@.len() as int) =~= store.articles@);
            assert(pubs@ == published_articles(*store));
        }
        let mut pairs: Vec<SortPair> = Vec::new();
        let mut j: usize = 0;
        while j < pubs.len()
            invariant
                j <= pubs@.len(),
                pubs@ == published_articles(*store),
                store.wf(),
                pairs@ == article_pairs(pubs@).take(j as int),
            decreases pubs@.len() - j,
        {
            proof {
                lemma_filter_element(
                    store.articles@,
                    |a: Article| a.publish_date is Some,
                    j as int,
                );
            }
            let ts = match pubs[j].publish_date {
                Some(t) => t,
                None => 0,
            };
            pairs.push((ts, j));
            proof {
                assert(pairs@ =~= article_pairs(pubs@).take(j + 1));
            }
            j += 1;
        }
        proof {
            assert(pairs@ =~= article_pairs(pubs@));
        }
        let order = sort_pairs_exec(&pairs);
        proof {
            lemma_sort_pairs_ensures(pairs@);
        }
        let mut data: Vec<ArticleData> = Vec::new();
        let mut k: usize = 0;
        while k < order.len()
            invariant
                k <= order@.len(),
                store.wf(),
                pubs@ == published_articles(*store),
                pairs@ == article_pairs(pubs@),
                order@ == article_order(*store),
                data@ == article_data_seq(*store).take(k as int),
            decreases order@.len() - k,
        {
            proof {
                lemma_sort_pairs_ensures(pairs@);
                assert(pairs@.contains(order@[k as int]));
                let w = choose|w: int| 0 <= w < pairs@.len() && pairs@[w] == order@[k as int];
                assert(order@[k as int].1 == w as usize);
                lemma_filter_element(store.articles@, |a: Article| a.publish_date is Some, w);
            }
            let idx = order[k].1;
            let article = pubs[idx].clone();
            let user = match find_row(&store.users, article.author_uuid) {
                Some(ui) => {
                    proof {
                        lemma_row_with(store.users@, article.author_uuid, ui as int);
                    }
                    store.users[ui].clone()
                },
                None => {
                    return Err(Error::Internal);
                },
            };
            data.push(ArticleData { article, user });
            proof {
                assert(data@ =~= article_data_seq(*store).take(k + 1));
            }
            k += 1;
        }
        proof {
            assert(data@ =~= article_data_seq(*store));
        }
        match paginate(data, page_index, page_size) {
            Ok((items, _count)) => Ok(items),
            Err(e) => Err(e),
        }
    }
}

} // verus!
