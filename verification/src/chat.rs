//! The chats and messages tables: membership, message creation and the
//! paged message listing.
use vstd::prelude::*;

use crate::error::Error;
use crate::identifiers::ChatUuid;
use crate::identifiers::UserUuid;
use crate::pagination::page_window;
use crate::pagination::paginate;
use crate::store::Row;
use crate::store::Store;
use crate::store::find_row;
use crate::store::has_key;
use crate::store::key_idx;
use crate::store::lemma_filter_take_step;
use crate::store::lemma_row_with;
use crate::store::row_with;
use crate::user::User;

verus! {

/// The store's representation of a chat: a named room and its members.
#[derive(Debug)]
pub struct Chat {
    /// The primary key.
    pub uuid: u128,
    /// The displayed name of the chat.
    pub chat_name: String,
    /// The keys of the users in the chat; each refers to an existing
    /// user, and no user is listed twice.
    pub members: Vec<u128>,
}

impl Row for Chat {
    open spec fn row_key(&self) -> u128 {
        self.uuid
    }

    fn key(&self) -> u128 {
        self.uuid
    }
}

/// The store's representation of a chat message.
#[derive(Debug)]
pub struct Message {
    /// The primary key.
    pub uuid: u128,
    /// The chat the message was sent to.
    pub chat_uuid: u128,
    /// The user who sent the message.
    pub author_uuid: u128,
    /// The text of the message.
    pub content: String,
    /// Seconds since the epoch when the message was sent.
    pub created_date: i64,
}

impl Clone for Message {
    /// A clone is the same message, field for field.
    fn clone(&self) -> (r: Self)
        ensures
            r == *self,
    {
        Message {
            uuid: self.uuid,
            chat_uuid: self.chat_uuid,
            author_uuid: self.author_uuid,
            content: self.content.clone(),
            created_date: self.created_date,
        }
    }
}

impl Row for Message {
    open spec fn row_key(&self) -> u128 {
        self.uuid
    }

    fn key(&self) -> u128 {
        self.uuid
    }
}

/// A message to be inserted: everything but the server-assigned key.
#[derive(Debug, Clone)]
pub struct NewMessage {
    /// The chat the message is sent to.
    pub chat_uuid: u128,
    /// The user who sends the message.
    pub author_uuid: u128,
    /// The text of the message.
    pub content: String,
    /// Seconds since the epoch when the message is sent.
    pub created_date: i64,
}

/// A message joined with its author.
#[derive(Debug, Clone)]
pub struct MessageData {
    /// The message itself.
    pub message: Message,
    /// The message's author.
    pub author: User,
}

/// The row that inserting `new` under the key `uuid` stores.
pub open spec fn created_message(new: NewMessage, uuid: u128) -> Message {
    Message {
        uuid,
        chat_uuid: new.chat_uuid,
        author_uuid: new.author_uuid,
        content: new.content,
        created_date: new.created_date,
    }
}

/// The messages of one chat, in table order, which is the order they
/// were sent in.
pub open spec fn messages_in_chat(s: Store, chat_uuid: u128) -> Seq<Message> {
    s.messages@.filter(|m: Message| m.chat_uuid == chat_uuid)
}

/// The message listing of one chat: every message joined with its
/// author, in the order they were sent in.
pub open spec fn message_data_seq(s: Store, chat_uuid: u128) -> Seq<MessageData> {
    let msgs = messages_in_chat(s, chat_uuid);
    Seq::new(
        msgs.len(),
        |i: int| MessageData { message: msgs[i], author: row_with(s.users@, msgs[i].author_uuid) },
    )
}

impl Chat {
    /// Creates a chat with no members under the given key. A key already
    /// in use is a uniqueness violation.
    pub fn create_chat_with_uuid(chat_name: String, uuid: u128, store: &mut Store) -> (r: Result<
        ChatUuid,
        Error,
    >)
        requires
            old(store).wf(),
        ensures
            final(store).wf(),
            has_key(old(store).chats@, uuid) ==> r == Err::<ChatUuid, Error>(
                Error::ConstraintViolation,
            ) && *final(store) == *old(store),
            !has_key(old(store).chats@, uuid) ==> {
                &&& r == Ok::<ChatUuid, Error>(ChatUuid(uuid))
                &&& final(store).chats@.len() == old(store).chats@.len() + 1
                &&& final(store).chats@[old(store).chats@.len() as int].uuid == uuid
                &&& final(store).chats@[old(store).chats@.len() as int].chat_name == chat_name
                &&& final(store).chats@[old(store).chats@.len() as int].members@.len() == 0
                &&& forall|i: int|
                    0 <= i < old(store).chats@.len() ==> final(store).chats@[i] == old(store).chats@[i]
                &&& final(store).users@ == old(store).users@
                &&& final(store).articles@ == old(store).articles@
                &&& final(store).forums@ == old(store).forums@
                &&& final(store).threads@ == old(store).threads@
                &&& final(store).posts@ == old(store).posts@
                &&& final(store).messages@ == old(store).messages@
                &&& final(store).next_forum_id == old(store).next_forum_id
                &&& final(store).next_thread_id == old(store).next_thread_id
                &&& final(store).next_post_id == old(store).next_post_id
            },
    {
        if find_row(&store.chats, uuid).is_some() {
            return Err(Error::ConstraintViolation);
        }
        let row = Chat { uuid, chat_name, members: Vec::new() };
        store.chats.push(row);
        proof {
            let chats = store.chats@;
            assert forall|i: int, j: int|
                0 <= i < j < chats.len() implies chats[i].row_key() != chats[j].row_key() by {
                if j == chats.len() - 1 {
                    assert(!has_key(old(store).chats@, uuid));
                }
            }
            assert(old(store).chats@.push(chats.last()) =~= chats);
            assert forall|w: u128| has_key(old(store).chats@, w) implies has_key(chats, w) by {
                crate::store::lemma_has_key_push(old(store).chats@, chats.last(), w);
            }
        }
        Ok(ChatUuid(uuid))
    }

    /// Adds a user to a chat. The chat and the user must both exist;
    /// adding a user who is already a member changes nothing and
    /// succeeds.
    pub fn add_user_to_chat(chat_uuid: &ChatUuid, user_uuid: UserUuid, store: &mut Store) -> (r:
        Result<(), Error>)
        requires
            old(store).wf(),
        ensures
            final(store).wf(),
            !has_key(old(store).chats@, chat_uuid.0) || !has_key(old(store).users@, user_uuid.0)
                ==> r == Err::<(), Error>(Error::NotFound) && *final(store) == *old(store),
            has_key(old(store).chats@, chat_uuid.0) && has_key(old(store).users@, user_uuid.0)
                ==> {
                let k = key_idx(old(store).chats@, chat_uuid.0);
                let members = old(store).chats@[k].members@;
                &&& r == Ok::<(), Error>(())
                &&& final(store).chats@.len() == old(store).chats@.len()
                &&& (forall|i: int|
                    0 <= i < old(store).chats@.len() && i != k ==> final(store).chats@[i] == old(store).chats@[i])
                &&& final(store).chats@[k].uuid == old(store).chats@[k].uuid
                &&& final(store).chats@[k].chat_name == old(store).chats@[k].chat_name
                &&& final(store).chats@[k].members@ == if members.contains(user_uuid.0) {
                    members
                } else {
                    members.push(user_uuid.0)
                }
                &&& final(store).users@ == old(store).users@
                &&& final(store).messages@ == old(store).messages@
                &&& final(store).articles@ == old(store).articles@
            },
    {
        let k = match find_row(&store.chats, chat_uuid.0) {
            Some(k) => k,
            None => {
                return Err(Error::NotFound);
            },
        };
        if find_row(&store.users, user_uuid.0).is_none() {
            return Err(Error::NotFound);
        }
        proof {
            lemma_row_with(store.chats@, chat_uuid.0, k as int);
        }
        let mut row = store.chats.remove(k);
        let mut m: usize = 0;
        let mut already = false;
        while m < row.members.len()
            invariant
                m <= row.members@.len(),
                already == exists|x: int| 0 <= x < m && #[trigger] row.members@[x] == user_uuid.0,
            decreases row.members@.len() - m,
        {
            if row.members[m] == user_uuid.0 {
                already = true;
                proof {
                    assert(row.members@[m as int] == user_uuid.0);
                }
            }
            m += 1;
        }
        proof {
            assert(already == row.members@.contains(user_uuid.0));
        }
        if !already {
            row.members.push(user_uuid.0);
        }
        store.chats.insert(k, row);
        proof {
            assert(store.chats@ =~= old(store).chats@.update(k as int, store.chats@[k as int]));
            let chats = store.chats@;
            assert forall|i: int, j: int|
                0 <= i < j < chats.len() implies chats[i].row_key() != chats[j].row_key() by {
                assert(old(store).chats@[i].row_key() != old(store).chats@[j].row_key());
            }
            assert forall|i: int, mm: int|
                0 <= i < chats.len() && 0 <= mm < chats[i].members@.len() implies has_key(
                store.users@,
                #[trigger] chats[i].members@[mm],
            ) by {
                if i == k {
                    let members = old(store).chats@[k as int].members@;
                    if mm < members.len() {
                        assert(has_key(old(store).users@, members[mm]));
                    }
                } else {
                    assert(chats[i] == old(store).chats@[i]);
                }
            }
            assert forall|x: int| 0 <= x < store.messages@.len() implies has_key(
                chats,
                (#[trigger] store.messages@[x]).chat_uuid,
            ) by {
                let w = choose|w: int|
                    0 <= w < old(store).chats@.len() && old(store).chats@[w].row_key()
                        == store.messages@[x].chat_uuid;
                assert(chats[w].row_key() == old(store).chats@[w].row_key());
            }
        }
        Ok(())
    }

    /// Whether the user belongs to the chat; a missing chat is not
    /// found.
    pub fn is_user_in_chat(chat_uuid: &ChatUuid, user_uuid: UserUuid, store: &Store) -> (r: Result<
        bool,
        Error,
    >)
        requires
            store.wf(),
        ensures
            !has_key(store.chats@, chat_uuid.0) ==> r == Err::<bool, Error>(Error::NotFound),
            has_key(store.chats@, chat_uuid.0) ==> r == Ok::<bool, Error>(
                row_with(store.chats@, chat_uuid.0).members@.contains(user_uuid.0),
            ),
    {
        let k = match find_row(&store.chats, chat_uuid.0) {
            Some(k) => k,
            None => {
                return Err(Error::NotFound);
            },
        };
        proof {
            lemma_row_with(store.chats@, chat_uuid.0, k as int);
        }
        let members = &store.chats[k].members;
        let mut m: usize = 0;
        while m < members.len()
            invariant
                m <= members@.len(),
                store.wf(),
                has_key(store.chats@, chat_uuid.0),
                members@ == row_with(store.chats@, chat_uuid.0).members@,
                forall|x: int| 0 <= x < m ==> members@[x] != user_uuid.0,
            decreases members@.len() - m,
        {
            if members[m] == user_uuid.0 {
                proof {
                    assert(members@[m as int] == user_uuid.0);
                    assert(members@.contains(user_uuid.0));
                }
                return Ok(true);
            }
            m += 1;
        }
        Ok(false)
    }
}

impl Message {
    /// Inserts a message under the key `uuid`: the one verified step of
    /// sending, exact for every key the caller may bring. The chat and
    /// the author must exist, and a key already in use violates
    /// uniqueness.
    pub fn create_message_with_uuid(new: NewMessage, uuid: u128, store: &mut Store) -> (r: Result<
        MessageData,
        Error,
    >)
        requires
            old(store).wf(),
        ensures
            final(store).wf(),
            !has_key(old(store).chats@, new.chat_uuid) || !has_key(
                old(store).users@,
                new.author_uuid,
            ) || has_key(old(store).messages@, uuid) ==> r == Err::<MessageData, Error>(
                Error::ConstraintViolation,
            ) && *final(store) == *old(store),
            has_key(old(store).chats@, new.chat_uuid) && has_key(
                old(store).users@,
                new.author_uuid,
            ) && !has_key(old(store).messages@, uuid) ==> {
                &&& r == Ok::<MessageData, Error>(
                    MessageData {
                        message: created_message(new, uuid),
                        author: row_with(old(store).users@, new.author_uuid),
                    },
                )
                &&& final(store).messages@ == old(store).messages@.push(
                    created_message(new, uuid),
                )
                &&& final(store).users@ == old(store).users@
                &&& final(store).chats@ == old(store).chats@
                &&& final(store).articles@ == old(store).articles@
                &&& final(store).forums@ == old(store).forums@
                &&& final(store).threads@ == old(store).threads@
                &&& final(store).posts@ == old(store).posts@
                &&& final(store).next_forum_id == old(store).next_forum_id
                &&& final(store).next_thread_id == old(store).next_thread_id
                &&& final(store).next_post_id == old(store).next_post_id
            },
    {
        if find_row(&store.chats, new.chat_uuid).is_none() {
            return Err(Error::ConstraintViolation);
        }
        let author_idx = match find_row(&store.users, new.author_uuid) {
            Some(i) => i,
            None => {
                return Err(Error::ConstraintViolation);
            },
        };
        if find_row(&store.messages, uuid).is_some() {
            return Err(Error::ConstraintViolation);
        }
        proof {
            lemma_row_with(store.users@, new.author_uuid, author_idx as int);
        }
        let author = store.users[author_idx].clone();
        let row = Message {
            uuid,
            chat_uuid: new.chat_uuid,
            author_uuid: new.author_uuid,
            content: new.content,
            created_date: new.created_date,
        };
        let message = row.clone();
        store.messages.push(row);
        proof {
            let msgs = store.messages@;
            assert forall|i: int, j: int|
                0 <= i < j < msgs.len() implies msgs[i].row_key() != msgs[j].row_key() by {
                if j == msgs.len() - 1 {
                    assert(!has_key(old(store).messages@, uuid));
                }
            }
            assert forall|x: int| 0 <= x < msgs.len() implies has_key(
                store.chats@,
                (#[trigger] msgs[x]).chat_uuid,
            ) && has_key(store.users@, msgs[x].author_uuid) by {
                if x < msgs.len() - 1 {
                    assert(msgs[x] == old(store).messages@[x]);
                }
            }
        }
        Ok(MessageData { message, author })
    }

    /// Lists one page of a chat's messages, each joined with its author,
    /// in the order they were sent in, `page_size` messages per page.
    pub fn get_messages_for_chat(
        chat_uuid: ChatUuid,
        page_index: i32,
        page_size: i32,
        store: &Store,
    ) -> (r: Result<Vec<MessageData>, Error>)
        requires
            store.wf(),
        ensures
            page_index < 0 || page_size < 1 ==> r == Err::<Vec<MessageData>, Error>(
                Error::BadRequest,
            ),
            page_index >= 0 && page_size >= 1 ==> (r matches Ok(items) && {
                &&& items@ == page_window(
                    message_data_seq(*store, chat_uuid.0),
                    page_index as nat,
                    page_size as nat,
                )
                &&& items@.len() <= page_size
            }),
    {
        if page_index < 0 || page_size < 1 {
            return Err(Error::BadRequest);
        }
        let mut data: Vec<MessageData> = Vec::new();
        let mut i: usize = 0;
        while i < store.messages.len()
            invariant
                i <= store.messages@.len(),
                store.wf(),
                data@.len() == store.messages@.take(i as int).filter(
                    |m: Message| m.chat_uuid == chat_uuid.0,
                ).len(),
                forall|x: int|
                    0 <= x < data@.len() ==> (#[trigger] data@[x]).message == store.messages@.take(
                        i as int,
                    ).filter(|m: Message| m.chat_uuid == chat_uuid.0)[x] && data@[x].author
                        == row_with(store.users@, data@[x].message.author_uuid),
            decreases store.messages@.len() - i,
        {
            proof {
                lemma_filter_take_step(
                    store.messages@,
                    i as int,
                    |m: Message| m.chat_uuid == chat_uuid.0,
                );
            }
            let msg = &store.messages[i];
            if msg.chat_uuid == chat_uuid.0 {
                let author = match find_row(&store.users, msg.author_uuid) {
                    Some(ui) => {
                        proof {
                            lemma_row_with(store.users@, msg.author_uuid, ui as int);
                        }
                        store.users[ui].clone()
                    },
                    None => {
                        return Err(Error::Internal);
                    },
                };
                data.push(MessageData { message: msg.clone(), author });
            }
            i += 1;
        }
        proof {
            assert(store.messages@.take(store.messages@.len() as int) =~= store.messages@);
            assert(data@ =~= message_data_seq(*store, chat_uuid.0));
        }
        match paginate(data, page_index, page_size) {
            Ok((items, _count)) => Ok(items),
            Err(e) => Err(e),
        }
    }
}

} // verus!
