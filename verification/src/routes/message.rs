//! The message routes: listing a chat's messages and sending one, both
//! forbidden to non-members, and sending forbidden unless the named
//! author is the requesting user.
use vstd::prelude::*;

use crate::chat::Chat;
use crate::chat::Message;
use crate::chat::NewMessage;
use crate::chat::created_message;
use crate::chat::message_data_seq;
use crate::clock::now_timestamp;
use crate::error::Error;
use crate::identifiers::UserUuid;
use crate::identifiers::fresh_uuid;
use crate::pagination::page_window;
use crate::store::Store;
use crate::store::has_key;
use crate::store::row_with;
use crate::wire::MessageResponse;
use crate::wire::NewMessageRequest;
use crate::wire::message_response_of;

verus! {

/// How many messages one page of a chat's history holds.
pub const MESSAGES_PER_PAGE: i32 = 25;

/// Whether the user belongs to the chat named by the request.
pub open spec fn sender_in_chat(s: Store, request: NewMessageRequest, user: u128) -> bool {
    has_key(s.chats@, request.chat_uuid.0) && row_with(
        s.chats@,
        request.chat_uuid.0,
    ).members@.contains(user)
}

/// How a sent message relates the store before (`s`) and after (`t`) and
/// the response, for the drawn key `uuid` and the stamped time `ts`.
pub open spec fn message_sent(
    s: Store,
    t: Store,
    request: NewMessageRequest,
    uuid: u128,
    ts: i64,
    r: Result<MessageResponse, Error>,
) -> bool {
    let row = created_message(
        NewMessage {
            chat_uuid: request.chat_uuid.0,
            author_uuid: request.author_uuid.0,
            content: request.content,
            created_date: ts,
        },
        uuid,
    );
    &&& r == Ok::<MessageResponse, Error>(
        message_response_of(
            crate::chat::MessageData { message: row, author: row_with(s.users@, request.author_uuid.0) },
        ),
    )
    &&& t.messages@ == s.messages@.push(row)
    &&& t.users@ == s.users@
    &&& t.chats@ == s.chats@
    &&& t.articles@ == s.articles@
}

/// Lists one page of a chat's messages for a member. A requester who is
/// not in the chat lacks the right to read it and is forbidden; a
/// missing chat is not found.
pub fn get_messages_for_chat(
    chat_uuid: crate::identifiers::ChatUuid,
    index: i32,
    user_uuid: UserUuid,
    store: &Store,
) -> (r: Result<Vec<MessageResponse>, Error>)
    requires
        store.wf(),
    ensures
        !has_key(store.chats@, chat_uuid.0) ==> r == Err::<Vec<MessageResponse>, Error>(
            Error::NotFound,
        ),
        has_key(store.chats@, chat_uuid.0) && !row_with(store.chats@, chat_uuid.0).members@.contains(
            user_uuid.0,
        ) ==> r == Err::<Vec<MessageResponse>, Error>(Error::Forbidden),
        has_key(store.chats@, chat_uuid.0) && row_with(store.chats@, chat_uuid.0).members@.contains(
            user_uuid.0,
        ) && index < 0 ==> r == Err::<Vec<MessageResponse>, Error>(Error::BadRequest),
        has_key(store.chats@, chat_uuid.0) && row_with(store.chats@, chat_uuid.0).members@.contains(
            user_uuid.0,
        ) && index >= 0 ==> (r matches Ok(v) && {
            let page = page_window(
                message_data_seq(*store, chat_uuid.0),
                index as nat,
                MESSAGES_PER_PAGE as nat,
            );
            &&& v@.len() == page.len()
            &&& v@.len() <= MESSAGES_PER_PAGE
            &&& forall|i: int| 0 <= i < page.len() ==> v@[i] == message_response_of(#[trigger] page[i])
        }),
{
    let member = match Chat::is_user_in_chat(&chat_uuid, user_uuid, store) {
        Ok(b) => b,
        Err(e) => {
            return Err(e);
        },
    };
    if !member {
        return Err(Error::Forbidden);
    }
    let data = match Message::get_messages_for_chat(chat_uuid, index, MESSAGES_PER_PAGE, store) {
        Ok(d) => d,
        Err(e) => {
            return Err(e);
        },
    };
    let ghost page = data@;
    let mut out: Vec<MessageResponse> = Vec::new();
    let mut data = data;
    let mut i: usize = 0;
    let n = data.len();
    while i < n
        invariant
            i <= n,
            n == page.len(),
            n == data@.len() + i,
            data@ == page.skip(i as int),
            out@.len() == i,
            forall|j: int| 0 <= j < i ==> out@[j] == message_response_of(#[trigger] page[j]),
        decreases n - i,
    {
        let d = data.remove(0);
        proof {
            assert(page.skip(i as int)[0] == page[i as int]);
            assert(page.skip(i as int).remove(0) =~= page.skip(i + 1));
        }
        out.push(MessageResponse::from(d));
        i += 1;
    }
    Ok(out)
}

/// Sends a message. A request whose author is not the requesting user is
/// forbidden before anything else is looked at, and so is a requester
/// who is not in the chat: both lack the right to write there.
pub fn send_message(request: NewMessageRequest, user_uuid: UserUuid, store: &mut Store) -> (r:
    Result<MessageResponse, Error>)
    requires
        old(store).wf(),
    ensures
        final(store).wf(),
        request.author_uuid != user_uuid ==> r == Err::<MessageResponse, Error>(Error::Forbidden)
            && *final(store) == *old(store),
        request.author_uuid == user_uuid && !has_key(old(store).chats@, request.chat_uuid.0) ==> r
            == Err::<MessageResponse, Error>(Error::NotFound) && *final(store) == *old(store),
        request.author_uuid == user_uuid && has_key(old(store).chats@, request.chat_uuid.0)
            && !sender_in_chat(*old(store), request, user_uuid.0) ==> r == Err::<
            MessageResponse,
            Error,
        >(Error::Forbidden) && *final(store) == *old(store),
        request.author_uuid == user_uuid && sender_in_chat(*old(store), request, user_uuid.0) ==> (
        (r == Err::<MessageResponse, Error>(Error::ConstraintViolation) && *final(store) == *old(store)
            && old(store).messages@.len() > 0) || exists|uuid: u128, ts: i64|
            #[trigger] message_sent(*old(store), *final(store), request, uuid, ts, r)),
{
    if request.author_uuid.0 != user_uuid.0 {
        return Err(Error::Forbidden);
    }
    let member = match Chat::is_user_in_chat(&request.chat_uuid, user_uuid, store) {
        Ok(b) => b,
        Err(e) => {
            return Err(e);
        },
    };
    if !member {
        return Err(Error::Forbidden);
    }
    let uuid = fresh_uuid();
    let ts = now_timestamp();
    let ghost g_uuid = uuid;
    let ghost g_ts = ts;
    proof {
        let ci = crate::store::key_idx(store.chats@, request.chat_uuid.0);
        crate::store::lemma_row_with(
            store.chats@,
            request.chat_uuid.0,
            ci,
        );
        let members = store.chats@[ci].members@;
        let w = choose|w: int| 0 <= w < members.len() && members[w] == user_uuid.0;
        assert(store.chats@[ci].members@[w] == user_uuid.0);
        assert(has_key(store.users@, store.chats@[ci].members@[w]));
    }
    let new_message = NewMessage {
        chat_uuid: request.chat_uuid.0,
        author_uuid: request.author_uuid.0,
        content: request.content,
        created_date: ts,
    };
    let r = match Message::create_message_with_uuid(new_message, uuid, store) {
        Ok(data) => Ok(MessageResponse::from(data)),
        Err(e) => Err(e),
    };
    proof {
        if !has_key(old(store).messages@, g_uuid) {
            assert(message_sent(*old(store), *store, request, g_uuid, g_ts, r));
        }
    }
    r
}

} // verus!
