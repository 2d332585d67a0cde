//! The request/response envelope: routes bound to store operations, and
//! results rendered as protocol-shaped text.

use vstd::prelude::*;
use crate::chat_repository::ChatRepository;
use crate::chat_repository::has_matching_pair;
use crate::chat_repository::is_duplicate_pair_error;
use crate::chat_repository::is_new_chat_for;
use crate::chat_repository::user_chats;
use crate::errors::ApiError;
use crate::errors::chat_does_not_exist_message;
use crate::message_repository::MessageRepository;
use crate::message_repository::with_message;
use crate::models::Chat;
use crate::models::Message;
use crate::models::MessageModel;

verus! {

/// The closed set of recognized routes; an external layer maps an inbound
/// method and path onto one of these.
pub enum Route {
    PostChats,
    GetChats,
    PostMessage,
    GetMessages,
}

/// An inbound request: the route it was mapped to, and its raw body text.
/// The body is opaque here; decoding it is an external concern.
pub struct JsonHttpRequest {
    pub body: String,
    pub route: Route,
}

/// An outbound response: raw body text and a numeric status.
pub struct JsonHttpResponse {
    pub body: String,
    pub status: u16,
}

/// The status code a response carries: 200 for success, the generic server
/// error for any store failure.
pub const STATUS_OK: u16 = 200;

/// The generic server-error status every failure collapses to.
pub const STATUS_SERVER_ERROR: u16 = 500;

/// The rendered status line: the literal `200 OK` line for status 200, the
/// generic `500 Internal Server Error` line for any other status.
pub open spec fn status_line_of(status: u16) -> Seq<char> {
    "HTTP/1.1 "@ + if status == 200 {
        "200 OK"@
    } else {
        "500 Internal Server Error"@
    }
}

/// The rendered protocol text: status line, the JSON content-type header, a
/// blank line, then the body, in that fixed order.
pub open spec fn raw_output_of(status: u16, body: Seq<char>) -> Seq<char> {
    status_line_of(status) + "\nContent-Type: application/json\n\n"@ + body
}

impl JsonHttpResponse {
    /// Wraps an already-encoded body with the status for an outcome:
    /// success maps to 200, any failure to the generic server error.
    pub fn for_outcome(succeeded: bool, body: String) -> (r: JsonHttpResponse)
        ensures
            r.status == if succeeded {
                STATUS_OK
            } else {
                STATUS_SERVER_ERROR
            },
            r.body == body,
    {
        JsonHttpResponse { body, status: if succeeded { STATUS_OK } else { STATUS_SERVER_ERROR } }
    }

    /// Renders the response as protocol text, exactly as `raw_output_of`
    /// describes.
    pub fn to_raw_output(&self) -> (r: String)
        ensures
            r@ == raw_output_of(self.status, self.body@),
    {
        let mut output = self.status_code_to_http_response_string();
        output.append("\nContent-Type: application/json\n\n");
        output.append(self.body.as_str());
        proof {
            assert(output@ =~= raw_output_of(self.status, self.body@));
        }
        output
    }

    fn status_code_to_http_response_string(&self) -> (r: String)
        ensures
            r@ == status_line_of(self.status),
    {
        let status_code_message: &str = if self.status == 200 {
            "200 OK"
        } else {
            "500 Internal Server Error"
        };
        let mut r = String::from_str("HTTP/1.1 ");
        r.append(status_code_message);
        proof {
            assert(r@ =~= status_line_of(self.status));
        }
        r
    }
}

/// A decoded request: the route together with the values its body carried.
/// An external codec produces one of these from the raw body text.
pub enum RequestPayload {
    PostChats { source_user_id: u64, destination_user_id: u64 },
    GetChats { user_id: u64 },
    PostMessage { message: Message, chat_id: u64 },
    GetMessages { chat_id: u64 },
}

impl RequestPayload {
    /// The route this payload belongs to.
    pub open spec fn route(&self) -> Route {
        match self {
            RequestPayload::PostChats { .. } => Route::PostChats,
            RequestPayload::GetChats { .. } => Route::GetChats,
            RequestPayload::PostMessage { .. } => Route::PostMessage,
            RequestPayload::GetMessages { .. } => Route::GetMessages,
        }
    }
}

/// A successful store operation's value, ready for an external encoder.
pub enum RouteSuccess {
    ChatCreated(Chat),
    ChatsForUser(Vec<Chat>),
    MessageRecorded,
    Messages(Vec<Message>),
}

/// The two stores behind the envelope, owned by one top-level context.
pub struct Backend {
    pub chats: ChatRepository,
    pub messages: MessageRepository,
}

impl Backend {
    /// Both stores hold their invariants.
    pub open spec fn wf(&self) -> bool {
        self.chats.wf()
    }

    /// A context with two empty stores.
    pub fn new() -> (r: Backend)
        ensures
            r.wf(),
            r.chats@ == Seq::<Chat>::empty(),
            r.messages@ == Map::<u64, Seq<MessageModel>>::empty(),
    {
        Backend { chats: ChatRepository::new(), messages: MessageRepository::new() }
    }

    /// Dispatches a decoded request to the store operation its route names
    /// and returns that operation's outcome; every store failure is
    /// propagated, never swallowed.
    pub fn handle(&mut self, payload: RequestPayload) -> (result: Result<RouteSuccess, ApiError>)
        requires
            old(self).wf(),
            payload matches RequestPayload::PostChats { .. } ==> old(self).chats@.len() < u64::MAX,
        ensures
            final(self).wf(),
            match payload {
                RequestPayload::PostChats { source_user_id, destination_user_id } => {
                    &&& final(self).messages@ == old(self).messages@
                    &&& if has_matching_pair(old(self).chats@, source_user_id, destination_user_id) {
                        &&& final(self).chats@ == old(self).chats@
                        &&& result matches Err(e) && is_duplicate_pair_error(
                            e,
                            old(self).chats@,
                            source_user_id,
                            destination_user_id,
                        )
                    } else {
                        result matches Ok(RouteSuccess::ChatCreated(chat)) && is_new_chat_for(
                            chat,
                            old(self).chats@,
                            source_user_id,
                            destination_user_id,
                        ) && final(self).chats@ == old(self).chats@.push(chat)
                    }
                },
                RequestPayload::GetChats { user_id } => {
                    &&& final(self).chats@ == old(self).chats@
                    &&& final(self).messages@ == old(self).messages@
                    &&& result matches Ok(RouteSuccess::ChatsForUser(chats)) && chats@ == user_chats(
                        old(self).chats@,
                        user_id,
                    )
                },
                RequestPayload::PostMessage { message, chat_id } => {
                    &&& final(self).chats@ == old(self).chats@
                    &&& final(self).messages@ == with_message(
                        old(self).messages@,
                        chat_id,
                        message@,
                    )
                    &&& result matches Ok(RouteSuccess::MessageRecorded)
                },
                RequestPayload::GetMessages { chat_id } => {
                    &&& final(self).chats@ == old(self).chats@
                    &&& final(self).messages@ == old(self).messages@
                    &&& if old(self).messages@.contains_key(chat_id) {
                        result matches Ok(RouteSuccess::Messages(messages)) && messages.deep_view()
                            == old(self).messages@[chat_id]
                    } else {
                        result matches Err(e) && e.code@ == "chat_does_not_exist"@ && e.message@
                            == chat_does_not_exist_message(chat_id)
                    }
                },
            },
    {
        match payload {
            RequestPayload::PostChats { source_user_id, destination_user_id } => {
                match self.chats.insert(source_user_id, destination_user_id) {
                    Ok(chat) => Ok(RouteSuccess::ChatCreated(chat)),
                    Err(e) => Err(e),
                }
            },
            RequestPayload::GetChats { user_id } => {
                Ok(RouteSuccess::ChatsForUser(self.chats.get_chats_for_user(user_id)))
            },
            RequestPayload::PostMessage { message, chat_id } => {
                self.messages.add_message(message, chat_id);
                Ok(RouteSuccess::MessageRecorded)
            },
            RequestPayload::GetMessages { chat_id } => {
                match self.messages.get_messages_for_chat_id(chat_id) {
                    Ok(messages) => Ok(RouteSuccess::Messages(duplicate_messages(messages))),
                    Err(e) => Err(e),
                }
            },
        }
    }
}

/// An owned copy of a message sequence, value for value.
fn duplicate_messages(messages: &Vec<Message>) -> (r: Vec<Message>)
    ensures
        r.deep_view() == messages.deep_view(),
{
    let mut r: Vec<Message> = Vec::new();
    let mut i: usize = 0;
    while i < messages.len()
        invariant
            i <= messages@.len(),
            r@.len() == i,
            r.deep_view() == messages.deep_view().subrange(0, i as int),
        decreases messages@.len() - i,
    {
        let ghost prev = r;
        r.push(messages[i].duplicate());
        proof {
            assert forall|k: int| 0 <= k < r@.len() implies r.deep_view()[k]
                == messages.deep_view().subrange(0, i + 1 as int)[k] by {
                if k < i {
                    assert(r@[k] == prev@[k]);
                    assert(prev.deep_view()[k] == messages.deep_view().subrange(0, i as int)[k]);
                }
            }
            assert(r.deep_view() =~= messages.deep_view().subrange(0, i + 1 as int));
        }
        i = i + 1;
    }
    proof {
        assert(messages.deep_view().subrange(0, messages.deep_view().len() as int)
            =~= messages.deep_view());
    }
    r
}

} // verus!
