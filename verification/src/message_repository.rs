//! In-memory message table: messages grouped by chat identity, kept in
//! insertion order within each group.

use std::collections::HashMap;
use vstd::prelude::*;
use crate::errors::ApiError;
use crate::errors::chat_does_not_exist_message;
use crate::models::Message;
use crate::models::MessageModel;

verus! {

broadcast use vstd::std_specs::hash::group_hash_axioms;

/// The store after recording one message for an identity: that identity's
/// sequence grows by the message at the end (from empty, when the identity
/// had no entry yet); every other identity is untouched.
pub open spec fn with_message(
    messages: Map<u64, Seq<MessageModel>>,
    chat_id: u64,
    m: MessageModel,
) -> Map<u64, Seq<MessageModel>> {
    let prior = if messages.contains_key(chat_id) {
        messages[chat_id]
    } else {
        Seq::<MessageModel>::empty()
    };
    messages.insert(chat_id, prior.push(m))
}

/// In-memory representation of a database message table, indexed by the
/// owning chat's identity. Nothing here checks that identity against the
/// chat store: "exists" means "has at least one recorded message".
pub struct MessageRepository {
    chat_messages: HashMap<u64, Vec<Message>>,
}

impl View for MessageRepository {
    type V = Map<u64, Seq<MessageModel>>;

    closed spec fn view(&self) -> Map<u64, Seq<MessageModel>> {
        self.chat_messages@.map_values(|v: Vec<Message>| v.deep_view())
    }
}

impl MessageRepository {
    /// An empty store.
    pub fn new() -> (r: MessageRepository)
        ensures
            r@ == Map::<u64, Seq<MessageModel>>::empty(),
    {
        let r = MessageRepository { chat_messages: HashMap::new() };
        proof {
            assert(r@ =~= Map::<u64, Seq<MessageModel>>::empty());
        }
        r
    }

    /// Appends the message to the sequence for `chat_id`, starting that
    /// sequence if this is the identity's first message. Cannot fail, and
    /// performs no validation of the identity.
    pub fn add_message(&mut self, message: Message, chat_id: u64)
        ensures
            final(self)@ == with_message(old(self)@, chat_id, message@),
    {
        let ghost prior_map = self@;
        match self.chat_messages.remove(&chat_id) {
            Some(mut messages) => {
                let ghost prior_vec = messages;
                messages.push(message);
                proof {
                    assert(messages.deep_view() =~= prior_vec.deep_view().push(message@));
                    assert(prior_map[chat_id] == prior_vec.deep_view());
                }
                self.chat_messages.insert(chat_id, messages);
                proof {
                    assert(self@ =~= with_message(prior_map, chat_id, message@));
                }
            },
            None => {
                let mut messages: Vec<Message> = Vec::new();
                messages.push(message);
                proof {
                    assert(messages.deep_view() =~= Seq::<MessageModel>::empty().push(message@));
                }
                self.chat_messages.insert(chat_id, messages);
                proof {
                    assert(self@ =~= with_message(prior_map, chat_id, message@));
                }
            },
        }
    }

    /// The messages recorded for `chat_id`, in insertion order; fails with
    /// `chat_does_not_exist` exactly when no message was ever added for it.
    pub fn get_messages_for_chat_id(&self, chat_id: u64) -> (r: Result<&Vec<Message>, ApiError>)
        ensures
            match r {
                Ok(messages) => self@.contains_key(chat_id) && messages.deep_view()
                    == self@[chat_id],
                Err(e) => {
                    &&& !self@.contains_key(chat_id)
                    &&& e.code@ == "chat_does_not_exist"@
                    &&& e.message@ == chat_does_not_exist_message(chat_id)
                },
            },
    {
        match self.chat_messages.get(&chat_id) {
            Some(messages) => Ok(messages),
            None => Err(ApiError::chat_does_not_exist(chat_id)),
        }
    }
}

/// Recording a message touches only its own identity: that identity has an
/// entry afterwards, its sequence is the prior one (empty when absent) grown
/// by the message at the end, and every other identity keeps its entry and
/// its sequence unchanged.
pub proof fn lemma_with_message_effect(
    messages: Map<u64, Seq<MessageModel>>,
    chat_id: u64,
    m: MessageModel,
)
    ensures
        with_message(messages, chat_id, m).contains_key(chat_id),
        messages.contains_key(chat_id) ==> with_message(messages, chat_id, m)[chat_id]
            == messages[chat_id].push(m),
        !messages.contains_key(chat_id) ==> with_message(messages, chat_id, m)[chat_id]
            == Seq::<MessageModel>::empty().push(m),
        forall|k: u64|
            k != chat_id ==> #[trigger] with_message(messages, chat_id, m).contains_key(k)
                == messages.contains_key(k),
        forall|k: u64|
            k != chat_id && messages.contains_key(k) ==> #[trigger] with_message(
                messages,
                chat_id,
                m,
            )[k] == messages[k],
{
}

} // verus!
