//! The two stored record kinds: chats and messages.

use vstd::prelude::*;

verus! {

/// A deduplicated conversation between exactly two participants, identified
/// by a store-assigned integer. Append-only: never mutated after creation.
#[derive(Clone, Copy)]
pub struct Chat {
    pub id: u64,
    pub participant_ids: [u64; 2],
}

impl Chat {
    /// The user takes part in this chat, on either side.
    pub open spec fn has_participant(self, user_id: u64) -> bool {
        self.participant_ids[0] == user_id || self.participant_ids[1] == user_id
    }

    /// The chat's participant pair equals the given pair, in either
    /// direction: a chat between two users is the same chat regardless of
    /// who is the source.
    pub open spec fn matches_pair(self, source_user_id: u64, destination_user_id: u64) -> bool {
        ||| (self.participant_ids[0] == source_user_id && self.participant_ids[1]
            == destination_user_id)
        ||| (self.participant_ids[0] == destination_user_id && self.participant_ids[1]
            == source_user_id)
    }
}

/// One chat entry: source, destination, timestamp and body text. A message
/// carries no identity of its own; it is ordered by position within its
/// owning chat's sequence.
pub struct Message {
    pub source_user_id: u64,
    pub destination_user_id: u64,
    pub timestamp: u64,
    pub message: String,
}

/// The mathematical value of a `Message`: the same fields, with the body
/// text as a sequence of characters.
pub struct MessageModel {
    pub source_user_id: u64,
    pub destination_user_id: u64,
    pub timestamp: u64,
    pub message: Seq<char>,
}

impl View for Message {
    type V = MessageModel;

    open spec fn view(&self) -> MessageModel {
        MessageModel {
            source_user_id: self.source_user_id,
            destination_user_id: self.destination_user_id,
            timestamp: self.timestamp,
            message: self.message@,
        }
    }
}

impl DeepView for Message {
    type V = MessageModel;

    open spec fn deep_view(&self) -> MessageModel {
        self.view()
    }
}

impl Message {
    /// An owned copy holding the same value.
    pub fn duplicate(&self) -> (r: Message)
        ensures
            r@ == self@,
    {
        Message {
            source_user_id: self.source_user_id,
            destination_user_id: self.destination_user_id,
            timestamp: self.timestamp,
            message: self.message.clone(),
        }
    }
}

} // verus!
