//! Typed, recoverable store failures with stable codes and human-readable
//! messages.

use vstd::prelude::*;
use crate::decimal::dec_str_of;
use crate::decimal::u64_to_dec_string;

verus! {

/// A structured, recoverable failure: a stable machine-readable code and a
/// human-readable message interpolating the relevant identifiers.
#[derive(Debug)]
pub struct ApiError {
    pub code: String,
    pub message: String,
}

/// The message text reported when a chat for a participant pair already
/// exists.
pub open spec fn chat_already_exists_message(
    source_user_id: u64,
    destination_user_id: u64,
    existing_chat_id: u64,
) -> Seq<char> {
    "A chat from user id '"@ + dec_str_of(source_user_id as nat) + "' to user id '"@ + dec_str_of(
        destination_user_id as nat,
    ) + "' already exists, chat id: '"@ + dec_str_of(existing_chat_id as nat) + "' "@
}

/// The message text reported when an identity has no recorded messages.
pub open spec fn chat_does_not_exist_message(chat_id: u64) -> Seq<char> {
    "A chat with id '"@ + dec_str_of(chat_id as nat) + "' does not exist"@
}

impl ApiError {
    /// The failure reported when a chat for the given pair already exists,
    /// carrying both participant ids and the existing chat's identity.
    pub fn chat_already_exists(
        source_user_id: u64,
        destination_user_id: u64,
        existing_chat_id: u64,
    ) -> (e: ApiError)
        ensures
            e.code@ == "chat_already_exists"@,
            e.message@ == chat_already_exists_message(
                source_user_id,
                destination_user_id,
                existing_chat_id,
            ),
    {
        let mut message = String::from_str("A chat from user id '");
        message.append(u64_to_dec_string(source_user_id).as_str());
        message.append("' to user id '");
        message.append(u64_to_dec_string(destination_user_id).as_str());
        message.append("' already exists, chat id: '");
        message.append(u64_to_dec_string(existing_chat_id).as_str());
        message.append("' ");
        proof {
            assert(message@ =~= chat_already_exists_message(
                source_user_id,
                destination_user_id,
                existing_chat_id,
            ));
        }
        ApiError { code: String::from_str("chat_already_exists"), message }
    }

    /// The failure reported when no messages were ever recorded for the
    /// requested identity, carrying that identity.
    pub fn chat_does_not_exist(chat_id: u64) -> (e: ApiError)
        ensures
            e.code@ == "chat_does_not_exist"@,
            e.message@ == chat_does_not_exist_message(chat_id),
    {
        let mut message = String::from_str("A chat with id '");
        message.append(u64_to_dec_string(chat_id).as_str());
        message.append("' does not exist");
        proof {
            assert(message@ =~= chat_does_not_exist_message(chat_id));
        }
        ApiError { code: String::from_str("chat_does_not_exist"), message }
    }
}

} // verus!
