//! In-memory chat table: creation with pair deduplication and identity
//! allocation, and lookup by participant.

use vstd::prelude::*;
use crate::errors::ApiError;
use crate::errors::chat_already_exists_message;
use crate::models::Chat;

verus! {

/// Some stored chat matches the given pair, in either direction.
pub open spec fn has_matching_pair(
    chats: Seq<Chat>,
    source_user_id: u64,
    destination_user_id: u64,
) -> bool {
    exists|i: int|
        0 <= i < chats.len() && (#[trigger] chats[i]).matches_pair(
            source_user_id,
            destination_user_id,
        )
}

/// The chats where the user is a participant, in stored order.
pub open spec fn user_chats(chats: Seq<Chat>, user_id: u64) -> Seq<Chat> {
    chats.filter(|c: Chat| c.has_participant(user_id))
}

/// The chat a successful creation for this pair adds: the next identity
/// (current maximum plus one) and the pair as given.
pub open spec fn is_new_chat_for(
    chat: Chat,
    chats: Seq<Chat>,
    source_user_id: u64,
    destination_user_id: u64,
) -> bool {
    &&& chat.id == chats.len() + 1
    &&& chat.participant_ids[0] == source_user_id
    &&& chat.participant_ids[1] == destination_user_id
}

/// The failure a duplicate creation reports: the stable code and a message
/// carrying both participant ids and the existing chat's identity.
pub open spec fn is_duplicate_pair_error(
    e: ApiError,
    chats: Seq<Chat>,
    source_user_id: u64,
    destination_user_id: u64,
) -> bool {
    &&& e.code@ == "chat_already_exists"@
    &&& exists|i: int|
        0 <= i < chats.len() && (#[trigger] chats[i]).matches_pair(
            source_user_id,
            destination_user_id,
        ) && e.message@ == chat_already_exists_message(
            source_user_id,
            destination_user_id,
            chats[i].id,
        )
}

/// In-memory representation of a database chat table. Chats are held in
/// creation order; identities come from a counter that starts at zero.
pub struct ChatRepository {
    chats: Vec<Chat>,
    current_max_chat_id: u64,
}

impl View for ChatRepository {
    type V = Seq<Chat>;

    closed spec fn view(&self) -> Seq<Chat> {
        self.chats@
    }
}

/// The store's invariant over its visible contents: each chat's identity is
/// its position plus one, so identities start at 1 and increase strictly,
/// and no two chats share a participant pair in either direction.
pub open spec fn chats_wf(chats: Seq<Chat>) -> bool {
    &&& forall|i: int| 0 <= i < chats.len() ==> (#[trigger] chats[i]).id == i + 1
    &&& forall|i: int, j: int|
        #![trigger chats[i], chats[j]]
        0 <= i < j < chats.len() ==> !chats[j].matches_pair(
            chats[i].participant_ids[0],
            chats[i].participant_ids[1],
        )
}

impl ChatRepository {
    /// The identity counter equals the number of stored chats.
    pub closed spec fn counter_matches(&self) -> bool {
        self.current_max_chat_id == self@.len()
    }

    /// Well-formedness: the visible invariant `chats_wf`, and the identity
    /// counter in step with the store.
    pub open spec fn wf(&self) -> bool {
        &&& self.counter_matches()
        &&& chats_wf(self@)
    }

    /// An empty store.
    pub fn new() -> (r: ChatRepository)
        ensures
            r.wf(),
            r@ == Seq::<Chat>::empty(),
    {
        let r = ChatRepository { chats: Vec::new(), current_max_chat_id: 0 };
        proof {
            assert(r@ =~= Seq::<Chat>::empty());
        }
        r
    }

    /// Creates the chat for the given pair, or fails when one already
    /// exists for it (in either direction). A failed creation changes
    /// nothing, so it never consumes an identity.
    pub fn insert(&mut self, source_user_id: u64, destination_user_id: u64) -> (result: Result<
        Chat,
        ApiError,
    >)
        requires
            old(self).wf(),
            old(self)@.len() < u64::MAX,
        ensures
            final(self).wf(),
            has_matching_pair(old(self)@, source_user_id, destination_user_id) ==> {
                &&& final(self)@ == old(self)@
                &&& result is Err
                &&& (result matches Err(e) ==> is_duplicate_pair_error(
                    e,
                    old(self)@,
                    source_user_id,
                    destination_user_id,
                ))
            },
            !has_matching_pair(old(self)@, source_user_id, destination_user_id) ==> {
                &&& result is Ok
                &&& (result matches Ok(chat) ==> is_new_chat_for(
                    chat,
                    old(self)@,
                    source_user_id,
                    destination_user_id,
                ) && final(self)@ == old(self)@.push(chat))
            },
    {
        match self.get_chat_id_if_exists(source_user_id, destination_user_id) {
            Some(chat) => Err(
                ApiError::chat_already_exists(source_user_id, destination_user_id, chat.id),
            ),
            None => {
                self.current_max_chat_id = self.current_max_chat_id + 1;
                let new_chat = Chat {
                    id: self.current_max_chat_id,
                    participant_ids: [source_user_id, destination_user_id],
                };
                self.chats.push(new_chat);
                Ok(new_chat)
            },
        }
    }

    /// Every chat where the user is either participant, in stored order;
    /// empty, never a failure, when the user participates in none.
    pub fn get_chats_for_user(&self, user_id: u64) -> (r: Vec<Chat>)
        ensures
            r@ == user_chats(self@, user_id),
    {
        let mut r: Vec<Chat> = Vec::new();
        let mut i: usize = 0;
        proof {
            assert(self@.subrange(0, 0).filter(|c: Chat| c.has_participant(user_id))
                =~= Seq::<Chat>::empty());
        }
        while i < self.chats.len()
            invariant
                i <= self@.len(),
                r@ == user_chats(self@.subrange(0, i as int), user_id),
            decreases self@.len() - i,
        {
            let c = self.chats[i];
            proof {
                lemma_user_chats_grows(self@.subrange(0, i as int), c, user_id);
                assert(self@.subrange(0, i + 1 as int).drop_last() =~= self@.subrange(0, i as int));
                assert(self@.subrange(0, i + 1 as int) =~= self@.subrange(0, i as int).push(c));
            }
            if c.participant_ids[0] == user_id || c.participant_ids[1] == user_id {
                r.push(c);
            }
            i = i + 1;
        }
        proof {
            assert(self@.subrange(0, self@.len() as int) =~= self@);
        }
        r
    }

    /// The stored chat matching the pair in either direction, if one exists.
    fn get_chat_id_if_exists(&self, source_user_id: u64, destination_user_id: u64) -> (r: Option<
        Chat,
    >)
        ensures
            match r {
                Some(c) => exists|i: int|
                    0 <= i < self@.len() && self@[i] == c && (#[trigger] self@[i]).matches_pair(
                        source_user_id,
                        destination_user_id,
                    ),
                None => !has_matching_pair(self@, source_user_id, destination_user_id),
            },
    {
        let mut i: usize = 0;
        while i < self.chats.len()
            invariant
                i <= self@.len(),
                forall|k: int|
                    0 <= k < i ==> !(#[trigger] self@[k]).matches_pair(
                        source_user_id,
                        destination_user_id,
                    ),
            decreases self@.len() - i,
        {
            let c = self.chats[i];
            if (c.participant_ids[0] == source_user_id && c.participant_ids[1]
                == destination_user_id) || (c.participant_ids[0] == destination_user_id
                && c.participant_ids[1] == source_user_id) {
                return Some(c);
            }
            i = i + 1;
        }
        None
    }
}

/// Filtering for a user commutes with appending one chat: the new chat is
/// kept exactly when the user takes part in it.
proof fn lemma_user_chats_grows(chats: Seq<Chat>, chat: Chat, user_id: u64)
    ensures
        user_chats(chats.push(chat), user_id) == if chat.has_participant(user_id) {
            user_chats(chats, user_id).push(chat)
        } else {
            user_chats(chats, user_id)
        },
{
    reveal(Seq::filter);
    assert(chats.push(chat).drop_last() =~= chats);
    assert(chats.push(chat).last() == chat);
}

/// Identities start at 1 and increase strictly with creation order, and
/// every identity is at most the chat count, so a fresh identity (the count
/// plus one) exceeds them all.
pub proof fn lemma_identities_strictly_increasing(r: &ChatRepository)
    requires
        r.wf(),
    ensures
        r@.len() > 0 ==> r@[0].id == 1,
        forall|i: int, j: int| 0 <= i < j < r@.len() ==> (#[trigger] r@[i]).id < (#[trigger] r@[j]).id,
        forall|i: int| 0 <= i < r@.len() ==> (#[trigger] r@[i]).id <= r@.len(),
{
}

/// After a successful creation for a pair, the store holds a chat matching
/// that pair in both directions, so a repeated creation for the pair must
/// fail under `insert`'s contract.
pub proof fn lemma_duplicate_creation_fails(
    chats: Seq<Chat>,
    source_user_id: u64,
    destination_user_id: u64,
    chat: Chat,
)
    requires
        chat.participant_ids[0] == source_user_id,
        chat.participant_ids[1] == destination_user_id,
    ensures
        has_matching_pair(chats.push(chat), source_user_id, destination_user_id),
        has_matching_pair(chats.push(chat), destination_user_id, source_user_id),
{
    assert(chats.push(chat)[chats.len() as int] == chat);
}

/// Under the store invariant at most one chat matches a given pair, so the
/// failure a duplicate creation reports names precisely the identity of the
/// chat first created for that pair.
pub proof fn lemma_matching_chat_unique(
    chats: Seq<Chat>,
    source_user_id: u64,
    destination_user_id: u64,
)
    requires
        chats_wf(chats),
    ensures
        forall|i: int, j: int|
            #![trigger chats[i], chats[j]]
            0 <= i < chats.len() && 0 <= j < chats.len() && chats[i].matches_pair(
                source_user_id,
                destination_user_id,
            ) && chats[j].matches_pair(source_user_id, destination_user_id) ==> i == j,
{
}

/// `user_chats` is exact: every stored chat the user takes part in appears,
/// everything that appears is a stored chat the user takes part in, and a
/// user in no chat gets the empty sequence.
pub proof fn lemma_user_chats_exact(chats: Seq<Chat>, user_id: u64)
    ensures
        forall|i: int|
            0 <= i < chats.len() && (#[trigger] chats[i]).has_participant(user_id) ==> user_chats(
                chats,
                user_id,
            ).contains(chats[i]),
        forall|j: int|
            0 <= j < user_chats(chats, user_id).len() ==> (#[trigger] user_chats(chats, user_id)[j])
                .has_participant(user_id) && chats.contains(user_chats(chats, user_id)[j]),
        (forall|i: int| 0 <= i < chats.len() ==> !(#[trigger] chats[i]).has_participant(user_id))
            ==> user_chats(chats, user_id) == Seq::<Chat>::empty(),
    decreases chats.len(),
{
    reveal(Seq::filter);
    let pred = |c: Chat| c.has_participant(user_id);
    if chats.len() == 0 {
        assert(chats.filter(pred) =~= Seq::<Chat>::empty());
    } else {
        let prefix = chats.drop_last();
        lemma_user_chats_exact(prefix, user_id);
        assert forall|i: int|
            0 <= i < chats.len() && (#[trigger] chats[i]).has_participant(user_id) implies user_chats(
            chats,
            user_id,
        ).contains(chats[i]) by {
            if i < prefix.len() {
                assert(prefix[i] == chats[i]);
                let k = choose|k: int|
                    0 <= k < user_chats(prefix, user_id).len() && user_chats(prefix, user_id)[k]
                        == chats[i];
                if pred(chats.last()) {
                    assert(user_chats(chats, user_id) == user_chats(prefix, user_id).push(
                        chats.last(),
                    ));
                }
                assert(user_chats(chats, user_id)[k] == chats[i]);
            } else {
                assert(chats[i] == chats.last());
                assert(user_chats(chats, user_id).last() == chats.last());
            }
        }
        assert forall|j: int| 0 <= j < user_chats(chats, user_id).len() implies (
        #[trigger] user_chats(chats, user_id)[j]).has_participant(user_id) && chats.contains(
            user_chats(chats, user_id)[j],
        ) by {
            if j < user_chats(prefix, user_id).len() {
                assert(user_chats(chats, user_id)[j] == user_chats(prefix, user_id)[j]);
                let k = choose|k: int| 0 <= k < prefix.len() && prefix[k] == user_chats(
                    prefix,
                    user_id,
                )[j];
                assert(chats[k] == user_chats(chats, user_id)[j]);
            } else {
                assert(user_chats(chats, user_id)[j] == chats.last());
                assert(chats[chats.len() - 1] == chats.last());
            }
        }
        if forall|i: int| 0 <= i < chats.len() ==> !(#[trigger] chats[i]).has_participant(user_id) {
            assert(forall|i: int|
                0 <= i < prefix.len() ==> !(#[trigger] prefix[i]).has_participant(user_id));
            assert(!pred(chats.last()));
        }
    }
}

} // verus!
