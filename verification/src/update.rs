//! Inbound events, reduced to what the moderation rules read.

use crate::state::{ChatId, MessageId, UserId};
use vstd::prelude::*;

verus! {

/// The sender of a message.
#[derive(Debug, PartialEq, Eq)]
pub struct User {
    pub id: UserId,
    pub is_bot: bool,
    pub first_name: String,
    pub last_name: Option<String>,
    pub username: Option<String>,
}

/// A message posted in a chat.
#[derive(Debug, PartialEq, Eq)]
pub struct Message {
    pub message_id: MessageId,
    pub chat_id: ChatId,
    pub from: Option<User>,
    pub text: Option<String>,
}

/// One inbound event.
#[derive(Debug, PartialEq, Eq)]
pub enum Update {
    Message(Message),
    /// Any event that is not a message.
    Other,
}

/// A member of a chat, by standing.
#[derive(Debug, Clone, Copy, PartialEq, Eq, Structural)]
pub enum ChatMember {
    Creator(UserId),
    Administrator(UserId),
    Other(UserId),
}

fn clone_text(text: &Option<String>) -> (copy: Option<String>)
    ensures
        copy == *text,
{
    match text {
        Some(t) => Some(t.clone()),
        None => None,
    }
}

impl Clone for User {
    fn clone(&self) -> (copy: Self)
        ensures
            copy == *self,
    {
        User {
            id: self.id,
            is_bot: self.is_bot,
            first_name: self.first_name.clone(),
            last_name: clone_text(&self.last_name),
            username: clone_text(&self.username),
        }
    }
}

impl Clone for Message {
    fn clone(&self) -> (copy: Self)
        ensures
            copy == *self,
    {
        let from = match &self.from {
            Some(user) => Some(user.clone()),
            None => None,
        };
        Message {
            message_id: self.message_id,
            chat_id: self.chat_id,
            from,
            text: clone_text(&self.text),
        }
    }
}

impl Message {
    /// The text of the message; empty where it has none.
    pub open spec fn text_or_empty(self) -> Seq<char> {
        match self.text {
            Some(t) => t@,
            None => Seq::empty(),
        }
    }

    /// Whether the message is from a person: it has a sender, who is no bot.
    pub open spec fn from_person(self) -> bool {
        self.from is Some && !self.from->0.is_bot
    }
}

impl Update {
    /// The message that is up for moderation: the update's own, where it is
    /// a message from a person.
    pub open spec fn moderated(self) -> Option<Message> {
        match self {
            Update::Message(m) => if m.from_person() {
                Some(m)
            } else {
                None
            },
            Update::Other => None,
        }
    }

    /// Picks the message to moderate; updates that are no message, or come
    /// from a bot or from nobody, are passed over.
    pub fn message(&self) -> (m: Option<&Message>)
        ensures
            match m {
                Some(found) => self.moderated() == Some(*found),
                None => self.moderated() is None,
            },
    {
        match self {
            Update::Message(m) => match &m.from {
                Some(user) => if !user.is_bot {
                    Some(m)
                } else {
                    None
                },
                None => None,
            },
            Update::Other => None,
        }
    }
}

/// Whether `user_id` is the creator or an administrator among `members`.
pub open spec fn is_admin_among(members: Seq<ChatMember>, user_id: UserId) -> bool {
    exists|i: int|
        0 <= i < members.len() && (#[trigger] members[i] == ChatMember::Creator(user_id)
            || members[i] == ChatMember::Administrator(user_id))
}

/// Whether `user_id` is the creator or an administrator among `members`.
pub fn is_user_admin(members: &Vec<ChatMember>, user_id: UserId) -> (b: bool)
    ensures
        b == is_admin_among(members@, user_id),
{
    let mut i: usize = 0;
    while i < members.len()
        invariant
            i <= members@.len(),
            forall|k: int|
                0 <= k < i ==> !(#[trigger] members@[k] == ChatMember::Creator(user_id)
                    || members@[k] == ChatMember::Administrator(user_id)),
        decreases members@.len() - i,
    {
        let hit = match members[i] {
            ChatMember::Creator(id) => id == user_id,
            ChatMember::Administrator(id) => id == user_id,
            ChatMember::Other(_) => false,
        };
        if hit {
            return true;
        }
        i += 1;
    }
    false
}

/// The cursor for the next poll: one past the largest identifier seen, or
/// the cursor as it was where nothing came.
pub open spec fn offset_after(offset: i64, update_ids: Seq<u32>) -> i64
    decreases update_ids.len(),
{
    if update_ids.len() == 0 {
        offset
    } else {
        (largest(update_ids) + 1) as i64
    }
}

/// The largest of a list of identifiers; 0 for an empty list.
pub open spec fn largest(ids: Seq<u32>) -> int
    decreases ids.len(),
{
    if ids.len() == 0 {
        0
    } else if ids.last() >= largest(ids.drop_last()) {
        ids.last() as int
    } else {
        largest(ids.drop_last())
    }
}

/// Moves the polling cursor past the updates that came.
pub fn next_offset(offset: i64, update_ids: &Vec<u32>) -> (next: i64)
    ensures
        next == offset_after(offset, update_ids@),
{
    if update_ids.len() == 0 {
        return offset;
    }
    let mut max: u32 = 0;
    let mut i: usize = 0;
    assert(update_ids@.take(0) =~= Seq::<u32>::empty());
    while i < update_ids.len()
        invariant
            i <= update_ids@.len(),
            max == largest(update_ids@.take(i as int)),
        decreases update_ids@.len() - i,
    {
        assert(update_ids@.take(i + 1).drop_last() =~= update_ids@.take(i as int));
        if update_ids[i] >= max {
            max = update_ids[i];
        }
        i += 1;
    }
    assert(update_ids@.take(update_ids@.len() as int) =~= update_ids@);
    max as i64 + 1
}

} // verus!
