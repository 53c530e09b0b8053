//! The parts of Telegram's chats, members and requests that the bot looks at.

use vstd::prelude::*;

verus! {

/// Identifier of a chat.
#[derive(Clone, Copy, Debug, PartialEq, Eq, Structural, Hash)]
pub struct ChatId(pub i64);

/// Identifier of a user.
#[derive(Clone, Copy, Debug, PartialEq, Eq, Structural, Hash)]
pub struct UserId(pub u64);

/// A user as the sender of something, with the language of the user's client
/// as an IETF language tag, where it is known.
#[derive(Debug)]
pub struct Sender {
    pub id: UserId,
    pub language_code: Option<String>,
}

/// What sort of chat a chat is.
#[derive(Clone, Copy, Debug, PartialEq, Eq, Structural)]
pub enum ChatKind {
    Private,
    /// A basic group.
    Group,
    Supergroup,
    Channel,
}

/// A chat: its id and its sort.
#[derive(Clone, Copy, Debug, PartialEq, Eq, Structural)]
pub struct Chat {
    pub id: ChatId,
    pub kind: ChatKind,
}

impl Chat {
    /// Whether the chat is a basic group.
    pub fn is_group(&self) -> (r: bool)
        ensures
            r == (self.kind is Group),
    {
        matches!(self.kind, ChatKind::Group)
    }

    /// Whether the chat is a supergroup.
    pub fn is_supergroup(&self) -> (r: bool)
        ensures
            r == (self.kind is Supergroup),
    {
        matches!(self.kind, ChatKind::Supergroup)
    }
}

/// The default rights of a chat's ordinary members, as far as pinning goes.
#[derive(Clone, Copy, Debug, PartialEq, Eq, Structural)]
pub struct ChatPermissions {
    pub can_pin_messages: bool,
}

/// The rights of an administrator, as far as pinning goes.
#[derive(Clone, Copy, Debug, PartialEq, Eq, Structural)]
pub struct Administrator {
    pub can_pin_messages: bool,
}

/// How a user takes part in a chat.
#[derive(Clone, Copy, Debug, PartialEq, Eq, Structural)]
pub enum ChatMemberKind {
    Owner,
    Administrator(Administrator),
    Member,
    Restricted,
    Left,
    Banned,
}

/// A user's membership in a chat.
#[derive(Clone, Copy, Debug, PartialEq, Eq, Structural)]
pub struct ChatMember {
    pub user: UserId,
    pub kind: ChatMemberKind,
}

} // verus!
