//! Who may command the bot, and where the bot itself may unpin.

use crate::chat::{Chat, ChatKind, ChatMember, ChatMemberKind, ChatPermissions};
use vstd::prelude::*;

verus! {

/// The owner and the administrators of a chat are privileged in it.
pub open spec fn privileged(kind: ChatMemberKind) -> bool {
    kind is Owner || kind is Administrator
}

/// Whether `member` may run privileged commands.
pub fn is_privileged(member: &ChatMember) -> (r: bool)
    ensures
        r == privileged(member.kind),
{
    matches!(member.kind, ChatMemberKind::Owner | ChatMemberKind::Administrator(_))
}

/// Whether a bot that takes part in a chat of sort `chat` as `bot` can unpin
/// there. In a supergroup its own pin right counts. An administrator of a
/// basic group has no such right of its own; there the default permissions of
/// the members count.
pub open spec fn can_unpin(
    chat: ChatKind,
    bot: ChatMemberKind,
    defaults: Option<ChatPermissions>,
) -> bool {
    match bot {
        ChatMemberKind::Administrator(own) => match chat {
            ChatKind::Supergroup => own.can_pin_messages,
            ChatKind::Group => defaults matches Some(p) && p.can_pin_messages,
            _ => false,
        },
        _ => false,
    }
}

/// Whether the bot itself can unpin in `chat`.
///
/// - Supergroup: the bot must be an administrator with `can_pin_messages`.
/// - Basic group: an administrator bot does not carry `can_pin_messages`, so
///   the check falls back to the chat's default member permissions.
/// - Anything else: false.
pub fn bot_can_unpin(
    chat: &Chat,
    bot_member: &ChatMember,
    default_permissions: Option<ChatPermissions>,
) -> (r: bool)
    ensures
        r == can_unpin(chat.kind, bot_member.kind, default_permissions),
{
    if chat.is_supergroup() {
        match bot_member.kind {
            ChatMemberKind::Administrator(own) => own.can_pin_messages,
            _ => false,
        }
    } else if chat.is_group() {
        match (bot_member.kind, default_permissions) {
            (ChatMemberKind::Administrator(_), Some(p)) => p.can_pin_messages,
            _ => false,
        }
    } else {
        false
    }
}

/// How the default member permissions that [`bot_can_unpin`] takes are had.
#[derive(Clone, Copy, Debug, PartialEq, Eq, Structural)]
pub enum PermissionsQuery {
    /// They play no part in this chat: go on with `None`.
    NotNeeded,
    /// Ask Telegram for the chat, and take the permissions that it names.
    AskChat,
}

/// Where the default member permissions of `chat` come from: only a basic
/// group keeps the pin right there, because an administrator bot in one
/// carries no `can_pin_messages` of its own.
pub fn basic_group_permissions(chat: &Chat) -> (r: PermissionsQuery)
    ensures
        r == if chat.kind is Group {
            PermissionsQuery::AskChat
        } else {
            PermissionsQuery::NotNeeded
        },
{
    if chat.is_group() {
        PermissionsQuery::AskChat
    } else {
        PermissionsQuery::NotNeeded
    }
}

/// Where the default permissions are not asked for, they do not matter: any
/// two values of them give the same answer.
pub proof fn unasked_permissions_do_not_matter(
    chat: Chat,
    bot: ChatMember,
    p: Option<ChatPermissions>,
    q: Option<ChatPermissions>,
)
    requires
        !(chat.kind is Group),
    ensures
        can_unpin(chat.kind, bot.kind, p) == can_unpin(chat.kind, bot.kind, q),
{
}

/// Private chats and channels are never unpinnable, and nowhere is a bot that
/// is not an administrator able to unpin.
pub proof fn only_group_administrators_unpin(
    chat: Chat,
    bot: ChatMember,
    p: Option<ChatPermissions>,
)
    requires
        can_unpin(chat.kind, bot.kind, p),
    ensures
        chat.kind is Group || chat.kind is Supergroup,
        bot.kind is Administrator,
        privileged(bot.kind),
{
}

} // verus!
