//! Auto-unpin handling: what follows from a forwarded post, a migrated group
//! and a change of the bot's own rights.

use crate::chat::{Chat, ChatId, ChatMember, ChatPermissions, Sender};
use crate::commands;
use crate::i18n;
use crate::i18n::{Answer, Catalogs, Lang};
use crate::retry::{ApiError, RequestError};
use crate::rights;
use crate::rights::PermissionsQuery;
use crate::state;
use crate::state::{AppState, SaveRun, StatePaths};
use crate::text;
use vstd::prelude::*;

verus! {

/// Identifier of a message in its chat.
#[derive(Clone, Copy, Debug, PartialEq, Eq, Structural)]
pub struct MessageId(pub i32);

/// Telegram's text where nothing is pinned any more.
pub const NOT_PINNED: &'static str = "message to unpin not found";

/// What a failed unpin request means.
#[derive(Clone, Copy, Debug, PartialEq, Eq, Structural)]
pub enum UnpinFailure {
    /// The group was upgraded to a supergroup; retry against the new id.
    Migrated(ChatId),
    /// The bot lost the pin right; only an admin can fix this.
    NoRights,
    /// The bot is no longer in the chat.
    ChatGone,
    /// The goal already holds: nothing is pinned any more.
    AlreadyDone,
    /// Anything else, including network failures that outlived the retries.
    Fatal,
}

/// Whether a refusal means that there is nothing to unpin.
pub open spec fn means_not_pinned(err: ApiError) -> bool {
    match err {
        ApiError::MessageIdInvalid => true,
        ApiError::Unknown(t) => text::has_text(t@, NOT_PINNED@),
        _ => false,
    }
}

/// Whether a refused unpin means there is nothing to unpin: the message is
/// gone, or it was already unpinned (an admin got there first, or a retried
/// request had actually succeeded). Either way the desired end state is
/// reached. Telegram has no dedicated error for the second case; it arrives as
/// [`ApiError::Unknown`] with the text [`NOT_PINNED`] somewhere in it.
pub fn nothing_to_unpin(err: &ApiError) -> (r: bool)
    ensures
        r == means_not_pinned(*err),
{
    match err {
        ApiError::MessageIdInvalid => true,
        ApiError::Unknown(t) => text::contains_text(t.as_str(), NOT_PINNED),
        _ => false,
    }
}

/// What a failed unpin request means.
pub open spec fn failure_of(err: RequestError) -> UnpinFailure {
    match err {
        RequestError::MigrateToChatId(new_id) => UnpinFailure::Migrated(new_id),
        RequestError::Api(api) => match api {
            ApiError::NotEnoughRightsToManagePins
            | ApiError::NotEnoughRightsToPinMessage => UnpinFailure::NoRights,
            ApiError::ChatNotFound => UnpinFailure::ChatGone,
            _ => if means_not_pinned(api) {
                UnpinFailure::AlreadyDone
            } else {
                UnpinFailure::Fatal
            },
        },
        _ => UnpinFailure::Fatal,
    }
}

/// Classifies an unpin failure by the only thing the caller can do about it.
pub fn classify(err: &RequestError) -> (r: UnpinFailure)
    ensures
        r == failure_of(*err),
{
    match err {
        RequestError::MigrateToChatId(new_id) => UnpinFailure::Migrated(*new_id),
        RequestError::Api(api) => match api {
            ApiError::NotEnoughRightsToManagePins
            | ApiError::NotEnoughRightsToPinMessage => UnpinFailure::NoRights,
            ApiError::ChatNotFound => UnpinFailure::ChatGone,
            _ => if nothing_to_unpin(api) {
                UnpinFailure::AlreadyDone
            } else {
                UnpinFailure::Fatal
            },
        },
        _ => UnpinFailure::Fatal,
    }
}

/// The unpinning of one message: the chat it was posted in, the chat that the
/// next request goes to, and whether the group was found to have migrated.
#[derive(Clone, Copy, Debug, PartialEq, Eq, Structural)]
pub struct UnpinRun {
    pub chat_id: ChatId,
    pub message_id: MessageId,
    pub target: ChatId,
    pub migrated: bool,
}

/// How the unpinning of a message ends.
#[derive(Clone, Copy, Debug, PartialEq, Eq, Structural)]
pub enum UnpinEnd {
    Unpinned,
    /// The group seems to have migrated once more: give up.
    MigratedTwice,
    NoRights,
    ChatGone,
    AlreadyDone,
    Fatal,
}

/// What follows an unpin request.
#[derive(Clone, Copy, Debug, PartialEq, Eq, Structural)]
pub enum UnpinStep {
    Done(UnpinEnd),
    /// Send the request again, to the new target.
    Again(UnpinRun),
}

/// The unpinning of a message before its first request.
pub open spec fn first_run(chat_id: ChatId, message_id: MessageId) -> UnpinRun {
    UnpinRun { chat_id, message_id, target: chat_id, migrated: false }
}

/// The unpinning that a forwarded channel post sets off where `enabled` are
/// the enabled chats.
pub open spec fn unpinning_of(
    enabled: Set<i64>,
    chat_id: ChatId,
    message_id: MessageId,
) -> Option<UnpinRun> {
    if enabled.contains(chat_id.0) {
        Some(first_run(chat_id, message_id))
    } else {
        None
    }
}

/// Handler for automatically forwarded channel posts: they are unpinned in
/// enabled chats only.
pub fn auto_unpin(state: &AppState, chat_id: ChatId, message_id: MessageId) -> (r: Option<UnpinRun>)
    ensures
        r == unpinning_of(state@, chat_id, message_id),
{
    if !state.contains(chat_id) {
        return None;
    }
    Some(UnpinRun { chat_id, message_id, target: chat_id, migrated: false })
}

/// What follows a request of `run` that went as `outcome` says.
pub open spec fn unpin_step(run: UnpinRun, outcome: Result<(), RequestError>) -> UnpinStep {
    match outcome {
        Ok(_) => UnpinStep::Done(UnpinEnd::Unpinned),
        Err(err) => match failure_of(err) {
            UnpinFailure::Migrated(new_id) => if run.migrated {
                UnpinStep::Done(UnpinEnd::MigratedTwice)
            } else {
                UnpinStep::Again(UnpinRun { target: new_id, migrated: true, ..run })
            },
            UnpinFailure::NoRights => UnpinStep::Done(UnpinEnd::NoRights),
            UnpinFailure::ChatGone => UnpinStep::Done(UnpinEnd::ChatGone),
            UnpinFailure::AlreadyDone => UnpinStep::Done(UnpinEnd::AlreadyDone),
            UnpinFailure::Fatal => UnpinStep::Done(UnpinEnd::Fatal),
        },
    }
}

/// Whether `save` can be handed the rewrite that a request of `run` takes which
/// went as `outcome` says, if it takes one.
pub open spec fn may_unpin_on<S: FnOnce(SaveRun) -> Result<(), String>>(
    run: UnpinRun,
    outcome: Result<(), RequestError>,
    before: Set<i64>,
    paths: StatePaths,
    save: S,
) -> bool {
    unpin_step(run, outcome) matches UnpinStep::Again(next) ==> state::may_replace(
        before,
        paths,
        run.chat_id,
        next.target,
        save,
    )
}

/// After a request of `run` that went as `outcome` says, `r.0` follows. Where
/// that is another request, the enabled entry moves along, from `before` to
/// `after`, and `r.1` tells how that went.
pub open spec fn unpins_on<S: FnOnce(SaveRun) -> Result<(), String>>(
    run: UnpinRun,
    outcome: Result<(), RequestError>,
    before: Set<i64>,
    paths: StatePaths,
    save: S,
    after: Set<i64>,
    r: (UnpinStep, Option<Result<bool, String>>),
) -> bool {
    &&& r.0 == unpin_step(run, outcome)
    &&& match r.0 {
        UnpinStep::Done(_) => r.1 is None && after == before,
        UnpinStep::Again(next) => r.1 matches Some(saved) && state::replaces(
            before,
            paths,
            run.chat_id,
            next.target,
            save,
            after,
            saved,
        ),
    }
}

/// What follows a request of `run` that went, after its retries, as `outcome`
/// says. Where the group was upgraded to a supergroup, the enabled entry of
/// the chat moves to the new id, and the request is sent there; how the move
/// went comes second.
pub fn unpin_with_retry<S: FnOnce(SaveRun) -> Result<(), String>>(
    run: UnpinRun,
    outcome: &Result<(), RequestError>,
    state: &mut AppState,
    save: S,
) -> (r: (UnpinStep, Option<Result<bool, String>>))
    requires
        may_unpin_on(run, *outcome, old(state)@, old(state).paths(), save),
    ensures
        unpins_on(run, *outcome, old(state)@, old(state).paths(), save, final(state)@, r),
        final(state).paths() == old(state).paths(),
{
    let end = match outcome {
        Ok(_) => UnpinEnd::Unpinned,
        Err(err) => match classify(err) {
            UnpinFailure::Migrated(new_id) => if run.migrated {
                UnpinEnd::MigratedTwice
            } else {
                let saved = state.replace_and_save(run.chat_id, new_id, save);
                let next = UnpinRun { target: new_id, migrated: true, ..run };
                return (UnpinStep::Again(next), Some(saved));
            },
            UnpinFailure::NoRights => UnpinEnd::NoRights,
            UnpinFailure::ChatGone => UnpinEnd::ChatGone,
            UnpinFailure::AlreadyDone => UnpinEnd::AlreadyDone,
            UnpinFailure::Fatal => UnpinEnd::Fatal,
        },
    };
    (UnpinStep::Done(end), None)
}

/// Unpinning takes two requests at most: one to the chat that the message was
/// posted in and, where that one says that the group migrated, one for the
/// same message to the id that it names.
pub proof fn unpinning_takes_two_requests_at_most(
    chat_id: ChatId,
    message_id: MessageId,
    first: Result<(), RequestError>,
    second: Result<(), RequestError>,
)
    ensures
        match unpin_step(first_run(chat_id, message_id), first) {
            UnpinStep::Done(_) => true,
            UnpinStep::Again(next) => {
                &&& first == Err::<(), RequestError>(RequestError::MigrateToChatId(next.target))
                &&& next.chat_id == chat_id
                &&& next.message_id == message_id
                &&& unpin_step(next, second) is Done
            },
        },
{
}

/// A group that became a supergroup gets a new id; a message about it names
/// the other one.
#[derive(Clone, Copy, Debug, PartialEq, Eq, Structural)]
pub enum ChatMigration {
    /// The chat that the message stands in will be this one.
    To { chat_id: ChatId },
    /// The chat that the message stands in was this one.
    From { chat_id: ChatId },
}

/// The old and the new id that a message in `chat` about `migration` tells of.
pub open spec fn pair_of(chat: ChatId, migration: ChatMigration) -> (ChatId, ChatId) {
    match migration {
        ChatMigration::From { chat_id } => (chat_id, chat),
        ChatMigration::To { chat_id } => (chat, chat_id),
    }
}

/// The ids that a chat-migration message in `chat` moves the enabled set
/// between, or `None` for a message that is not one.
///
/// A basic group upgraded to a supergroup gets a new id, so an entry keyed by
/// the old one would never match an update again: the bot would silently stop
/// unpinning there.
pub fn migration_pair(chat: ChatId, migration: Option<ChatMigration>) -> (r: Option<
    (ChatId, ChatId),
>)
    ensures
        r == match migration {
            Some(m) => Some(pair_of(chat, m)),
            None => None,
        },
{
    match migration {
        // The service message in the upgraded supergroup names the old group.
        Some(ChatMigration::From { chat_id }) => Some((chat_id, chat)),
        // Legacy shape: the last message in the old group names the new one.
        Some(ChatMigration::To { chat_id }) => Some((chat, chat_id)),
        None => None,
    }
}

/// Both messages about an upgrade tell the same of it: the one in the new
/// supergroup and the one in the old group.
pub proof fn both_sides_tell_of_the_same_migration(old_id: ChatId, new_id: ChatId)
    ensures
        pair_of(new_id, ChatMigration::From { chat_id: old_id }) == (old_id, new_id),
        pair_of(old_id, ChatMigration::To { chat_id: new_id }) == (old_id, new_id),
{
}

/// Whether `save` can be handed the rewrite that a message in `chat` about
/// `migration` takes, if it takes one.
pub open spec fn may_migrate<S: FnOnce(SaveRun) -> Result<(), String>>(
    chat: ChatId,
    migration: Option<ChatMigration>,
    before: Set<i64>,
    paths: StatePaths,
    save: S,
) -> bool {
    migration matches Some(m) ==> state::may_replace(
        before,
        paths,
        pair_of(chat, m).0,
        pair_of(chat, m).1,
        save,
    )
}

/// A message in `chat` about `migration`, if it is about one, moves the enabled
/// entry, from `before` to `after`, and `r` tells how that went.
pub open spec fn migrates<S: FnOnce(SaveRun) -> Result<(), String>>(
    chat: ChatId,
    migration: Option<ChatMigration>,
    before: Set<i64>,
    paths: StatePaths,
    save: S,
    after: Set<i64>,
    r: Option<Result<bool, String>>,
) -> bool {
    match migration {
        None => r is None && after == before,
        Some(m) => r matches Some(saved) && state::replaces(
            before,
            paths,
            pair_of(chat, m).0,
            pair_of(chat, m).1,
            save,
            after,
            saved,
        ),
    }
}

/// Keeps the enabled set following a basic group upgraded to a supergroup. The
/// result says how the move of the entry went; it is `None` where the message
/// is not about a migration.
pub fn chat_migrated<S: FnOnce(SaveRun) -> Result<(), String>>(
    chat: ChatId,
    migration: Option<ChatMigration>,
    state: &mut AppState,
    save: S,
) -> (r: Option<Result<bool, String>>)
    requires
        may_migrate(chat, migration, old(state)@, old(state).paths(), save),
    ensures
        final(state).paths() == old(state).paths(),
        migrates(chat, migration, old(state)@, old(state).paths(), save, final(state)@, r),
{
    match migration_pair(chat, migration) {
        Some((old_id, new_id)) => Some(state.replace_and_save(old_id, new_id, save)),
        None => None,
    }
}

/// A change of the bot's own membership in a chat.
#[derive(Clone, Copy, Debug, PartialEq, Eq, Structural)]
pub struct ChatMemberUpdated {
    pub chat: Chat,
    pub new_chat_member: ChatMember,
}

/// What a change of the bot's rights comes to.
#[derive(Debug)]
pub enum RightsChange {
    /// Telegram did not tell the chat's permissions: a transient failure must
    /// not flip the state.
    Unknown,
    /// The bot can still unpin.
    Kept,
    /// The chat was disabled, and is to be told so: see [`announcement`].
    Disabled,
    /// The chat is not enabled any more.
    NotEnabled,
    /// The chat stays enabled because the change could not be saved.
    Unsaved(String),
}

/// How the permissions that a change of the bot's rights calls for are had,
/// where `enabled` are the enabled chats; `None` where it calls for nothing.
pub open spec fn permissions_wanted(
    enabled: Set<i64>,
    upd: ChatMemberUpdated,
) -> Option<PermissionsQuery> {
    if !enabled.contains(upd.chat.id.0) {
        None
    } else if upd.chat.kind is Group {
        Some(PermissionsQuery::AskChat)
    } else {
        Some(PermissionsQuery::NotNeeded)
    }
}

/// Keeps enabled state honest when the bot's own rights change (promotion,
/// demotion, removal). Nothing is to be done in a chat that is not enabled;
/// for another, how to get the permissions that
/// [`rights_changed`] takes.
pub fn my_chat_member(state: &AppState, upd: &ChatMemberUpdated) -> (r: Option<PermissionsQuery>)
    ensures
        r == permissions_wanted(state@, *upd),
{
    if !state.contains(upd.chat.id) {
        return None;
    }
    Some(rights::basic_group_permissions(&upd.chat))
}

/// Whether `save` can be handed the rewrite that the change `upd` of the bot's
/// rights takes, if it takes one.
pub open spec fn may_change_rights<S: FnOnce(SaveRun) -> Result<(), String>>(
    upd: ChatMemberUpdated,
    permissions: Result<Option<ChatPermissions>, RequestError>,
    before: Set<i64>,
    paths: StatePaths,
    save: S,
) -> bool {
    permissions matches Ok(p) ==> !rights::can_unpin(
        upd.chat.kind,
        upd.new_chat_member.kind,
        p,
    ) ==> state::may_remove(before, paths, upd.chat.id, save)
}

/// The change `upd` of the bot's rights, with `permissions` as Telegram told
/// them, comes to `r` and turns the enabled chats `before` into `after`.
pub open spec fn rights_come_to<S: FnOnce(SaveRun) -> Result<(), String>>(
    upd: ChatMemberUpdated,
    permissions: Result<Option<ChatPermissions>, RequestError>,
    before: Set<i64>,
    paths: StatePaths,
    save: S,
    after: Set<i64>,
    r: RightsChange,
) -> bool {
    match permissions {
        Err(_) => r is Unknown && after == before,
        Ok(p) => if rights::can_unpin(upd.chat.kind, upd.new_chat_member.kind, p) {
            r is Kept && after == before
        } else {
            exists|saved: Result<bool, String>|
                {
                    &&& #[trigger] state::removes(before, paths, upd.chat.id, save, after, saved)
                    &&& match saved {
                        Ok(true) => r is Disabled,
                        Ok(false) => r is NotEnabled,
                        Err(e) => r == RightsChange::Unsaved(e),
                    }
                }
        },
    }
}

/// Disables the chat of `upd` where the bot can no longer unpin there, with
/// `permissions` as Telegram told them.
pub fn rights_changed<S: FnOnce(SaveRun) -> Result<(), String>>(
    upd: &ChatMemberUpdated,
    permissions: Result<Option<ChatPermissions>, RequestError>,
    state: &mut AppState,
    save: S,
) -> (r: RightsChange)
    requires
        may_change_rights(*upd, permissions, old(state)@, old(state).paths(), save),
    ensures
        final(state).paths() == old(state).paths(),
        rights_come_to(
            *upd,
            permissions,
            old(state)@,
            old(state).paths(),
            save,
            final(state)@,
            r,
        ),
{
    let p = match permissions {
        Ok(p) => p,
        Err(_) => {
            return RightsChange::Unknown;
        },
    };
    if rights::bot_can_unpin(&upd.chat, &upd.new_chat_member, p) {
        return RightsChange::Kept;
    }
    match state.remove_and_save(upd.chat.id, save) {
        Ok(true) => RightsChange::Disabled,
        Ok(false) => RightsChange::NotEnabled,
        Err(e) => RightsChange::Unsaved(e),
    }
}

/// What a chat is told of a change of the bot's rights in it: that auto-unpin
/// was disabled, where it was.
pub open spec fn announced(change: RightsChange) -> Option<Answer> {
    if change is Disabled {
        Some(Answer::RightsRevoked)
    } else {
        None
    }
}

/// What the chat is told of `change`, if anything.
pub fn announcement(change: &RightsChange) -> (r: Option<Answer>)
    ensures
        r == announced(*change),
{
    match change {
        RightsChange::Disabled => Some(Answer::RightsRevoked),
        _ => None,
    }
}

/// Whether `r` are the words in which the chat is told of `change`, if it is.
pub open spec fn tells(
    langs: Seq<(Seq<char>, Lang)>,
    from: Option<Sender>,
    change: RightsChange,
    r: Option<String>,
) -> bool {
    match announced(change) {
        Some(answer) => r matches Some(words) && i18n::said_to(langs, from, answer, words),
        None => r is None,
    }
}

/// The words in which the chat is told of `change`, if it is told anything: in
/// the language of `from`, who made the change.
pub fn announcement_words(
    catalogs: &Catalogs,
    from: &Option<Sender>,
    change: &RightsChange,
) -> (r: Option<String>)
    ensures
        tells(catalogs@, *from, *change, r),
{
    match announcement(change) {
        Some(answer) => Some(i18n::words_for(catalogs, from, answer)),
        None => None,
    }
}

/// A group that is unpinned in keeps being unpinned in, under its new id, when
/// it is upgraded to a supergroup, whichever side the news of it came from and
/// whether or not the move could be saved. Nothing is unpinned under the old
/// id any more, and no other chat is concerned.
pub proof fn upgraded_groups_keep_being_unpinned<S: FnOnce(SaveRun) -> Result<(), String>>(
    chat: ChatId,
    migration: ChatMigration,
    before: Set<i64>,
    paths: StatePaths,
    save: S,
    after: Set<i64>,
    r: Result<bool, String>,
    message_id: MessageId,
    other: ChatId,
)
    requires
        state::replaces(
            before,
            paths,
            pair_of(chat, migration).0,
            pair_of(chat, migration).1,
            save,
            after,
            r,
        ),
        pair_of(chat, migration).0 != pair_of(chat, migration).1,
        other != pair_of(chat, migration).0,
        other != pair_of(chat, migration).1,
    ensures
        ({
            let (old_id, new_id) = pair_of(chat, migration);
            &&& before.contains(old_id.0) ==> unpinning_of(after, new_id, message_id) == Some(
                first_run(new_id, message_id),
            )
            &&& unpinning_of(after, old_id, message_id) is None
            &&& unpinning_of(after, other, message_id) == unpinning_of(before, other, message_id)
        }),
{
}

/// What the bot answers to `/enable` and `/disable` governs what it does.
/// After [`Enabled`](Answer::Enabled) or
/// [`AlreadyEnabled`](Answer::AlreadyEnabled) forwarded posts are unpinned in
/// the chat; after [`Disabled`](Answer::Disabled) or
/// [`AlreadyDisabled`](Answer::AlreadyDisabled) they are not; after any other
/// answer the chat is treated as before.
pub proof fn answers_govern_unpinning<S: FnOnce(SaveRun) -> Result<(), String>>(
    chat: ChatId,
    before: Set<i64>,
    paths: StatePaths,
    save: S,
    after: Set<i64>,
    changed: Result<bool, String>,
    message_id: MessageId,
)
    ensures
        state::inserts(before, paths, chat, save, after, changed) ==> match commands::enable_answer(
            changed,
        ) {
            Answer::Enabled | Answer::AlreadyEnabled => unpinning_of(after, chat, message_id)
                == Some(first_run(chat, message_id)),
            _ => after == before,
        },
        state::removes(before, paths, chat, save, after, changed) ==> match commands::disable_answer(
            changed,
        ) {
            Answer::Disabled | Answer::AlreadyDisabled => unpinning_of(
                after,
                chat,
                message_id,
            ) is None,
            _ => after == before,
        },
{
}

} // verus!
