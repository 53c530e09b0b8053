//! What the operations are for: each law relates what goes into an operation
//! to what comes out of it, on all inputs.

use crate::chat::{
    Administrator, ChatId, ChatKind, ChatMember, ChatMemberKind, ChatPermissions, Sender,
    UserId,
};
use crate::commands;
use crate::commands::{CallerCheck, Command, CommandMessage, DisableStep, EnableStep};
use crate::config;
use crate::dispatch;
use crate::dispatch::{IncomingMessage, Route, Stage, Update};
use crate::i18n;
use crate::i18n::{Answer, Lang};
use crate::path;
use crate::profile;
use crate::profile::{BotCommandScope, ProfileRequest};
use crate::retry;
use crate::retry::{ApiError, RequestError, RetryStep};
use crate::rights;
use crate::state;
use crate::state::{EnabledChats, ReadError, SaveOp, SaveRun, StateFile, StatePaths};
use crate::text;
use crate::unpin;
use crate::unpin::{
    ChatMigration, MessageId, RightsChange, UnpinEnd, UnpinFailure, UnpinRun, UnpinStep,
};
use vstd::prelude::*;

verus! {

// ---------------------------------------------------------------------------
// Unpinning
// ---------------------------------------------------------------------------

/// A forwarded post is unpinned just where its chat is enabled, and the first
/// request for it goes to the very chat that the post stands in, about that
/// very post.
pub proof fn posts_are_unpinned_where_they_stand(
    enabled: Set<i64>,
    chat_id: ChatId,
    message_id: MessageId,
)
    ensures
        unpin::unpinning_of(enabled, chat_id, message_id) is Some <==> enabled.contains(chat_id.0),
        unpin::unpinning_of(enabled, chat_id, message_id) matches Some(run) ==> {
            &&& run.target == chat_id
            &&& run.chat_id == chat_id
            &&& run.message_id == message_id
            &&& !run.migrated
        },
        unpin::first_run(chat_id, message_id).target == chat_id,
        unpin::first_run(chat_id, message_id).chat_id == chat_id,
        unpin::first_run(chat_id, message_id).message_id == message_id,
        !unpin::first_run(chat_id, message_id).migrated,
{
}

/// A migration is followed once: a run that has not migrated yet goes on, to
/// the id that Telegram names and about the same post, and one that has gives
/// up. No other answer makes a run go on.
pub proof fn one_migration_is_followed(
    run: UnpinRun,
    new_id: ChatId,
    outcome: Result<(), RequestError>,
)
    ensures
        !run.migrated ==> (unpin::unpin_step(run, Err(RequestError::MigrateToChatId(new_id)))
            matches UnpinStep::Again(next) && next.target == new_id && next.migrated && next.chat_id
            == run.chat_id && next.message_id == run.message_id),
        run.migrated ==> unpin::unpin_step(run, Err(RequestError::MigrateToChatId(new_id)))
            == UnpinStep::Done(UnpinEnd::MigratedTwice),
        unpin::unpin_step(run, outcome) is Again <==> !run.migrated && (outcome matches Err(
            RequestError::MigrateToChatId(_),
        )),
{
}

/// How a run ends tells what Telegram answered: that the post was unpinned just
/// where the request succeeded, and each failure just where Telegram's error
/// was of that sort.
pub proof fn runs_end_as_telegram_answers(run: UnpinRun, outcome: Result<(), RequestError>)
    ensures
        unpin::unpin_step(run, outcome) == UnpinStep::Done(UnpinEnd::Unpinned) <==> outcome is Ok,
        unpin::unpin_step(run, outcome) == UnpinStep::Done(UnpinEnd::NoRights) <==> (outcome
            matches Err(RequestError::Api(api)) && (api is NotEnoughRightsToManagePins
            || api is NotEnoughRightsToPinMessage)),
        unpin::unpin_step(run, outcome) == UnpinStep::Done(UnpinEnd::ChatGone) <==> (outcome
            matches Err(RequestError::Api(api)) && api is ChatNotFound),
        unpin::unpin_step(run, outcome) == UnpinStep::Done(UnpinEnd::MigratedTwice) <==> run.migrated
            && (outcome matches Err(RequestError::MigrateToChatId(_))),
        unpin::unpin_step(run, outcome) == UnpinStep::Done(UnpinEnd::AlreadyDone) <==> (outcome
            matches Err(RequestError::Api(api)) && (api is MessageIdInvalid || (api
            matches ApiError::Unknown(t) && exists|i: int|
            0 <= i <= t@.len() - 26 && #[trigger] t@.subrange(i, i + 26)
                == "message to unpin not found"@))),
{
    reveal_strlit("message to unpin not found");
    if let Err(RequestError::Api(ApiError::Unknown(t))) = outcome {
        assert(forall|i: int| #[trigger]
            t@.subrange(i, i + 26) == t@.subrange(i, i + unpin::NOT_PINNED@.len()));
    }
}

/// What a failure means is settled by Telegram's error alone.
pub proof fn failures_mean_what_telegram_says(err: RequestError, id: ChatId)
    ensures
        unpin::failure_of(err) == UnpinFailure::Migrated(id) <==> err
            == RequestError::MigrateToChatId(id),
        unpin::failure_of(err) is Migrated <==> err is MigrateToChatId,
        unpin::failure_of(err) is NoRights <==> (err matches RequestError::Api(api) && (
            api is NotEnoughRightsToManagePins || api is NotEnoughRightsToPinMessage)),
        unpin::failure_of(err) is ChatGone <==> (err matches RequestError::Api(api)
            && api is ChatNotFound),
        unpin::failure_of(err) is AlreadyDone <==> (err matches RequestError::Api(api) && (
        api is MessageIdInvalid || (api matches ApiError::Unknown(t) && exists|i: int|
            0 <= i <= t@.len() - 26 && #[trigger] t@.subrange(i, i + 26)
                == "message to unpin not found"@))),
        err is Network || err is Other ==> unpin::failure_of(err) is Fatal,
{
    reveal_strlit("message to unpin not found");
    if let RequestError::Api(ApiError::Unknown(t)) = err {
        assert(forall|i: int| #[trigger]
            t@.subrange(i, i + 26) == t@.subrange(i, i + unpin::NOT_PINNED@.len()));
    }
}

/// A first migration moves the enabled entry of the run's chat to the new id,
/// whatever becomes of the save, and says how that went; after every other
/// answer the run is over and the set as it was.
pub proof fn the_entry_moves_with_the_run<S: FnOnce(SaveRun) -> Result<(), String>>(
    run: UnpinRun,
    outcome: Result<(), RequestError>,
    new_id: ChatId,
    before: Set<i64>,
    paths: StatePaths,
    save: S,
    after: Set<i64>,
    r: (UnpinStep, Option<Result<bool, String>>),
)
    requires
        unpin::unpins_on(run, outcome, before, paths, save, after, r),
    ensures
        !run.migrated && outcome == Err::<(), RequestError>(
            RequestError::MigrateToChatId(new_id),
        ) ==> {
            &&& r.0 matches UnpinStep::Again(next) && next.target == new_id && next.migrated
                && next.chat_id == run.chat_id && next.message_id == run.message_id
            &&& before.contains(run.chat_id.0) ==> after == before.remove(run.chat_id.0).insert(
                new_id.0,
            )
            &&& !before.contains(run.chat_id.0) ==> after == before && r.1 == Some(
                Ok::<bool, String>(false),
            )
            &&& r.1 is Some
            &&& before.contains(run.chat_id.0) && (forall|w: SaveRun, saved: Result<(), String>| #[trigger]
            call_ensures(save, (w,), saved) ==> saved is Ok) ==> r.1 == Some(Ok::<bool, String>(true))
            &&& r.1 matches Some(Err(e)) ==> exists|w: SaveRun|
    {
        &&& w.paths == paths
        &&& w.file.enabled_chats@.no_duplicates()
        &&& w.file.enabled_chats@.to_set() == after
        &&& #[trigger] call_ensures(save, (w,), Err::<(), String>(e))
    }
        },
        !(!run.migrated && (outcome matches Err(RequestError::MigrateToChatId(_)))) ==> {
            &&& r.0 is Done
            &&& r.1 is None
            &&& after == before
        },
{
    one_migration_is_followed(run, new_id, outcome);
    if let Some(saved) = r.1 {
        if let UnpinStep::Again(next) = r.0 {
            moving_fails_only_with_the_save(
                before,
                paths,
                run.chat_id,
                next.target,
                save,
                after,
                saved,
            );
        }
    }
}

/// The news of an upgrade is told from both sides: the chat that a message
/// stands in is the new one where it names the old one, and the old one where
/// it names the new one.
pub proof fn migrations_go_from_the_old_to_the_new(chat: ChatId, migration: ChatMigration)
    ensures
        migration matches ChatMigration::From { chat_id } ==> unpin::pair_of(chat, migration).0
            == chat_id && unpin::pair_of(chat, migration).1 == chat,
        migration matches ChatMigration::To { chat_id } ==> unpin::pair_of(chat, migration).0
            == chat && unpin::pair_of(chat, migration).1 == chat_id,
{
}

/// A message about a migration moves the enabled entry from the old id to the
/// new one, whatever becomes of the save; any other message moves nothing.
pub proof fn news_of_a_migration_moves_the_entry<S: FnOnce(SaveRun) -> Result<(), String>>(
    old_id: ChatId,
    new_id: ChatId,
    chat: ChatId,
    migration: Option<ChatMigration>,
    before: Set<i64>,
    paths: StatePaths,
    save: S,
    after: Set<i64>,
    r: Option<Result<bool, String>>,
)
    requires
        unpin::migrates(chat, migration, before, paths, save, after, r),
    ensures
        migration is None ==> r is None && after == before,
        (migration == Some(ChatMigration::From { chat_id: old_id }) && chat == new_id) || (
        migration == Some(ChatMigration::To { chat_id: new_id }) && chat == old_id) ==> {
            &&& r is Some
            &&& before.contains(old_id.0) ==> after == before.remove(old_id.0).insert(new_id.0)
            &&& !before.contains(old_id.0) ==> after == before && r == Some(
                Ok::<bool, String>(false),
            )
            &&& before.contains(old_id.0) && (forall|w: SaveRun, saved: Result<(), String>| #[trigger]
            call_ensures(save, (w,), saved) ==> saved is Ok) ==> r == Some(Ok::<bool, String>(true))
            &&& r matches Some(Err(e)) ==> exists|w: SaveRun|
    {
        &&& w.paths == paths
        &&& w.file.enabled_chats@.no_duplicates()
        &&& w.file.enabled_chats@.to_set() == after
        &&& #[trigger] call_ensures(save, (w,), Err::<(), String>(e))
    }
        },
{
    if let (Some(m), Some(saved)) = (migration, r) {
        moving_fails_only_with_the_save(
            before,
            paths,
            unpin::pair_of(chat, m).0,
            unpin::pair_of(chat, m).1,
            save,
            after,
            saved,
        );
    }
}

/// The permissions of a chat are asked for just where the chat is an enabled
/// basic group; nothing at all is done about a chat that is not enabled.
pub proof fn permissions_are_asked_of_basic_groups(
    enabled: Set<i64>,
    upd: unpin::ChatMemberUpdated,
)
    ensures
        unpin::permissions_wanted(enabled, upd) is None <==> !enabled.contains(upd.chat.id.0),
        unpin::permissions_wanted(enabled, upd) == Some(rights::PermissionsQuery::AskChat)
            <==> enabled.contains(upd.chat.id.0) && upd.chat.kind is Group,
{
}

/// A change of the bot's rights disables the chat just where the bot can no
/// longer unpin in it, the chat is enabled, and that can be saved. Where
/// Telegram did not tell the permissions, or the rights suffice, the set stays
/// as it was; so it does where the save fails.
pub proof fn lost_rights_disable_the_chat<S: FnOnce(SaveRun) -> Result<(), String>>(
    upd: unpin::ChatMemberUpdated,
    permissions: Result<Option<ChatPermissions>, RequestError>,
    before: Set<i64>,
    paths: StatePaths,
    save: S,
    after: Set<i64>,
    r: RightsChange,
)
    requires
        unpin::rights_come_to(upd, permissions, before, paths, save, after, r),
    ensures
        ({
            let bot = upd.new_chat_member.kind;
            let suffice = permissions matches Ok(p) && {
                ||| upd.chat.kind is Supergroup && bot == ChatMemberKind::Administrator(
                    Administrator { can_pin_messages: true },
                )
                ||| upd.chat.kind is Group && bot is Administrator && p == Some(
                    ChatPermissions { can_pin_messages: true },
                )
            };
            let enabled = before.contains(upd.chat.id.0);
            &&& r is Unknown <==> permissions is Err
            &&& r is Kept <==> suffice
            &&& r is NotEnabled <==> permissions is Ok && !suffice && !enabled
            &&& (r is Disabled || r is Unsaved) <==> permissions is Ok && !suffice && enabled
            &&& r is Disabled ==> after == before.remove(upd.chat.id.0)
            &&& !(r is Disabled) ==> after == before
        }),
        r matches RightsChange::Unsaved(e) ==> exists|w: SaveRun|
            {
                &&& w.paths == paths
                &&& w.file.enabled_chats@.no_duplicates()
                &&& w.file.enabled_chats@.to_set() == before.remove(upd.chat.id.0)
                &&& #[trigger] call_ensures(save, (w,), Err::<(), String>(e))
            },
        (forall|w: SaveRun, saved: Result<(), String>| #[trigger]
            call_ensures(save, (w,), saved) ==> saved is Ok) ==> !(r is Unsaved),
{
    if let Ok(p) = permissions {
        if !rights::can_unpin(upd.chat.kind, upd.new_chat_member.kind, p) {
            let saved = choose|saved: Result<bool, String>|
                {
                    &&& #[trigger] state::removes(before, paths, upd.chat.id, save, after, saved)
                    &&& match saved {
                        Ok(true) => r is Disabled,
                        Ok(false) => r is NotEnabled,
                        Err(e) => r == RightsChange::Unsaved(e),
                    }
                };
            removing_fails_only_with_the_save(before, paths, upd.chat.id, save, after, saved);
            if let Err(e) = saved {
                let w = choose|w: SaveRun|
                    {
                        &&& w.paths == paths
                        &&& w.file.enabled_chats@.no_duplicates()
                        &&& w.file.enabled_chats@.to_set() == before.remove(upd.chat.id.0)
                        &&& #[trigger] call_ensures(save, (w,), Err::<(), String>(e))
                    };
                assert(call_ensures(save, (w,), Err::<(), String>(r->Unsaved_0)));
            }
        }
    }
}

/// A chat is told that the bot lost its rights just where that disabled it.
pub proof fn disabled_chats_are_told(change: RightsChange)
    ensures
        unpin::announced(change) == Some(Answer::RightsRevoked) <==> change is Disabled,
        unpin::announced(change) is Some ==> change is Disabled,
{
}

/// A chat is told of a change of rights just where that disabled it, in the
/// words of the catalog for whoever made the change.
pub proof fn the_words_tell_of_revoked_rights(
    langs: Seq<(Seq<char>, Lang)>,
    from: Option<Sender>,
    change: RightsChange,
    r: Option<String>,
)
    requires
        unpin::tells(langs, from, change, r),
    ensures
        r is Some <==> change is Disabled,
        r matches Some(words) ==> (i18n::pick(langs, i18n::language_of(from)) matches Some(lang)
            && words == lang.error.rights_revoked),
{
}

// ---------------------------------------------------------------------------
// The enabled chats and their file
// ---------------------------------------------------------------------------

/// Inserting a chat fails only where saving the set with it fails, and then
/// with the error of the save; nothing is changed. Where the save succeeds,
/// the chat is in. A chat that is in already is left there.
pub proof fn inserting_fails_only_with_the_save<S: FnOnce(SaveRun) -> Result<(), String>>(
    before: Set<i64>,
    paths: StatePaths,
    id: ChatId,
    save: S,
    after: Set<i64>,
    r: Result<bool, String>,
)
    requires
        state::inserts(before, paths, id, save, after, r),
    ensures
        before.contains(id.0) ==> r == Ok::<bool, String>(false) && after == before,
        !before.contains(id.0) ==> match r {
            Ok(changed) => {
                &&& changed
                &&& after == before.insert(id.0)
                &&& exists|run: SaveRun|
                    {
                        &&& run.paths == paths
                        &&& run.file.enabled_chats@.no_duplicates()
                        &&& run.file.enabled_chats@.to_set() == before.insert(id.0)
                        &&& #[trigger] call_ensures(save, (run,), Ok::<(), String>(()))
                    }
            },
            Err(e) => {
                &&& after == before
                &&& exists|run: SaveRun|
                    {
                        &&& run.paths == paths
                        &&& run.file.enabled_chats@.no_duplicates()
                        &&& run.file.enabled_chats@.to_set() == before.insert(id.0)
                        &&& #[trigger] call_ensures(save, (run,), Err::<(), String>(e))
                    }
            },
        },
        !before.contains(id.0) && (forall|run: SaveRun, saved: Result<(), String>| #[trigger]
            call_ensures(save, (run,), saved) ==> saved is Ok) ==> r == Ok::<bool, String>(true)
            && after == before.insert(id.0),
{
    if !before.contains(id.0) {
        let saved = choose|saved: Result<(), String>|
            {
                &&& #[trigger] state::save_gives(save, before.insert(id.0), paths, saved)
                &&& match saved {
                    Ok(_) => after == before.insert(id.0) && r == Ok::<bool, String>(true),
                    Err(e) => after == before && r == Err::<bool, String>(e),
                }
            };
        saves_are_of_the_set_given(save, before.insert(id.0), paths, saved);
        if saved is Ok {
            assert(saved->Ok_0 == ());
            assert(saved == Ok::<(), String>(()));
        } else {
            assert(saved == Err::<(), String>(r->Err_0));
        }
    }
}

/// Removing a chat fails only where saving the set without it fails, and then
/// with the error of the save; nothing is changed. Where the save succeeds,
/// the chat is out. A chat that is not in is left out.
pub proof fn removing_fails_only_with_the_save<S: FnOnce(SaveRun) -> Result<(), String>>(
    before: Set<i64>,
    paths: StatePaths,
    id: ChatId,
    save: S,
    after: Set<i64>,
    r: Result<bool, String>,
)
    requires
        state::removes(before, paths, id, save, after, r),
    ensures
        !before.contains(id.0) ==> r == Ok::<bool, String>(false) && after == before,
        before.contains(id.0) ==> match r {
            Ok(changed) => {
                &&& changed
                &&& after == before.remove(id.0)
                &&& exists|run: SaveRun|
                    {
                        &&& run.paths == paths
                        &&& run.file.enabled_chats@.no_duplicates()
                        &&& run.file.enabled_chats@.to_set() == before.remove(id.0)
                        &&& #[trigger] call_ensures(save, (run,), Ok::<(), String>(()))
                    }
            },
            Err(e) => {
                &&& after == before
                &&& exists|run: SaveRun|
                    {
                        &&& run.paths == paths
                        &&& run.file.enabled_chats@.no_duplicates()
                        &&& run.file.enabled_chats@.to_set() == before.remove(id.0)
                        &&& #[trigger] call_ensures(save, (run,), Err::<(), String>(e))
                    }
            },
        },
        before.contains(id.0) && (forall|run: SaveRun, saved: Result<(), String>| #[trigger]
            call_ensures(save, (run,), saved) ==> saved is Ok) ==> r == Ok::<bool, String>(true)
            && after == before.remove(id.0),
{
    if before.contains(id.0) {
        let saved = choose|saved: Result<(), String>|
            {
                &&& #[trigger] state::save_gives(save, before.remove(id.0), paths, saved)
                &&& match saved {
                    Ok(_) => after == before.remove(id.0) && r == Ok::<bool, String>(true),
                    Err(e) => after == before && r == Err::<bool, String>(e),
                }
            };
        saves_are_of_the_set_given(save, before.remove(id.0), paths, saved);
        if saved is Ok {
            assert(saved->Ok_0 == ());
            assert(saved == Ok::<(), String>(()));
        } else {
            assert(saved == Err::<(), String>(r->Err_0));
        }
    }
}

/// Moving a chat that is in changes the set whatever becomes of the save: the
/// old id leaves and the new one enters. It fails only where saving that set
/// fails, and then with the error of the save. A chat that is not in is not
/// moved.
pub proof fn moving_fails_only_with_the_save<S: FnOnce(SaveRun) -> Result<(), String>>(
    before: Set<i64>,
    paths: StatePaths,
    old_id: ChatId,
    new_id: ChatId,
    save: S,
    after: Set<i64>,
    r: Result<bool, String>,
)
    requires
        state::replaces(before, paths, old_id, new_id, save, after, r),
    ensures
        !before.contains(old_id.0) ==> r == Ok::<bool, String>(false) && after == before,
        before.contains(old_id.0) ==> after == before.remove(old_id.0).insert(new_id.0),
        before.contains(old_id.0) ==> match r {
            Ok(changed) => {
                &&& changed
                &&& exists|run: SaveRun|
                    {
                        &&& run.paths == paths
                        &&& run.file.enabled_chats@.no_duplicates()
                        &&& run.file.enabled_chats@.to_set() == after
                        &&& #[trigger] call_ensures(save, (run,), Ok::<(), String>(()))
                    }
            },
            Err(e) => exists|run: SaveRun|
                {
                    &&& run.paths == paths
                    &&& run.file.enabled_chats@.no_duplicates()
                    &&& run.file.enabled_chats@.to_set() == after
                    &&& #[trigger] call_ensures(save, (run,), Err::<(), String>(e))
                },
        },
        before.contains(old_id.0) && (forall|run: SaveRun, saved: Result<(), String>| #[trigger]
            call_ensures(save, (run,), saved) ==> saved is Ok) ==> r == Ok::<bool, String>(true),
{
    if before.contains(old_id.0) {
        let saved = choose|saved: Result<(), String>|
            {
                &&& #[trigger] state::save_gives(
                    save,
                    state::moved(before, old_id, new_id),
                    paths,
                    saved,
                )
                &&& match saved {
                    Ok(_) => r == Ok::<bool, String>(true),
                    Err(e) => r == Err::<bool, String>(e),
                }
            };
        saves_are_of_the_set_given(save, after, paths, saved);
        if saved is Ok {
            assert(saved->Ok_0 == ());
            assert(saved == Ok::<(), String>(()));
        } else {
            assert(saved == Err::<(), String>(r->Err_0));
        }
    }
}

/// What a save gives is what the disk gave for a file that lists just the ids
/// of the set, each once, at the paths given.
pub proof fn saves_are_of_the_set_given<S: FnOnce(SaveRun) -> Result<(), String>>(
    save: S,
    chats: Set<i64>,
    paths: StatePaths,
    saved: Result<(), String>,
)
    requires
        state::save_gives(save, chats, paths, saved),
    ensures
        exists|run: SaveRun|
            {
                &&& run.paths == paths
                &&& run.file.enabled_chats@.no_duplicates()
                &&& run.file.enabled_chats@.to_set() == chats
                &&& #[trigger] call_ensures(save, (run,), saved)
            },
{
    let run = choose|run: SaveRun|
        run.saves(chats, paths) && #[trigger] call_ensures(save, (run,), saved);
    rewrites_hold_the_set(run, chats, paths);
}

/// A rewrite of a set holds just the ids of the set, each once.
pub proof fn rewrites_hold_the_set(run: SaveRun, chats: Set<i64>, paths: StatePaths)
    ensures
        run.saves(chats, paths) <==> {
            &&& run.paths == paths
            &&& run.file.enabled_chats@.no_duplicates()
            &&& forall|id: i64| chats.contains(id) <==> run.file.enabled_chats@.contains(id)
        },
        run.saves(chats, paths) ==> run.file.enabled_chats@.to_set() == chats,
{
    let ids = run.file.enabled_chats@;
    assert(forall|id: i64| ids.to_set().contains(id) <==> ids.contains(id));
    if forall|id: i64| chats.contains(id) <==> ids.contains(id) {
        assert(ids.to_set() =~= chats);
    }
}

/// The disk is asked for nothing but the rewrite that is due, and for none where
/// nothing changes: no more is demanded of a save than that it takes that one.
pub proof fn only_due_rewrites_are_asked_for<S: FnOnce(SaveRun) -> Result<(), String>>(
    before: Set<i64>,
    paths: StatePaths,
    id: ChatId,
    to: ChatId,
    save: S,
)
    ensures
        before.contains(id.0) ==> state::may_insert(before, paths, id, save),
        !before.contains(id.0) ==> state::may_remove(before, paths, id, save),
        !before.contains(id.0) ==> state::may_replace(before, paths, id, to, save),
        (forall|run: SaveRun|
            run.paths == paths && run.file.enabled_chats@.no_duplicates()
                && run.file.enabled_chats@.to_set() == before.insert(id.0) ==> #[trigger]
            call_requires(save, (run,))) ==> state::may_insert(before, paths, id, save),
        (forall|run: SaveRun|
            run.paths == paths && run.file.enabled_chats@.no_duplicates()
                && run.file.enabled_chats@.to_set() == before.remove(id.0) ==> #[trigger]
            call_requires(save, (run,))) ==> state::may_remove(before, paths, id, save),
        (forall|run: SaveRun|
            run.paths == paths && run.file.enabled_chats@.no_duplicates()
                && run.file.enabled_chats@.to_set() == before.remove(id.0).insert(to.0)
                ==> #[trigger] call_requires(save, (run,))) ==> state::may_replace(
            before,
            paths,
            id,
            to,
            save,
        ),
        (forall|run: SaveRun|
            run.paths == paths && run.file.enabled_chats@.no_duplicates()
                && run.file.enabled_chats@.to_set() == before ==> #[trigger] call_requires(
                save,
                (run,),
            )) ==> state::may_save(save, before, paths),
{
}

/// Commands have nothing written where they are refused, nor where there is
/// nothing to change: of the save nothing at all is demanded there. Where
/// there is something to change, no more is demanded than that it takes the
/// rewrite with the chat put in or taken out.
pub proof fn refused_commands_write_nothing<S: FnOnce(SaveRun) -> Result<(), String>>(
    msg: CommandMessage,
    permissions: Option<ChatPermissions>,
    bot: Result<ChatMember, RequestError>,
    caller: Result<ChatMember, RequestError>,
    before: state::AppState,
    save: S,
)
    ensures
        ({
            let id = msg.chat.id.0;
            let can = bot matches Ok(b) && {
                ||| msg.chat.kind is Supergroup && b.kind == ChatMemberKind::Administrator(
                    Administrator { can_pin_messages: true },
                )
                ||| msg.chat.kind is Group && b.kind is Administrator && permissions == Some(
                    ChatPermissions { can_pin_messages: true },
                )
            };
            !can || before@.contains(id) || (forall|w: SaveRun|
                w.paths == before.paths() && w.file.enabled_chats@.no_duplicates()
                    && w.file.enabled_chats@.to_set() == before@.insert(id) ==> #[trigger]
                call_requires(save, (w,))) ==> commands::may_enable(
                msg,
                permissions,
                bot,
                before,
                save,
            )
        }),
        ({
            let id = msg.chat.id.0;
            let group = msg.chat.kind is Group || msg.chat.kind is Supergroup;
            !group || msg.from is None || msg.sender_chat != Some(msg.chat.id) || !before@.contains(
                id,
            ) || (forall|w: SaveRun|
                w.paths == before.paths() && w.file.enabled_chats@.no_duplicates()
                    && w.file.enabled_chats@.to_set() == before@.remove(id) ==> #[trigger]
                call_requires(save, (w,))) ==> commands::may_disable_at_once(msg, before, save)
        }),
        ({
            let id = msg.chat.id.0;
            let admin = caller matches Ok(c) && (c.kind is Owner || c.kind is Administrator);
            !admin || !before@.contains(id) || (forall|w: SaveRun|
                w.paths == before.paths() && w.file.enabled_chats@.no_duplicates()
                    && w.file.enabled_chats@.to_set() == before@.remove(id) ==> #[trigger]
                call_requires(save, (w,))) ==> commands::may_disable_for(msg, caller, before, save)
        }),
{
    only_due_rewrites_are_asked_for(before@, before.paths(), msg.chat.id, msg.chat.id, save);
}

/// Updates have nothing written where nothing changes: for a run that is over or
/// whose chat is not enabled, a message about no migration or about one of a
/// chat that is not enabled, and rights that suffice or are not known. Where
/// something changes, no more is demanded of the save than that it takes the
/// rewrite that is due.
pub proof fn idle_updates_write_nothing<S: FnOnce(SaveRun) -> Result<(), String>>(
    run: UnpinRun,
    outcome: Result<(), RequestError>,
    old_id: ChatId,
    new_id: ChatId,
    chat: ChatId,
    migration: Option<ChatMigration>,
    upd: unpin::ChatMemberUpdated,
    permissions: Result<Option<ChatPermissions>, RequestError>,
    before: Set<i64>,
    paths: StatePaths,
    save: S,
)
    ensures
        run.migrated || !(outcome matches Err(RequestError::MigrateToChatId(_)))
            || !before.contains(run.chat_id.0) ==> unpin::may_unpin_on(
            run,
            outcome,
            before,
            paths,
            save,
        ),
        outcome == Err::<(), RequestError>(RequestError::MigrateToChatId(new_id)) && (forall|
            w: SaveRun,
        |
            w.paths == paths && w.file.enabled_chats@.no_duplicates()
                && w.file.enabled_chats@.to_set() == before.remove(run.chat_id.0).insert(new_id.0)
                ==> #[trigger] call_requires(save, (w,))) ==> unpin::may_unpin_on(
            run,
            outcome,
            before,
            paths,
            save,
        ),
        migration is None ==> unpin::may_migrate(chat, migration, before, paths, save),
        ((migration == Some(ChatMigration::From { chat_id: old_id }) && chat == new_id) || (
        migration == Some(ChatMigration::To { chat_id: new_id }) && chat == old_id)) && (
        !before.contains(old_id.0) || (forall|w: SaveRun|
            w.paths == paths && w.file.enabled_chats@.no_duplicates()
                && w.file.enabled_chats@.to_set() == before.remove(old_id.0).insert(new_id.0)
                ==> #[trigger] call_requires(save, (w,)))) ==> unpin::may_migrate(
            chat,
            migration,
            before,
            paths,
            save,
        ),
        ({
            let bot = upd.new_chat_member.kind;
            let suffice = permissions matches Ok(p) && {
                ||| upd.chat.kind is Supergroup && bot == ChatMemberKind::Administrator(
                    Administrator { can_pin_messages: true },
                )
                ||| upd.chat.kind is Group && bot is Administrator && p == Some(
                    ChatPermissions { can_pin_messages: true },
                )
            };
            permissions is Err || suffice || !before.contains(upd.chat.id.0) || (forall|
                w: SaveRun,
            |
                w.paths == paths && w.file.enabled_chats@.no_duplicates()
                    && w.file.enabled_chats@.to_set() == before.remove(upd.chat.id.0)
                    ==> #[trigger] call_requires(save, (w,))) ==> unpin::may_change_rights(
                upd,
                permissions,
                before,
                paths,
                save,
            )
        }),
{
    only_due_rewrites_are_asked_for(before, paths, run.chat_id, new_id, save);
    only_due_rewrites_are_asked_for(before, paths, old_id, new_id, save);
    only_due_rewrites_are_asked_for(before, paths, upd.chat.id, new_id, save);
}

/// Loading gives just the ids that the file lists, as the parser reads it. A
/// missing file gives none. It fails just where the file cannot be read or the
/// parser refuses it, and says which file and why.
pub proof fn loading_gives_what_the_file_lists<P: Fn(&Vec<u8>) -> Result<StateFile, String>>(
    path: Seq<char>,
    read: Result<Vec<u8>, ReadError>,
    parse: P,
    r: Result<EnabledChats, String>,
)
    requires
        state::loads(path, read, parse, r),
    ensures
        r matches Ok(loaded) ==> loaded.paths().target@ == path,
        read matches Err(e) ==> match e {
            ReadError::NotFound => r matches Ok(loaded) && forall|id: i64| !loaded@.contains(id),
            ReadError::NotADirectory => r matches Ok(loaded) && forall|id: i64|
                !loaded@.contains(id),
            ReadError::Other(e) => r matches Err(m) && m@ == "cannot read "@ + path + ": "@ + e@,
        },
        read matches Ok(bytes) ==> match r {
            Ok(loaded) => exists|file: StateFile|
                {
                    &&& #[trigger] call_ensures(parse, (&bytes,), Ok::<StateFile, String>(file))
                    &&& forall|id: i64|
                        loaded@.contains(id) <==> file.enabled_chats@.contains(id)
                },
            Err(m) => exists|e: String|
                {
                    &&& #[trigger] call_ensures(parse, (&bytes,), Err::<StateFile, String>(e))
                    &&& m@ == "cannot parse "@ + path + ": "@ + e@
                },
        },
{
    if let Ok(bytes) = read {
        let parsed = choose|parsed: Result<StateFile, String>|
            {
                &&& #[trigger] call_ensures(parse, (&bytes,), parsed)
                &&& match parsed {
                    Ok(file) => {
                        &&& r matches Ok(loaded)
                        &&& loaded@ == file.ids()
                        &&& loaded.kept_at(path)
                    },
                    Err(e) => {
                        &&& r matches Err(message)
                        &&& message@ == state::cannot("cannot parse "@, path, e@)
                    },
                }
            };
        if let Ok(file) = parsed {
            assert(forall|id: i64|
                file.enabled_chats@.to_set().contains(id) <==> file.enabled_chats@.contains(id));
        }
    }
}

/// A rewrite makes the directory, encodes, clears the sibling, writes it and
/// renames it over the state file, in this order, and ends with the first of
/// these that fails, but for the clearing; the error says what failed where.
pub proof fn rewrites_go_in_order(run: SaveRun, op: SaveOp, outcome: Result<(), String>)
    ensures
        match run.paths.parent {
            Some(dir) => run.first_op() == SaveOp::CreateDirAll(dir),
            None => run.first_op() == SaveOp::Encode,
        },
        op is CreateDirAll ==> run.op_after(op) == Some(SaveOp::Encode),
        op is Encode ==> run.op_after(op) == Some(SaveOp::RemoveFile(run.paths.tmp)),
        op is RemoveFile ==> run.op_after(op) == Some(SaveOp::WriteNew(run.paths.tmp)),
        op is WriteNew ==> run.op_after(op) == Some(
            SaveOp::Rename(run.paths.tmp, run.paths.target),
        ),
        op is Rename ==> run.op_after(op) is None,
        state::op_failure(op, outcome) is Some <==> outcome is Err && !(op is RemoveFile),
        outcome matches Err(e) ==> match op {
            SaveOp::CreateDirAll(dir) => state::op_failure(op, outcome) == Some(
                "cannot create "@ + dir@ + ": "@ + e@,
            ),
            SaveOp::Encode => state::op_failure(op, outcome) == Some(
                "cannot serialize state: "@ + e@,
            ),
            SaveOp::RemoveFile(_) => true,
            SaveOp::WriteNew(tmp) => state::op_failure(op, outcome) == Some(
                "cannot write "@ + tmp@ + ": "@ + e@,
            ),
            SaveOp::Rename(_, target) => state::op_failure(op, outcome) == Some(
                "cannot rename into "@ + target@ + ": "@ + e@,
            ),
        },
{
}

/// What follows a step of a rewrite: the next one in order, or the end; it ends
/// in failure just where a step failed that is not the clearing.
pub proof fn rewrites_go_on_or_end(
    run: SaveRun,
    op: SaveOp,
    outcome: Result<(), String>,
    r: state::SaveStep,
)
    requires
        run.goes_on(op, outcome, r),
    ensures
        ({
            let failed = outcome is Err && !(op is RemoveFile);
            &&& failed <==> (r matches state::SaveStep::Finished(Err(_)))
            &&& !failed && op is Rename <==> r == state::SaveStep::Finished(Ok(()))
            &&& !failed && op is CreateDirAll ==> r == state::SaveStep::Do(SaveOp::Encode)
            &&& !failed && op is Encode ==> r == state::SaveStep::Do(
                SaveOp::RemoveFile(run.paths.tmp),
            )
            &&& op is RemoveFile ==> r == state::SaveStep::Do(SaveOp::WriteNew(run.paths.tmp))
            &&& !failed && op is WriteNew ==> r == state::SaveStep::Do(
                SaveOp::Rename(run.paths.tmp, run.paths.target),
            )
        }),
        r matches state::SaveStep::Finished(Err(m)) ==> match op {
            SaveOp::CreateDirAll(dir) => m@ == "cannot create "@ + dir@ + ": "@ + outcome->Err_0@,
            SaveOp::Encode => m@ == "cannot serialize state: "@ + outcome->Err_0@,
            SaveOp::RemoveFile(_) => false,
            SaveOp::WriteNew(tmp) => m@ == "cannot write "@ + tmp@ + ": "@ + outcome->Err_0@,
            SaveOp::Rename(_, target) => m@ == "cannot rename into "@ + target@ + ": "@
                + outcome->Err_0@,
        },
{
}

/// A rewrite none of whose steps fails goes through all of them, and one whose
/// steps all fail stops at the first.
pub proof fn undisturbed_rewrites_are_whole(
    run: SaveRun,
    outcomes: spec_fn(SaveOp) -> Result<(), String>,
)
    ensures
        (forall|op: SaveOp| (#[trigger] outcomes(op)) is Ok) ==> {
            let steps = seq![
                SaveOp::Encode,
                SaveOp::RemoveFile(run.paths.tmp),
                SaveOp::WriteNew(run.paths.tmp),
                SaveOp::Rename(run.paths.tmp, run.paths.target),
            ];
            &&& state::run_from(run, run.first_op(), outcomes).0 == match run.paths.parent {
                Some(dir) => seq![SaveOp::CreateDirAll(dir)] + steps,
                None => steps,
            }
            &&& state::run_from(run, run.first_op(), outcomes).1 is None
        },
        (forall|op: SaveOp| (#[trigger] outcomes(op)) is Err) ==> {
            &&& state::run_from(run, run.first_op(), outcomes).0 == seq![run.first_op()]
            &&& state::run_from(run, run.first_op(), outcomes).1 is Some
        },
{
    reveal_with_fuel(state::run_from, 6);
    let ops = state::run_from(run, run.first_op(), outcomes).0;
    if forall|op: SaveOp| (#[trigger] outcomes(op)) is Ok {
        assert(outcomes(SaveOp::Encode) is Ok);
        let steps = seq![
            SaveOp::Encode,
            SaveOp::RemoveFile(run.paths.tmp),
            SaveOp::WriteNew(run.paths.tmp),
            SaveOp::Rename(run.paths.tmp, run.paths.target),
        ];
        match run.paths.parent {
            Some(dir) => {
                assert(ops =~= seq![SaveOp::CreateDirAll(dir)] + steps);
            },
            None => {
                assert(ops =~= steps);
            },
        }
    }
    if forall|op: SaveOp| (#[trigger] outcomes(op)) is Err {
        assert(outcomes(run.first_op()) is Err);
    }
}

// ---------------------------------------------------------------------------
// Rights and retries
// ---------------------------------------------------------------------------

/// The owner and every administrator may give commands, and nobody else.
pub proof fn owners_and_administrators_are_privileged(kind: ChatMemberKind)
    ensures
        match kind {
            ChatMemberKind::Owner | ChatMemberKind::Administrator(_) => rights::privileged(kind),
            ChatMemberKind::Member
            | ChatMemberKind::Restricted
            | ChatMemberKind::Left
            | ChatMemberKind::Banned => !rights::privileged(kind),
        },
{
}

/// The bot can unpin just where it is an administrator: of a supergroup, with
/// the pin right; of a basic group, where the members have it.
pub proof fn unpinning_takes_the_pin_right(
    own: bool,
    members: bool,
    chat: ChatKind,
    bot: ChatMemberKind,
    p: Option<ChatPermissions>,
)
    ensures
        rights::can_unpin(
            ChatKind::Supergroup,
            ChatMemberKind::Administrator(Administrator { can_pin_messages: own }),
            p,
        ) == own,
        rights::can_unpin(
            ChatKind::Group,
            ChatMemberKind::Administrator(Administrator { can_pin_messages: own }),
            Some(ChatPermissions { can_pin_messages: members }),
        ) == members,
        !rights::can_unpin(ChatKind::Group, bot, None),
        !(bot is Administrator) ==> !rights::can_unpin(chat, bot, p),
        !(chat is Group || chat is Supergroup) ==> !rights::can_unpin(chat, bot, p),
{
}

/// An attempt is repeated just where the network failed it and it was not the
/// third; each wait is half a second longer than the one before.
pub proof fn network_failures_are_tried_three_times(attempts: u32, network: bool)
    ensures
        retry::retry_step(attempts, network) is Again <==> network && attempts < 2,
        retry::retry_step(attempts, network) matches RetryStep::Again {
            after_millis,
            attempts: next,
        } ==> after_millis == 500 * (attempts + 1) && next == attempts + 1,
{
}

/// Only network failures are tried again: success and every other failure is
/// handed back at once.
pub proof fn only_network_failures_are_tried_again(
    attempts: u32,
    outcome: Result<(), RequestError>,
)
    ensures
        retry::next_attempt(attempts, outcome) is Again <==> (outcome matches Err(e) && e is Network)
            && attempts < 2,
        retry::next_attempt(attempts, outcome) matches RetryStep::Again {
            after_millis,
            attempts: next,
        } ==> after_millis == 500 * (attempts + 1) && next == attempts + 1,
{
}

// ---------------------------------------------------------------------------
// Commands
// ---------------------------------------------------------------------------

/// The user whose membership is asked for is the sender, and it is asked for
/// just where there is one who does not speak for the chat itself. Without a
/// sender the command is refused; a sender who speaks for the chat is admitted.
pub proof fn the_sender_is_the_one_asked_for(msg: CommandMessage, user: UserId)
    ensures
        commands::caller_check(msg) == CallerCheck::Ask(user) <==> msg.from == Some(user)
            && msg.sender_chat != Some(msg.chat.id),
        commands::caller_check(msg) is Refused <==> msg.from is None,
        msg.from is None ==> commands::caller_check(msg) == CallerCheck::Refused(Answer::NotAdmin),
        commands::caller_check(msg) is Admitted <==> msg.from is Some && msg.sender_chat == Some(
            msg.chat.id,
        ),
        commands::enable_begins(msg) == EnableStep::AskCaller(user) <==> {
            &&& msg.chat.kind is Group || msg.chat.kind is Supergroup
            &&& msg.from == Some(user)
            &&& msg.sender_chat != Some(msg.chat.id)
        },
        commands::disable_begins(msg) == Some(DisableStep::AskCaller(user)) <==> {
            &&& msg.chat.kind is Group || msg.chat.kind is Supergroup
            &&& msg.from == Some(user)
            &&& msg.sender_chat != Some(msg.chat.id)
        },
{
}

/// How `/enable` begins follows from the chat and the sender: outside groups it
/// is refused, and so is a message without a sender; for one who speaks for
/// the chat the bot's rights are asked for at once.
pub proof fn enabling_begins_with_the_caller(msg: CommandMessage)
    ensures
        commands::in_a_group(msg) <==> msg.chat.kind is Group || msg.chat.kind is Supergroup,
        commands::enable_begins(msg) == EnableStep::Answer(Answer::NotGroup) <==> msg.chat.kind
            is Private || msg.chat.kind is Channel,
        commands::enable_begins(msg) == EnableStep::Answer(Answer::NotAdmin) <==> (
        msg.chat.kind is Group || msg.chat.kind is Supergroup) && msg.from is None,
        commands::enable_begins(msg) is AskPermissions <==> msg.chat.kind is Group && msg.from
            is Some && msg.sender_chat == Some(msg.chat.id),
        commands::enable_begins(msg) is AskBot <==> msg.chat.kind is Supergroup && msg.from is Some
            && msg.sender_chat == Some(msg.chat.id),
        commands::enable_begins(msg) matches EnableStep::AskBot(p) ==> p is None,
{
}

/// How `/disable` begins follows from the chat and the sender; one who speaks
/// for the chat is obeyed at once.
pub proof fn disabling_begins_with_the_caller(msg: CommandMessage)
    ensures
        commands::disable_begins(msg) == Some(DisableStep::Answer(Answer::NotGroup))
            <==> msg.chat.kind is Private || msg.chat.kind is Channel,
        commands::disable_begins(msg) == Some(DisableStep::Answer(Answer::NotAdmin)) <==> (
        msg.chat.kind is Group || msg.chat.kind is Supergroup) && msg.from is None,
        commands::disable_begins(msg) is None <==> (msg.chat.kind is Group || msg.chat.kind
            is Supergroup) && msg.from is Some && msg.sender_chat == Some(msg.chat.id),
{
}

/// A caller goes by the membership that Telegram tells: owners and
/// administrators pass, others are told that they are not, and nobody passes
/// unheard. Who passes with `/enable` has the bot's rights asked for, by way of
/// the chat's permissions in a basic group.
pub proof fn callers_go_by_their_membership(
    msg: CommandMessage,
    user: UserId,
    kind: ChatMemberKind,
    err: RequestError,
)
    ensures
        ({
            let reply = Ok::<ChatMember, RequestError>((ChatMember { user, kind }));
            let admin = kind is Owner || kind is Administrator;
            &&& commands::member_refusal(reply) == if admin {
                None
            } else {
                Some(Answer::NotAdmin)
            }
            &&& !admin ==> commands::after_caller(msg, reply) == EnableStep::Answer(
                Answer::NotAdmin,
            )
            &&& admin && msg.chat.kind is Group ==> commands::after_caller(msg, reply)
                == EnableStep::AskPermissions
            &&& admin && !(msg.chat.kind is Group) ==> commands::after_caller(msg, reply)
                == EnableStep::AskBot(None)
        }),
        commands::member_refusal(Err(err)) == Some(Answer::RetryLater),
        commands::after_caller(msg, Err(err)) == EnableStep::Answer(Answer::RetryLater),
{
}

/// The chat's permissions go with the question for the bot just as Telegram
/// told them; where it did not, the caller is to try again.
pub proof fn permissions_are_handed_on(p: Option<ChatPermissions>, err: RequestError)
    ensures
        commands::after_permissions(Ok(p)) == EnableStep::AskBot(p),
        commands::after_permissions(Err(err)) == EnableStep::Answer(Answer::RetryLater),
{
}

/// `/enable` is refused for the bot's sake just where the bot cannot unpin, or
/// its membership is not known.
pub proof fn enabling_goes_by_the_bots_rights(
    msg: CommandMessage,
    p: Option<ChatPermissions>,
    bot: ChatMember,
    err: RequestError,
)
    ensures
        commands::bot_refusal(msg, p, Err(err)) == Some(Answer::RetryLater),
        commands::bot_refusal(msg, p, Ok(bot)) == Some(Answer::RequireRights)
            || commands::bot_refusal(msg, p, Ok(bot)) is None,
        commands::bot_refusal(msg, p, Ok(bot)) is None <==> {
            ||| msg.chat.kind is Supergroup && bot.kind == ChatMemberKind::Administrator(
                Administrator { can_pin_messages: true },
            )
            ||| msg.chat.kind is Group && bot.kind is Administrator && p == Some(
                ChatPermissions { can_pin_messages: true },
            )
        },
{
}

/// The answer to a change tells what became of it: that it was made, that there
/// was nothing to do, or that it could not be saved.
pub proof fn answers_tell_what_was_done(changed: Result<bool, String>)
    ensures
        commands::enable_answer(changed) == Answer::Enabled <==> changed == Ok::<bool, String>(true),
        commands::enable_answer(changed) == Answer::AlreadyEnabled <==> changed == Ok::<
            bool,
            String,
        >(false),
        commands::enable_answer(changed) == Answer::RetryLater <==> changed is Err,
        commands::disable_answer(changed) == Answer::Disabled <==> changed == Ok::<bool, String>(
            true,
        ),
        commands::disable_answer(changed) == Answer::AlreadyDisabled <==> changed == Ok::<
            bool,
            String,
        >(false),
        commands::disable_answer(changed) == Answer::RetryLater <==> changed is Err,
{
}

/// `/disable` that is obeyed takes the chat out of the set: it is answered
/// `Disabled` just where the chat was in and could be saved away, and
/// `RetryLater` just where the save failed, with the set as it was.
pub proof fn disabling_takes_the_chat_out<S: FnOnce(SaveRun) -> Result<(), String>>(
    msg: CommandMessage,
    before: state::AppState,
    save: S,
    after: state::AppState,
    answer: Answer,
)
    requires
        commands::disables(msg, before, save, after, answer),
    ensures
        answer == Answer::AlreadyDisabled <==> !before@.contains(msg.chat.id.0),
        answer == Answer::Disabled || answer == Answer::AlreadyDisabled || answer
            == Answer::RetryLater,
        answer == Answer::RetryLater ==> after@ == before@,
        answer != Answer::RetryLater ==> after@ == before@.remove(msg.chat.id.0),
        before@.contains(msg.chat.id.0) && (forall|run: SaveRun, saved: Result<(), String>|
         #[trigger]
            call_ensures(save, (run,), saved) ==> saved is Ok) ==> answer == Answer::Disabled,
{
    let removed = choose|removed: Result<bool, String>|
        {
            &&& #[trigger] state::removes(
                before@,
                before.paths(),
                msg.chat.id,
                save,
                after@,
                removed,
            )
            &&& answer == commands::disable_answer(removed)
        };
    removing_fails_only_with_the_save(
        before@,
        before.paths(),
        msg.chat.id,
        save,
        after@,
        removed,
    );
    answers_tell_what_was_done(removed);
    if !before@.contains(msg.chat.id.0) {
        assert(before@.remove(msg.chat.id.0) =~= before@);
    }
}

/// `/enable` is refused just where the bot cannot unpin or its membership is not
/// known, and then changes nothing. Otherwise the chat is enabled, unless that
/// cannot be saved; then it is as it was.
pub proof fn enabling_puts_the_chat_in<S: FnOnce(SaveRun) -> Result<(), String>>(
    msg: CommandMessage,
    permissions: Option<ChatPermissions>,
    reply: Result<ChatMember, RequestError>,
    before: state::AppState,
    save: S,
    after: state::AppState,
    answer: Answer,
)
    requires
        commands::enables(msg, permissions, reply, before, save, after, answer),
    ensures
        ({
            let can = reply matches Ok(bot) && {
                ||| msg.chat.kind is Supergroup && bot.kind == ChatMemberKind::Administrator(
                    Administrator { can_pin_messages: true },
                )
                ||| msg.chat.kind is Group && bot.kind is Administrator && permissions == Some(
                    ChatPermissions { can_pin_messages: true },
                )
            };
            let enabled = before@.contains(msg.chat.id.0);
            &&& answer == Answer::RequireRights <==> reply is Ok && !can
            &&& answer == Answer::AlreadyEnabled <==> can && enabled
            &&& reply is Err ==> answer == Answer::RetryLater
            &&& can && !enabled ==> answer == Answer::Enabled || answer == Answer::RetryLater
            &&& can && !enabled && (forall|w: SaveRun, saved: Result<(), String>| #[trigger]
            call_ensures(save, (w,), saved) ==> saved is Ok) ==> answer == Answer::Enabled
            &&& answer == Answer::Enabled ==> can && !enabled && after@ == before@.insert(
                msg.chat.id.0,
            )
            &&& answer != Answer::Enabled ==> after@ == before@
        }),
{
    if commands::bot_refusal(msg, permissions, reply) is None {
        let inserted = choose|inserted: Result<bool, String>|
            {
                &&& #[trigger] state::inserts(
                    before@,
                    before.paths(),
                    msg.chat.id,
                    save,
                    after@,
                    inserted,
                )
                &&& answer == commands::enable_answer(inserted)
            };
        inserting_fails_only_with_the_save(
            before@,
            before.paths(),
            msg.chat.id,
            save,
            after@,
            inserted,
        );
    }
}

/// `/disable` changes the set only for a caller who may: one who speaks for the
/// chat, at once, or one whom Telegram calls its owner or an administrator.
pub proof fn disabling_obeys_administrators_only<S: FnOnce(SaveRun) -> Result<(), String>>(
    msg: CommandMessage,
    reply: Result<ChatMember, RequestError>,
    before: state::AppState,
    save: S,
    after: state::AppState,
    step: DisableStep,
    answer: Answer,
)
    ensures
        commands::disables_at_once(msg, before, save, after, step) ==> {
            let group = msg.chat.kind is Group || msg.chat.kind is Supergroup;
            let anonymous = msg.sender_chat == Some(msg.chat.id);
            &&& !group ==> step == DisableStep::Answer(Answer::NotGroup) && after@ == before@
            &&& group && msg.from is None ==> step == DisableStep::Answer(Answer::NotAdmin)
                && after@ == before@
            &&& group && !anonymous && msg.from is Some ==> step == DisableStep::AskCaller(
                msg.from->0,
            ) && after@ == before@
            &&& group && anonymous && msg.from is Some ==> (step matches DisableStep::Answer(a)
                && commands::disables(msg, before, save, after, a))
        },
        commands::disables_for(msg, reply, before, save, after, answer) ==> match reply {
            Ok(member) => if member.kind is Owner || member.kind is Administrator {
                commands::disables(msg, before, save, after, answer)
            } else {
                answer == Answer::NotAdmin && after@ == before@
            },
            Err(_) => answer == Answer::RetryLater && after@ == before@,
        },
{
}

/// A text that is addressed to the bot is parsed by its name: as the command of
/// that name, or as unknown. One that mentions another bot is refused with the
/// name of that one.
pub proof fn texts_are_parsed_by_their_name(
    message: Seq<char>,
    bot_name: Seq<char>,
    r: Result<Command, commands::ParseError>,
)
    requires
        commands::parsed(message, bot_name, r),
    ensures
        ({
            let name = commands::command_name(message);
            let here = commands::addressed_to(message, bot_name);
            &&& here && name == "/start"@ ==> r == Ok::<Command, commands::ParseError>(
                Command::Start,
            )
            &&& here && name == "/help"@ ==> r == Ok::<Command, commands::ParseError>(Command::Help)
            &&& here && name == "/enable"@ ==> r == Ok::<Command, commands::ParseError>(
                Command::Enable,
            )
            &&& here && name == "/disable"@ ==> r == Ok::<Command, commands::ParseError>(
                Command::Disable,
            )
            &&& here && name != "/start"@ && name != "/help"@ && name != "/enable"@ && name
                != "/disable"@ ==> (r matches Err(commands::ParseError::UnknownCommand(n)) && n@
                == name)
            &&& !here ==> (r matches Err(commands::ParseError::WrongBotName(n))
                && commands::mentioned_bot(message) == Some(n@))
        }),
{
    commands_have_one_name(commands::command_name(message));
}

/// A command is written as its name, with or without a mention of the bot and
/// with or without more after a space; a second mention does not count.
pub proof fn commands_are_written_so(
    name: Seq<char>,
    bot: Seq<char>,
    more: Seq<char>,
    rest: Seq<char>,
)
    requires
        !name.contains(' ') && !name.contains('@'),
        !bot.contains(' ') && !bot.contains('@'),
        !more.contains(' '),
    ensures
        commands::command_name(name) == name,
        commands::mentioned_bot(name) is None,
        commands::command_name(name + seq![' '] + rest) == name,
        commands::mentioned_bot(name + seq![' '] + rest) is None,
        commands::command_name(name + seq!['@'] + bot) == name,
        commands::mentioned_bot(name + seq!['@'] + bot) == Some(bot),
        commands::command_name(name + seq!['@'] + bot + seq![' '] + rest) == name,
        commands::mentioned_bot(name + seq!['@'] + bot + seq![' '] + rest) == Some(bot),
        commands::command_name(name + seq!['@'] + bot + seq!['@'] + more) == name,
        commands::mentioned_bot(name + seq!['@'] + bot + seq!['@'] + more) == Some(bot),
{
    let n = name.len() as int;
    assert(forall|i: int| 0 <= i < n ==> name.contains(#[trigger] name[i]));
    assert(forall|i: int| 0 <= i < bot.len() ==> bot.contains(#[trigger] bot[i]));
    assert(forall|i: int| 0 <= i < more.len() ==> more.contains(#[trigger] more[i]));
    text::before_is(name, ' ', n);
    text::before_is(name, '@', n);
    assert(name.take(n) =~= name);
    commands::arguments_do_not_matter(name, rest);
    let word = name + seq!['@'] + bot;
    commands::mention_addresses_one_bot(name, bot, bot);
    assert(!word.contains(' ')) by {
        assert forall|i: int| 0 <= i < word.len() implies word[i] != ' ' by {
            if i > n {
                assert(word[i] == bot[i - n - 1]);
            } else if i < n {
                assert(word[i] == name[i]);
            }
        }
    }
    commands::arguments_do_not_matter(word, rest);
    let long = word + seq!['@'] + more;
    let m = word.len() as int;
    assert forall|i: int| 0 <= i < long.len() implies long[i] != ' ' by {
        if i < m {
            assert(word.contains(word[i]));
        } else if i > m {
            assert(long[i] == more[i - m - 1]);
        }
    }
    text::before_is(long, ' ', long.len() as int);
    assert(long.take(long.len() as int) =~= long);
    assert forall|i: int| 0 <= i < n implies long[i] != '@' by {
        assert(long[i] == name[i]);
    }
    text::before_is(long, '@', n);
    assert(long.take(n) =~= name);
    assert(long[n] == '@');
    assert(long.contains('@'));
    let tail = long.skip(n + 1);
    assert(tail =~= bot + seq!['@'] + more);
    assert forall|i: int| 0 <= i < bot.len() implies tail[i] != '@' by {
        assert(tail[i] == bot[i]);
    }
    text::before_is(tail, '@', bot.len() as int);
    assert(tail.take(bot.len() as int) =~= bot);
}

/// A text is addressed to a bot unless it mentions one whose name differs in
/// more than the case of ASCII letters.
pub proof fn mentions_address_by_name(message: Seq<char>, bot_name: Seq<char>)
    ensures
        commands::mentioned_bot(message) is None ==> commands::addressed_to(message, bot_name),
        commands::mentioned_bot(message) matches Some(bot) ==> (commands::addressed_to(
            message,
            bot_name,
        ) <==> {
            &&& bot.len() == bot_name.len()
            &&& forall|i: int| #![trigger bot[i]]
                0 <= i < bot.len() ==> {
                    ||| bot[i] == bot_name[i]
                    ||| 'A' <= bot[i] <= 'Z' && bot_name[i] as u32 == bot[i] as u32 + 32
                    ||| 'A' <= bot_name[i] <= 'Z' && bot[i] as u32 == bot_name[i] as u32 + 32
                }
        }),
{
    if let Some(bot) = commands::mentioned_bot(message) {
        same_but_for_case(bot, bot_name);
    }
}

/// Each command has one name, and no other name is a command.
pub proof fn commands_have_one_name(name: Seq<char>)
    ensures
        commands::command_of(name) == Some(Command::Start) <==> name == "/start"@,
        commands::command_of(name) == Some(Command::Help) <==> name == "/help"@,
        commands::command_of(name) == Some(Command::Enable) <==> name == "/enable"@,
        commands::command_of(name) == Some(Command::Disable) <==> name == "/disable"@,
{
    reveal_strlit("/start");
    reveal_strlit("/help");
    reveal_strlit("/enable");
    reveal_strlit("/disable");
    assert("/start"@[1] != "/help"@[1]);
    assert("/enable"@[1] != "/start"@[1] && "/enable"@[1] != "/help"@[1]);
    assert("/disable"@[1] != "/start"@[1] && "/disable"@[1] != "/help"@[1]);
    assert("/disable"@[1] != "/enable"@[1]);
}

// ---------------------------------------------------------------------------
// Dispatch and start
// ---------------------------------------------------------------------------

/// Every automatically forwarded message goes to the unpin handler, whatever it
/// holds, and no other update does. Of the other messages every one about a
/// migration goes to the handler of that migration. A change of the bot's
/// membership goes to its own handler.
pub proof fn updates_reach_their_handlers(update: Update, bot_name: Seq<char>, m: ChatMigration)
    ensures
        dispatch::route_of(update, bot_name) == Route::AutoUnpin <==> (update
            matches Update::Message(msg) && msg.is_automatic_forward),
        dispatch::route_of(update, bot_name) == Route::ChatMigrated(m) <==> (update
            matches Update::Message(msg) && !msg.is_automatic_forward && msg.migration == Some(m)),
        dispatch::route_of(update, bot_name) == Route::MyChatMember <==> update is MyChatMember,
        update is Other ==> dispatch::route_of(update, bot_name) == Route::Skip,
{
}

/// A message is obeyed just where its text (its caption, if it has no text)
/// names a command and is addressed to the bot, and it is neither a forwarded
/// post nor about a migration.
pub proof fn commands_are_obeyed(
    msg: IncomingMessage,
    words: String,
    bot_name: Seq<char>,
    command: Command,
)
    ensures
        !msg.is_automatic_forward && msg.migration is None && (msg.text == Some(words) || (
        msg.text is None && msg.caption == Some(words))) ==> (dispatch::route_of(
            Update::Message(msg),
            bot_name,
        ) == Route::Command(command) <==> commands::addressed_to(words@, bot_name)
            && commands::command_of(commands::command_name(words@)) == Some(command)),
        dispatch::route_of(Update::Message(msg), bot_name) is Command ==> !msg.is_automatic_forward
            && msg.migration is None && (msg.text is Some || msg.caption is Some),
        dispatch::said(msg) == match msg.text {
            Some(t) => Some(t@),
            None => match msg.caption {
                Some(c) => Some(c@),
                None => None,
            },
        },
{
}

/// The start goes through its steps in order. It ends with a message just where
/// the configuration, the catalogs, the state or the identity failed, and the
/// message ends with the reason.
pub proof fn the_start_goes_in_order(stage: Stage, outcome: Result<(), String>)
    ensures
        dispatch::stage_after(Stage::Config) == Stage::Catalogs,
        dispatch::stage_after(Stage::Catalogs) == Stage::State,
        dispatch::stage_after(Stage::State) == Stage::Writable,
        dispatch::stage_after(Stage::Writable) == Stage::Identity,
        dispatch::stage_after(Stage::Identity) == Stage::Profile,
        dispatch::stage_after(Stage::Profile) == Stage::Dispatch,
        dispatch::fatal_message(stage, outcome) is Some <==> outcome is Err && (stage is Config
            || stage is Catalogs || stage is State || stage is Identity),
        outcome matches Err(e) && (stage is Config || stage is Catalogs || stage is State)
            ==> dispatch::fatal_message(stage, outcome) == Some("unpinbot: "@ + outcome->Err_0@),
        outcome is Err && stage is Identity ==> dispatch::fatal_message(stage, outcome) == Some(
            "unpinbot: "@ + ("cannot reach Telegram with provided token: "@ + outcome->Err_0@),
        ),
{
}

/// What follows a step of the start: the next step, or the end with the reason
/// where a step failed that the bot cannot do without.
pub proof fn the_start_goes_on_or_ends(
    stage: Stage,
    outcome: Result<(), String>,
    r: dispatch::StartStep,
)
    requires
        dispatch::starts_on(stage, outcome, r),
    ensures
        r is Fatal <==> outcome is Err && (stage is Config || stage is Catalogs || stage is State
            || stage is Identity),
        r matches dispatch::StartStep::Fatal(m) && !(stage is Identity) ==> r->Fatal_0@
            == "unpinbot: "@ + outcome->Err_0@,
        r matches dispatch::StartStep::Fatal(m) && stage is Identity ==> r->Fatal_0@
            == "unpinbot: "@ + ("cannot reach Telegram with provided token: "@ + outcome->Err_0@),
        r is Go && stage is Config ==> r->Go_0 is Catalogs,
        r is Go && stage is Catalogs ==> r->Go_0 is State,
        r is Go && stage is State ==> r->Go_0 is Writable,
        r is Go && stage is Writable ==> r->Go_0 is Identity,
        r is Go && stage is Identity ==> r->Go_0 is Profile,
        r is Go && (stage is Profile || stage is Dispatch) ==> r->Go_0 is Dispatch,
{
}

// ---------------------------------------------------------------------------
// Languages
// ---------------------------------------------------------------------------

/// Each answer is given in the words that the catalog has for it.
pub proof fn each_answer_has_its_words(lang: Lang)
    ensures
        lang.words(Answer::Start) == lang.start,
        lang.words(Answer::Help) == lang.help,
        lang.words(Answer::Enabled) == lang.enable,
        lang.words(Answer::Disabled) == lang.disable,
        lang.words(Answer::NotGroup) == lang.error.not_group,
        lang.words(Answer::NotAdmin) == lang.error.not_admin,
        lang.words(Answer::RequireRights) == lang.error.require_rights,
        lang.words(Answer::RightsRevoked) == lang.error.rights_revoked,
        lang.words(Answer::AlreadyEnabled) == lang.error.already_enabled,
        lang.words(Answer::AlreadyDisabled) == lang.error.already_disabled,
        lang.words(Answer::RetryLater) == lang.error.retry_later,
{
}

/// The catalog for a code is the first that is declared for it, and there is
/// none just where none is declared.
pub proof fn the_first_declared_catalog_is_found(
    langs: Seq<(Seq<char>, Lang)>,
    code: Seq<char>,
    i: int,
)
    ensures
        0 <= i < langs.len() && langs[i].0 == code && (forall|j: int|
            0 <= j < i ==> (#[trigger] langs[j]).0 != code) ==> i18n::catalog_of(langs, code)
            == Some(langs[i].1),
        (forall|j: int| 0 <= j < langs.len() ==> (#[trigger] langs[j]).0 != code)
            ==> i18n::catalog_of(langs, code) is None,
    decreases langs.len(),
{
    if langs.len() > 0 && langs[0].0 != code {
        let rest = langs.drop_first();
        the_first_declared_catalog_is_found(rest, code, i - 1);
        assert(forall|j: int| 0 <= j < rest.len() ==> rest[j] == langs[j + 1]);
        if 0 <= i < langs.len() && langs[i].0 == code {
            assert(rest[i - 1] == langs[i]);
        }
    }
}

/// A sender whose primary subtag has a catalog is spoken to from the first one
/// declared for it; any other from the first one declared for English.
pub proof fn senders_are_spoken_to_in_their_language(
    langs: Seq<(Seq<char>, Lang)>,
    primary: Seq<char>,
    i: int,
    english: int,
)
    requires
        0 <= english < langs.len(),
        langs[english].0 == "en"@,
        forall|j: int| 0 <= j < english ==> (#[trigger] langs[j]).0 != "en"@,
    ensures
        0 <= i < langs.len() && langs[i].0 == primary && (forall|j: int|
            0 <= j < i ==> (#[trigger] langs[j]).0 != primary) ==> i18n::pick(langs, Some(primary))
            == Some(langs[i].1),
        (forall|j: int| 0 <= j < langs.len() ==> (#[trigger] langs[j]).0 != primary) ==> i18n::pick(
            langs,
            Some(primary),
        ) == Some(langs[english].1),
        i18n::pick(langs, None) == Some(langs[english].1),
{
    the_first_declared_catalog_is_found(langs, primary, i);
    the_first_declared_catalog_is_found(langs, "en"@, english);
}

/// The primary subtag of a tag is the lower case of what stands before its
/// first `-`, or of all of it.
pub proof fn primary_subtags_stand_first(primary: Seq<char>, rest: Seq<char>)
    requires
        !primary.contains('-'),
    ensures
        i18n::primary_subtag(primary) == text::lowercase(primary),
        i18n::primary_subtag(primary + seq!['-'] + rest) == text::lowercase(primary),
        i18n::folded_subtag(primary) == text::lowercase(text::ascii_lower_text(primary)),
        i18n::folded_subtag(primary + seq!['-'] + rest) == text::lowercase(
            text::ascii_lower_text(primary),
        ),
{
    let n = primary.len() as int;
    assert(forall|i: int| 0 <= i < n ==> primary.contains(#[trigger] primary[i]));
    text::before_is(primary, '-', n);
    assert(primary.take(n) =~= primary);
    text::before_ends_at_the_first(primary, '-', rest);
}

/// A tag resolves to the first catalog declared for its primary subtag in small
/// letters, and to the first English one where there is none or no tag; any
/// ASCII subtag will do.
pub proof fn tags_resolve_to_their_language(
    langs: Seq<(Seq<char>, Lang)>,
    primary: Seq<char>,
    rest: Seq<char>,
    lang: Lang,
    i: int,
    english: int,
)
    requires
        !primary.contains('-'),
        forall|j: int| 0 <= j < primary.len() ==> (#[trigger] primary[j] as u32) < 128,
        0 <= english < langs.len(),
        langs[english].0 == "en"@,
        forall|j: int| 0 <= j < english ==> (#[trigger] langs[j]).0 != "en"@,
    ensures
        i18n::resolves(langs, None, lang) ==> lang == langs[english].1,
        i18n::resolves(langs, Some(primary), lang) || i18n::resolves(
            langs,
            Some(primary + seq!['-'] + rest),
            lang,
        ) ==> {
            let small = text::ascii_lower_text(primary);
            &&& 0 <= i < langs.len() && langs[i].0 == small && (forall|j: int|
                0 <= j < i ==> (#[trigger] langs[j]).0 != small) ==> lang == langs[i].1
            &&& (forall|j: int| 0 <= j < langs.len() ==> (#[trigger] langs[j]).0 != small) ==> lang
                == langs[english].1
        },
{
    let n = primary.len() as int;
    assert(forall|k: int| 0 <= k < n ==> primary.contains(#[trigger] primary[k]));
    text::before_is(primary, '-', n);
    assert(primary.take(n) =~= primary);
    text::before_ends_at_the_first(primary, '-', rest);
    senders_are_spoken_to_in_their_language(
        langs,
        text::ascii_lower_text(primary),
        i,
        english,
    );
}

/// Of every tag, the lower case of its primary subtag decides.
pub proof fn the_primary_subtag_decides(
    langs: Seq<(Seq<char>, Lang)>,
    primary: Seq<char>,
    rest: Seq<char>,
    lang: Lang,
    i: int,
    english: int,
)
    requires
        !primary.contains('-'),
        0 <= english < langs.len(),
        langs[english].0 == "en"@,
        forall|j: int| 0 <= j < english ==> (#[trigger] langs[j]).0 != "en"@,
        i18n::resolves(langs, Some(primary), lang) || i18n::resolves(
            langs,
            Some(primary + seq!['-'] + rest),
            lang,
        ),
    ensures
        ({
            let small = text::lowercase(primary);
            &&& 0 <= i < langs.len() && langs[i].0 == small && (forall|j: int|
                0 <= j < i ==> (#[trigger] langs[j]).0 != small) ==> lang == langs[i].1
            &&& (forall|j: int| 0 <= j < langs.len() ==> (#[trigger] langs[j]).0 != small) ==> lang
                == langs[english].1
        }),
{
    primary_subtags_stand_first(primary, rest);
    senders_are_spoken_to_in_their_language(langs, text::lowercase(primary), i, english);
}

/// What a sender is told is in the language of the sender's own tag; without a
/// sender or a tag it is in the fallback language.
pub proof fn senders_are_told_in_their_language(
    langs: Seq<(Seq<char>, Lang)>,
    from: Option<Sender>,
    answer: Answer,
    words: String,
)
    ensures
        from is None ==> i18n::language_of(from) is None,
        from matches Some(sender) ==> match sender.language_code {
            Some(tag) => i18n::language_of(from) == Some(i18n::primary_subtag(tag@)),
            None => i18n::language_of(from) is None,
        },
        i18n::said_to(langs, from, answer, words) ==> (i18n::pick(langs, i18n::language_of(from))
            matches Some(lang) && words == lang.words(answer)),
{
}

/// The built-in languages are English and Chinese, in this order, each with its
/// own text; English is the one to fall back to.
pub proof fn the_built_in_languages()
    ensures
        i18n::embedded_catalogs().len() == 2,
        i18n::embedded_catalogs()[0] == ("en", i18n::EN),
        i18n::embedded_catalogs()[1] == ("zh", i18n::ZH),
        i18n::FALLBACK@ == "en"@,
        forall|code: Seq<char>, e: Seq<char>| #[trigger]
            i18n::invalid_catalog(code, e) == "built-in "@ + code
                + " language file is invalid: "@ + e,
{
}

/// Loading parses the English and the Chinese text, in this order, and keeps
/// both under their codes; it fails with the first that does not parse.
pub proof fn both_catalogs_are_loaded<P: Fn(&str) -> Result<Lang, String>>(
    parse: P,
    r: Result<i18n::Catalogs, String>,
)
    requires
        i18n::loaded(parse, r),
    ensures
        r matches Ok(catalogs) ==> {
            &&& catalogs@.len() == 2
            &&& catalogs@[0].0 == "en"@ && call_ensures(
                parse,
                (i18n::EN,),
                Ok::<Lang, String>(catalogs@[0].1),
            )
            &&& catalogs@[1].0 == "zh"@ && call_ensures(
                parse,
                (i18n::ZH,),
                Ok::<Lang, String>(catalogs@[1].1),
            )
        },
        r matches Err(m) ==> {
            ||| exists|e: String|
                {
                    &&& #[trigger] call_ensures(parse, (i18n::EN,), Err::<Lang, String>(e))
                    &&& m@ == "built-in "@ + "en"@ + " language file is invalid: "@ + e@
                }
            ||| exists|e: String|
                {
                    &&& #[trigger] call_ensures(parse, (i18n::ZH,), Err::<Lang, String>(e))
                    &&& m@ == "built-in "@ + "zh"@ + " language file is invalid: "@ + e@
                }
        },
{
    if let Ok(catalogs) = r {
        let _ = catalogs@[0];
        let _ = catalogs@[1];
    }
}

// ---------------------------------------------------------------------------
// Configuration
// ---------------------------------------------------------------------------

/// What a variable says is what it holds between the white space around it; one
/// that is not set or blank says nothing.
pub proof fn variables_say_what_they_hold(
    before: Seq<char>,
    s: Seq<char>,
    after: Seq<char>,
    value: String,
)
    requires
        forall|i: int| 0 <= i < before.len() ==> text::white_space(#[trigger] before[i]),
        forall|i: int| 0 <= i < after.len() ==> text::white_space(#[trigger] after[i]),
        s.len() > 0 ==> !text::white_space(s[0]) && !text::white_space(s.last()),
        value@ == before + s + after,
    ensures
        s.len() > 0 ==> config::given(Some(value)) == Some(s),
        s.len() == 0 ==> config::given(Some(value)) is None,
        config::given(None) is None,
{
    trimming_leaves_the_middle(before, s, after);
}

/// The complaint about a required variable names it and says whether it is
/// missing or blank; that about a proxy shows it and the reason.
pub proof fn complaints_say_what_is_wrong(
    var: Seq<char>,
    value: Option<String>,
    shown: Seq<char>,
    e: Seq<char>,
)
    ensures
        value is Some ==> config::missing_message(var, value) == "environment variable "@ + var
            + " is set but empty"@,
        value is None ==> config::missing_message(var, value) == "environment variable "@ + var
            + " is not set (get a token from @BotFather)"@,
        config::invalid_proxy(shown, e) == "invalid TELOXIDE_PROXY "@ + shown + ": "@ + e,
{
}

/// The proxy is the one made of the URL between the white space around it; a
/// URL that makes none is complained about, and none is used where no URL is
/// given.
pub proof fn the_proxy_is_the_one_given(
    before: Seq<char>,
    url: Seq<char>,
    after: Seq<char>,
    value: String,
    r: Result<Option<reqwest::Proxy>, Seq<char>>,
)
    requires
        forall|i: int| 0 <= i < before.len() ==> text::white_space(#[trigger] before[i]),
        forall|i: int| 0 <= i < after.len() ==> text::white_space(#[trigger] after[i]),
        url.len() > 0 ==> !text::white_space(url[0]) && !text::white_space(url.last()),
        value@ == before + url + after,
    ensures
        config::proxy_read(None, r) ==> r == Ok::<Option<reqwest::Proxy>, Seq<char>>(None),
        config::proxy_read(Some(value), r) && url.len() == 0 ==> r == Ok::<
            Option<reqwest::Proxy>,
            Seq<char>,
        >(None),
        config::proxy_read(Some(value), r) && url.len() > 0 ==> match config::proxy_for(url) {
            Ok(proxy) => r == Ok::<Option<reqwest::Proxy>, Seq<char>>(Some(proxy)),
            Err(e) => r matches Err(m) && m == "invalid TELOXIDE_PROXY "@ + config::debug_text(url)
                + ": "@ + e,
        },
{
    trimming_leaves_the_middle(before, url, after);
}

/// The configuration is what the variables hold between the white space around
/// them: the token, the path or the one that goes without saying, and the
/// proxy. It is refused just where there is no token or the proxy is none.
pub proof fn the_configuration_is_what_is_given(
    vars: config::EnvVars,
    r: Result<config::Config, String>,
)
    requires
        config::configured(vars, r),
    ensures
        config::given(vars.token) is None ==> (r matches Err(m) && m@ == "environment variable "@
            + "TELOXIDE_TOKEN"@ + match vars.token {
            Some(_) => " is set but empty"@,
            None => " is not set (get a token from @BotFather)"@,
        }),
        r matches Ok(c) ==> {
            &&& config::given(vars.token) == Some(c.token@)
            &&& config::given(vars.state_path) matches Some(p) ==> c.state_path@ == p
            &&& config::given(vars.state_path) is None ==> c.state_path@
                == "pers_data/state.json"@
            &&& match config::given(vars.proxy) {
                Some(url) => config::proxy_for(url) is Ok && c.proxy == Some(
                    config::proxy_for(url)->Ok_0,
                ),
                None => c.proxy is None,
            }
        },
        r is Err && config::given(vars.token) is Some ==> {
            &&& config::given(vars.proxy) is Some
            &&& config::proxy_for(config::given(vars.proxy)->0) is Err
            &&& r->Err_0@ == "invalid TELOXIDE_PROXY "@ + config::debug_text(
                config::given(vars.proxy)->0,
            ) + ": "@ + config::proxy_for(config::given(vars.proxy)->0)->Err_0
        },
{
}

/// The names of the variables, and the path of the state file where none is
/// given.
pub proof fn the_variables_are_called_so()
    ensures
        config::TOKEN_VAR@ == "TELOXIDE_TOKEN"@,
        config::STATE_PATH_VAR@ == "UNPINBOT_STATE_PATH"@,
        config::PROXY_VAR@ == "TELOXIDE_PROXY"@,
        config::DEFAULT_STATE_PATH@ == "pers_data/state.json"@,
{
}

// ---------------------------------------------------------------------------
// The places of the state file
// ---------------------------------------------------------------------------

/// A state file `dir/stem.old` is kept with its directory `dir` made first and
/// its new versions written to `dir/stem.json.tmp`; one without an extension
/// gets one.
pub proof fn the_sibling_is_beside_the_file(
    paths: StatePaths,
    dir: Seq<char>,
    stem: Seq<char>,
    old: Seq<char>,
)
    requires
        paths.located(),
        dir.len() > 0 && dir.last() != '/',
        forall|i: int|
            0 <= i < dir.len() ==> #[trigger] dir[i] != '\\' && dir[i] != ':' && dir[i] != '.',
        forall|i: int| 0 < i < dir.len() && #[trigger] dir[i] == '/' ==> dir[i - 1] != '/',
        stem.len() > 0,
        forall|i: int|
            0 <= i < stem.len() ==> #[trigger] stem[i] != '\\' && stem[i] != ':' && stem[i] != '/'
                && stem[i] != '.',
        forall|i: int|
            0 <= i < old.len() ==> #[trigger] old[i] != '\\' && old[i] != ':' && old[i] != '/'
                && old[i] != '.',
        paths.target@ == dir + seq!['/'] + stem + seq!['.'] + old || paths.target@ == dir
            + seq!['/'] + stem,
    ensures
        paths.tmp@ == dir + seq!['/'] + stem + ".json.tmp"@,
        paths.parent matches Some(d) && d@ == dir,
{
    let p = paths.target@;
    let n = dir.len() as int;
    let m = n + 1 + stem.len();
    reveal_strlit(".json.tmp");
    reveal_strlit("json.tmp");
    reveal_strlit(".");
    assert(forall|i: int| 0 <= i < n ==> p[i] == dir[i]);
    assert(p[n] == '/');
    assert(forall|i: int| n < i < m ==> p[i] == stem[i - n - 1]);
    let dot = if p.len() > m {
        m
    } else {
        -1
    };
    if p.len() > m {
        assert(p[m] == '.');
        assert(forall|i: int| m < i < p.len() ==> p[i] == old[i - m - 1]);
    }
    assert forall|i: int| 0 <= i < p.len() implies #[trigger] p[i] != '\\' && p[i] != ':' && (p[i]
        == '.' ==> i == m) && (p[i] == '/' ==> i <= n) by {
        if i < n {
            assert(p[i] == dir[i]);
        } else if n < i < m {
            assert(p[i] == stem[i - n - 1]);
        } else if i > m {
            assert(p[i] == old[i - m - 1]);
        }
    }
    path::last_at_is(p, '/', n);
    path::last_at_is(p, '.', dot);
    path::last_at_is(p, '\\', -1);
    path::last_at_is(p, ':', -1);
    assert(p[n + 1] == stem[0]);
    assert(!(path::any_slash(p[0]) && path::any_slash(p[1]))) by {
        if n > 1 {
            assert(p[1] == dir[1] && p[0] == dir[0]);
        } else {
            assert(p[0] == dir[0]);
        }
    }
    assert(path::named(p));
    assert forall|i: int| 0 <= i < p.len() && #[trigger] path::component_at(p, i) implies (p[i]
        == '/' ==> i == 0) && (p[i] == '.' && p[i + 1] == '/' ==> i == 0) by {
        if 0 < i < n {
            assert(p[i] == dir[i] && p[i - 1] == dir[i - 1]);
        } else if i == n {
            assert(p[n - 1] == dir[n - 1]);
        }
    }
    assert(path::portable(p));
    assert(p.take(m) =~= dir + seq!['/'] + stem);
    assert(paths.tmp@ =~= dir + seq!['/'] + stem + ".json.tmp"@);
    assert(p.take(n) =~= dir);
}

/// The places of a state file are what the platform makes of its path and the
/// extension `json.tmp`.
pub proof fn places_belong_to_the_path(paths: StatePaths)
    requires
        paths.located(),
    ensures
        path::is_parent(
            paths.target@,
            match paths.parent {
                Some(dir) => Some(dir@),
                None => None,
            },
        ),
        path::is_with_extension(paths.target@, "json.tmp"@, paths.tmp@),
{
}

/// A path with another extension keeps its directory and its stem: only what
/// follows the last dot of its name is replaced, and a name without a dot (but
/// at its beginning) gets an extension.
pub proof fn extensions_are_replaced(
    dir: Seq<char>,
    stem: Seq<char>,
    old: Seq<char>,
    name: Seq<char>,
    extension: Seq<char>,
)
    requires
        dir.len() > 0 ==> dir.last() == '/',
        stem.len() > 0 && !stem.contains('/'),
        !old.contains('/') && !old.contains('.'),
        name.len() > 0 && !name.contains('/'),
        forall|i: int| 0 < i < name.len() ==> #[trigger] name[i] != '.',
    ensures
        path::sibling(dir + stem + seq!['.'] + old, extension) == dir + stem + seq!['.']
            + extension,
        path::sibling(dir + name, extension) == dir + name + seq!['.'] + extension,
{
    reveal_strlit(".");
    let n = dir.len() as int;
    let m = n + stem.len();
    let p = dir + stem + seq!['.'] + old;
    let q = dir + name;
    assert(forall|i: int| 0 <= i < stem.len() ==> stem.contains(#[trigger] stem[i]));
    assert(forall|i: int| 0 <= i < old.len() ==> old.contains(#[trigger] old[i]));
    assert(forall|i: int| 0 <= i < name.len() ==> name.contains(#[trigger] name[i]));
    assert forall|i: int| n <= i < p.len() implies p[i] != '/' by {
        if i < m {
            assert(p[i] == stem[i - n]);
        } else if i > m {
            assert(p[i] == old[i - m - 1]);
        }
    }
    assert forall|i: int| m < i < p.len() implies p[i] != '.' by {
        assert(p[i] == old[i - m - 1]);
    }
    path::last_at_is(p, '/', n - 1);
    path::last_at_is(p, '.', m);
    assert(p.take(m) =~= dir + stem);
    assert(path::sibling(p, extension) =~= dir + stem + seq!['.'] + extension);
    assert forall|i: int| n <= i < q.len() implies q[i] != '/' by {
        assert(q[i] == name[i - n]);
    }
    path::last_at_is(q, '/', n - 1);
    path::last_at_found(q, '.');
    if path::last_at(q, '.') > n {
        assert(q[path::last_at(q, '.')] == name[path::last_at(q, '.') - n]);
    }
    assert(q.take(q.len() as int) =~= q);
    assert(path::sibling(q, extension) =~= dir + name + seq!['.'] + extension);
}

/// The directory of a path is what stands before its last slash; it is the root
/// for a file right under that, and empty for a bare name.
pub proof fn directories_stand_before_the_name(dir: Seq<char>, name: Seq<char>)
    requires
        !name.contains('/'),
    ensures
        dir.len() > 0 ==> path::directory(dir + seq!['/'] + name) == dir,
        path::directory(seq!['/'] + name) == seq!['/'],
        path::directory(name) == Seq::<char>::empty(),
{
    assert(forall|i: int| 0 <= i < name.len() ==> name.contains(#[trigger] name[i]));
    let p = dir + seq!['/'] + name;
    let n = dir.len() as int;
    assert forall|i: int| n < i < p.len() implies p[i] != '/' by {
        assert(p[i] == name[i - n - 1]);
    }
    path::last_at_is(p, '/', n);
    assert(p.take(n) =~= dir);
    let q = seq!['/'] + name;
    assert forall|i: int| 0 < i < q.len() implies q[i] != '/' by {
        assert(q[i] == name[i - 1]);
    }
    path::last_at_is(q, '/', 0);
    assert(q.take(1) =~= seq!['/']);
    path::last_at_is(name, '/', -1);
}

/// A path plainly ends in a file name where a name that begins with neither a
/// dot nor anything that separates stands at its end, unless it begins with two
/// slashes or backslashes. Then it has a parent, and with the extension
/// `json.tmp` it is another path: its sibling, where the name follows a slash or
/// is all there is.
pub proof fn plain_names_end_a_path(dir: Seq<char>, name: Seq<char>, changed: Seq<char>)
    requires
        name.len() > 0 && name[0] != '.',
        !name.contains('/') && !name.contains('\\') && !name.contains(':'),
        dir.len() > 0 ==> dir.last() == '/' || dir.last() == '\\' || dir.last() == ':',
        !(dir.len() > 1 && (dir[0] == '/' || dir[0] == '\\') && (dir[1] == '/' || dir[1]
            == '\\')),
    ensures
        path::named(dir + name),
        dir.len() == 0 || dir.last() == '/' ==> path::named_alike(dir + name),
        path::is_with_extension(dir + name, "json.tmp"@, changed) ==> changed != dir + name,
        path::is_with_extension(dir + name, "json.tmp"@, changed) && (dir.len() == 0 || dir.last()
            == '/') ==> changed == path::sibling(dir + name, "json.tmp"@),
        forall|parent: Option<Seq<char>>| #[trigger]
            path::is_parent(dir + name, parent) ==> parent is Some,
{
    let p = dir + name;
    let n = dir.len() as int;
    reveal_strlit("json.tmp");
    assert("json.tmp"@[4] == '.');
    assert(forall|i: int| 0 <= i < name.len() ==> name.contains(#[trigger] name[i]));
    assert forall|i: int| n <= i < p.len() implies p[i] != '/' && p[i] != '\\' && p[i] != ':' by {
        assert(p[i] == name[i - n]);
    }
    path::last_at_found(p, '/');
    path::last_at_found(p, '\\');
    path::last_at_found(p, ':');
    assert(p[n] == name[0]);
    if n > 0 {
        assert(p[n - 1] == dir.last());
        assert(p[0] == dir[0]);
    }
    if n > 1 {
        assert(p[1] == dir[1]);
    }
}

// ---------------------------------------------------------------------------
// Texts
// ---------------------------------------------------------------------------

/// A text is found where it stands, and nowhere else.
pub proof fn texts_are_found_where_they_stand(
    before: Seq<char>,
    part: Seq<char>,
    after: Seq<char>,
    s: Seq<char>,
)
    ensures
        text::has_text(before + part + after, part),
        text::has_text(s, part) ==> exists|i: int|
            0 <= i <= s.len() - part.len() && #[trigger] s.take(i) + part + s.skip(i + part.len())
                == s,
{
    let all = before + part + after;
    let n = before.len() as int;
    assert(all.subrange(n, n + part.len()) =~= part);
    if text::has_text(s, part) {
        let i = choose|i: int|
            0 <= i <= s.len() - part.len() && #[trigger] s.subrange(i, i + part.len()) == part;
        assert forall|k: int| i <= k < i + part.len() implies s[k] == part[k - i] by {
            assert(s.subrange(i, i + part.len())[k - i] == s[k]);
        }
        assert(s.take(i) + part + s.skip(i + part.len()) =~= s);
    }
}

/// Trimming a text leaves what stands between the white space around it.
pub proof fn trimming_leaves_the_middle(before: Seq<char>, s: Seq<char>, after: Seq<char>)
    requires
        forall|i: int| 0 <= i < before.len() ==> text::white_space(#[trigger] before[i]),
        forall|i: int| 0 <= i < after.len() ==> text::white_space(#[trigger] after[i]),
        s.len() > 0 ==> !text::white_space(s[0]) && !text::white_space(s.last()),
    ensures
        text::trimmed(before + s + after) == s,
{
    text::trimmed_padded(before, s, after);
}

/// White space is what Unicode gives the property White_Space: five control
/// characters and NEL, the spaces, and the separators of lines and paragraphs.
pub proof fn white_space_is_that_of_unicode(c: char)
    ensures
        text::white_space(c) <==> {
            let n = c as u32;
            ||| n == 0x09 || n == 0x0a || n == 0x0b || n == 0x0c || n == 0x0d
            ||| n == 0x85
            ||| n == 0x20 || n == 0xa0 || n == 0x1680
            ||| n == 0x2000 || n == 0x2001 || n == 0x2002 || n == 0x2003 || n == 0x2004
            ||| n == 0x2005 || n == 0x2006 || n == 0x2007 || n == 0x2008 || n == 0x2009
            ||| n == 0x200a || n == 0x202f || n == 0x205f || n == 0x3000
            ||| n == 0x2028 || n == 0x2029
        },
{
}

/// Texts are equal but for the case of ASCII letters just where they are as
/// long and each character is the same, or the same letter in the other case.
pub proof fn same_but_for_case(a: Seq<char>, b: Seq<char>)
    ensures
        text::same_but_for_ascii_case(a, b) <==> {
            &&& a.len() == b.len()
            &&& forall|i: int| #![trigger a[i]]
                0 <= i < a.len() ==> {
                    ||| a[i] == b[i]
                    ||| 'A' <= a[i] <= 'Z' && b[i] as u32 == a[i] as u32 + 32
                    ||| 'A' <= b[i] <= 'Z' && a[i] as u32 == b[i] as u32 + 32
                }
        },
{
    let la = text::ascii_lower_text(a);
    let lb = text::ascii_lower_text(b);
    assert(la.len() == a.len() && lb.len() == b.len());
    if la == lb {
        assert forall|i: int| #![trigger a[i]] 0 <= i < a.len() implies {
            ||| a[i] == b[i]
            ||| 'A' <= a[i] <= 'Z' && b[i] as u32 == a[i] as u32 + 32
            ||| 'A' <= b[i] <= 'Z' && a[i] as u32 == b[i] as u32 + 32
        } by {
            assert(la[i] == lb[i]);
        }
    }
    if a.len() == b.len() && forall|i: int| #![trigger a[i]]
        0 <= i < a.len() ==> {
            ||| a[i] == b[i]
            ||| 'A' <= a[i] <= 'Z' && b[i] as u32 == a[i] as u32 + 32
            ||| 'A' <= b[i] <= 'Z' && a[i] as u32 == b[i] as u32 + 32
        } {
        assert(la =~= lb) by {
            assert forall|i: int| 0 <= i < la.len() implies la[i] == lb[i] by {
                let _ = a[i];
                assert(la[i] == text::ascii_lower(a[i]) && lb[i] == text::ascii_lower(b[i]));
            }
        }
    }
}

/// ASCII capitals have a small letter 32 codes further on; every other
/// character is its own.
pub proof fn capitals_have_small_letters(c: char, s: Seq<char>, i: int)
    ensures
        'A' <= c <= 'Z' ==> text::ascii_lower(c) as u32 == c as u32 + 32,
        !('A' <= c <= 'Z') ==> text::ascii_lower(c) == c,
        text::ascii_lower_text(s).len() == s.len(),
        0 <= i < s.len() ==> text::ascii_lower_text(s)[i] == text::ascii_lower(s[i]),
        text::all_ascii(s) && 0 <= i < s.len() ==> (s[i] as u32) <= 127,
{
}

// ---------------------------------------------------------------------------
// The profile
// ---------------------------------------------------------------------------

/// The bot asks for the right to pin messages and for no other.
pub proof fn the_bot_asks_for_the_pin_right_alone()
    ensures
        ({
            let r = profile::pin_right_only();
            &&& r.can_pin_messages == Some(true)
            &&& !r.is_anonymous && !r.can_manage_chat && !r.can_delete_messages
            &&& !r.can_manage_video_chats && !r.can_restrict_members && !r.can_promote_members
            &&& !r.can_change_info && !r.can_invite_users
            &&& r.can_post_messages is None && r.can_edit_messages is None
            &&& r.can_post_stories is None && r.can_edit_stories is None
            &&& r.can_delete_stories is None && r.can_manage_topics == Some(false)
        }),
{
}

/// A variant of the profile has a menu of two commands for groups, one of all
/// four for administrators, and the description in full and in short, each in
/// the words of its catalog and under its language code.
pub proof fn variants_speak_their_language(
    requests: Seq<ProfileRequest>,
    code: Option<&'static str>,
    lang: Lang,
)
    requires
        profile::registers(requests, code, lang),
    ensures
        requests.len() == 4,
        requests[0] matches ProfileRequest::SetMyCommands { commands, scope, language_code } && {
            &&& commands@.len() == 2
            &&& commands@[0].command@ == "start"@ && commands@[0].description == lang.cmd.start
            &&& commands@[1].command@ == "help"@ && commands@[1].description == lang.cmd.help
            &&& scope == BotCommandScope::AllGroupChats
            &&& language_code == code
        },
        requests[1] matches ProfileRequest::SetMyCommands { commands, scope, language_code } && {
            &&& commands@.len() == 4
            &&& commands@[0].command@ == "start"@ && commands@[0].description == lang.cmd.start
            &&& commands@[1].command@ == "help"@ && commands@[1].description == lang.cmd.help
            &&& commands@[2].command@ == "enable"@ && commands@[2].description == lang.cmd.enable
            &&& commands@[3].command@ == "disable"@ && commands@[3].description == lang.cmd.disable
            &&& scope == BotCommandScope::AllChatAdministrators
            &&& language_code == code
        },
        requests[2] matches ProfileRequest::SetMyDescription { description, language_code }
            && description == lang.description && language_code == code,
        requests[3] matches ProfileRequest::SetMyShortDescription {
            short_description,
            language_code,
        } && short_description == lang.description && language_code == code,
{
}

/// The profile is set up with the rights first, then a variant for every
/// language in order and the one without a code, in the first English catalog.
pub proof fn the_profile_has_every_language(
    requests: Seq<ProfileRequest>,
    langs: Seq<(Seq<char>, Lang)>,
    i: int,
    english: int,
)
    requires
        profile::sets_up(requests, langs),
        0 <= i < langs.len(),
        0 <= english < langs.len(),
        langs[english].0 == "en"@,
        forall|j: int| 0 <= j < english ==> (#[trigger] langs[j]).0 != "en"@,
    ensures
        requests.len() == 5 + 4 * langs.len(),
        requests[0] == ProfileRequest::SetMyDefaultAdministratorRights(profile::pin_right_only()),
        exists|code: &'static str|
            code@ == langs[i].0 && #[trigger] profile::registers(
                requests.subrange(1 + 4 * i, 5 + 4 * i),
                Some(code),
                langs[i].1,
            ),
        profile::registers(
            requests.subrange(1int + 4 * langs.len(), 5int + 4 * langs.len()),
            None,
            langs[english].1,
        ),
{
    senders_are_spoken_to_in_their_language(langs, "en"@, english, english);
    let _ = langs[i];
    let block = profile::block(requests, 1 + 4 * i);
    let code = choose|c: &'static str|
        c@ == langs[i].0 && #[trigger] profile::registers(block, Some(c), langs[i].1);
    assert(profile::registers_language(block, langs[i].0, langs[i].1));
    assert(block == requests.subrange(1 + 4 * i, 5 + 4 * i));
}

} // verus!
