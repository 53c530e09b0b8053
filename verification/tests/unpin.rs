use std::cell::RefCell;
use std::collections::BTreeMap;
use unpinbot::chat::{
    Administrator, Chat, ChatId, ChatKind, ChatMember, ChatMemberKind, ChatPermissions, UserId,
};
use unpinbot::commands::{disable, enable_bot, CommandMessage, DisableStep};
use unpinbot::i18n::Answer;
use unpinbot::retry::{with_retry, ApiError, RequestError, RetryStep, MAX_ATTEMPTS};
use unpinbot::rights::{basic_group_permissions, bot_can_unpin, is_privileged, PermissionsQuery};
use unpinbot::state::{
    AppState, EnabledChats, ReadError, SaveOp, SaveRun, SaveStep, StateFile,
};
use unpinbot::unpin::{
    announcement, auto_unpin, chat_migrated, classify, migration_pair, my_chat_member, nothing_to_unpin,
    rights_changed, unpin_with_retry, ChatMemberUpdated, ChatMigration, MessageId, RightsChange,
    UnpinEnd, UnpinFailure, UnpinRun, UnpinStep,
};

const PATH: &str = "data/state.json";

/// A disk in memory.
#[derive(Default)]
struct Disk {
    files: RefCell<BTreeMap<String, Vec<u8>>>,
    dirs: RefCell<Vec<String>>,
    ops: RefCell<Vec<String>>,
    /// Operations whose name is here fail.
    broken: Vec<&'static str>,
}

impl Disk {
    fn with(path: &str, json: &str) -> Disk {
        let disk = Disk::default();
        disk.files.borrow_mut().insert(path.to_owned(), json.as_bytes().to_vec());
        disk
    }

    fn perform(&self, run: &SaveRun, op: &SaveOp, bytes: &mut Vec<u8>) -> Result<(), String> {
        let mut files = self.files.borrow_mut();
        let name = match op {
            SaveOp::CreateDirAll(_) => "create",
            SaveOp::Encode => "encode",
            SaveOp::RemoveFile(_) => "remove",
            SaveOp::WriteNew(_) => "write",
            SaveOp::Rename(_, _) => "rename",
        };
        self.ops.borrow_mut().push(name.to_owned());
        if self.broken.contains(&name) {
            return Err(format!("{name} is broken"));
        }
        match op {
            SaveOp::CreateDirAll(dir) => self.dirs.borrow_mut().push(dir.clone()),
            SaveOp::Encode => {
                let mut map = BTreeMap::new();
                map.insert("enabled_chats", &run.file.enabled_chats);
                *bytes = serde_json::to_vec_pretty(&map).map_err(|e| e.to_string())?;
            }
            SaveOp::RemoveFile(path) => {
                files.remove(path).ok_or("no such file")?;
            }
            SaveOp::WriteNew(path) => {
                if files.contains_key(path) {
                    return Err("file exists".to_owned());
                }
                files.insert(path.clone(), bytes.clone());
            }
            SaveOp::Rename(from, to) => {
                let bytes = files.remove(from).ok_or("no such file")?;
                files.insert(to.clone(), bytes);
            }
        }
        Ok(())
    }

    fn save(&self, run: SaveRun) -> Result<(), String> {
        let mut bytes = Vec::new();
        let mut op = run.first();
        loop {
            let outcome = self.perform(&run, &op, &mut bytes);
            match run.next(op, outcome) {
                SaveStep::Do(next) => op = next,
                SaveStep::Finished(r) => return r,
            }
        }
    }

    fn load(&self, path: &str) -> Result<EnabledChats, String> {
        let read = match self.files.borrow().get(path) {
            Some(bytes) => Ok(bytes.clone()),
            None => Err(ReadError::NotFound),
        };
        EnabledChats::load(path, read, parse)
    }
}

fn parse(bytes: &Vec<u8>) -> Result<StateFile, String> {
    let mut map: BTreeMap<String, Vec<i64>> =
        serde_json::from_slice(bytes).map_err(|e| e.to_string())?;
    Ok(StateFile {
        enabled_chats: map.remove("enabled_chats").unwrap_or_default(),
    })
}

/// Runs `f` as the retry decisions say. Returns its last result, how often it
/// was called, and how long the waits were in all.
fn drive(f: impl Fn(u32) -> Result<u32, RequestError>) -> (Result<u32, RequestError>, u32, u64) {
    let mut calls = 0;
    let mut waited = 0;
    let mut attempts = 0;
    loop {
        let (outcome, value) = match f(calls) {
            Ok(value) => (Ok(()), Some(value)),
            Err(e) => (Err(e), None),
        };
        calls += 1;
        match with_retry(attempts, &outcome) {
            RetryStep::Return => {
                let result = outcome.map(|()| value.expect("a success has a value"));
                return (result, calls, waited);
            }
            RetryStep::Again { after_millis, attempts: next } => {
                waited += after_millis;
                attempts = next;
            }
        }
    }
}

#[test]
fn retries_transient_failures_up_to_the_attempt_budget() {
    let (result, calls, waited) = drive(|_| Err(RequestError::Network));
    assert!(matches!(result, Err(RequestError::Network)));
    assert_eq!(calls, MAX_ATTEMPTS);
    // Every attempt but the last waits out one backoff slot.
    assert_eq!(waited, 500 + 1000);
}

#[test]
fn stops_on_success_and_on_permanent_errors() {
    let (result, calls, waited) = drive(|attempt| {
        if attempt == 0 {
            Err(RequestError::Network)
        } else {
            Ok(attempt)
        }
    });
    assert_eq!(result.unwrap(), 1);
    assert_eq!(calls, 2);
    assert_eq!(waited, 500);

    let (result, calls, _) = drive(|_| Err(RequestError::Api(ApiError::ChatNotFound)));
    assert!(matches!(result, Err(RequestError::Api(ApiError::ChatNotFound))));
    assert_eq!(calls, 1, "permanent errors must not be retried");
}

#[test]
fn the_attempt_budget_has_an_end() {
    let network = Err(RequestError::Network);
    for attempts in [2, 3, u32::MAX] {
        assert_eq!(with_retry(attempts, &network), RetryStep::Return);
    }
    assert_eq!(MAX_ATTEMPTS, 3);
}

fn user(id: u64) -> UserId {
    UserId(id)
}

fn member(kind: ChatMemberKind) -> ChatMember {
    ChatMember { user: user(1), kind }
}

fn admin(can_pin: bool) -> ChatMemberKind {
    ChatMemberKind::Administrator(Administrator { can_pin_messages: can_pin })
}

fn owner() -> ChatMemberKind {
    ChatMemberKind::Owner
}

fn regular() -> ChatMemberKind {
    ChatMemberKind::Member
}

fn pin_permissions(allow: bool) -> Option<ChatPermissions> {
    Some(ChatPermissions { can_pin_messages: allow })
}

const OLD_CHAT: i64 = -599075523;
const NEW_CHAT: i64 = -1001555296434;

#[test]
fn migration_messages_name_the_old_and_the_new_chat() {
    // The service message in the upgraded supergroup names the old group.
    let upgrade = Some(ChatMigration::From { chat_id: ChatId(OLD_CHAT) });
    assert_eq!(
        migration_pair(ChatId(NEW_CHAT), upgrade),
        Some((ChatId(OLD_CHAT), ChatId(NEW_CHAT)))
    );

    // Legacy shape: the last message in the old group names the new one.
    let legacy = Some(ChatMigration::To { chat_id: ChatId(NEW_CHAT) });
    assert_eq!(
        migration_pair(ChatId(OLD_CHAT), legacy),
        Some((ChatId(OLD_CHAT), ChatId(NEW_CHAT)))
    );

    // An ordinary message carries no migration.
    assert_eq!(migration_pair(ChatId(OLD_CHAT), None), None);
}

#[test]
fn upgrade_message_moves_the_enabled_entry_on_disk() {
    let disk = Disk::with(PATH, &format!(r#"{{"enabled_chats":[{OLD_CHAT}]}}"#));
    let mut state = AppState::new(disk.load(PATH).expect("state loads"));
    let upgrade = Some(ChatMigration::From { chat_id: ChatId(OLD_CHAT) });

    let moved = chat_migrated(ChatId(NEW_CHAT), upgrade, &mut state, |run| disk.save(run));
    assert_eq!(moved, Some(Ok(true)));

    let reloaded = disk.load(PATH).expect("state reloads");
    assert!(
        reloaded.contains(ChatId(NEW_CHAT)),
        "upgraded chat is enabled"
    );
    assert!(!reloaded.contains(ChatId(OLD_CHAT)), "old chat id is gone");

    // The message on the other side tells nothing new.
    let legacy = Some(ChatMigration::To { chat_id: ChatId(NEW_CHAT) });
    let moved = chat_migrated(ChatId(OLD_CHAT), legacy, &mut state, |run| disk.save(run));
    assert_eq!(moved, Some(Ok(false)));
    let moved = chat_migrated(ChatId(OLD_CHAT), None, &mut state, |run| disk.save(run));
    assert_eq!(moved, None);
}

#[test]
fn unpin_failures_are_classified_by_what_the_caller_can_do() {
    assert_eq!(
        classify(&RequestError::MigrateToChatId(ChatId(-1001234567890))),
        UnpinFailure::Migrated(ChatId(-1001234567890))
    );
    for api in [
        ApiError::NotEnoughRightsToManagePins,
        ApiError::NotEnoughRightsToPinMessage,
    ] {
        assert_eq!(classify(&RequestError::Api(api)), UnpinFailure::NoRights);
    }
    assert_eq!(
        classify(&RequestError::Api(ApiError::ChatNotFound)),
        UnpinFailure::ChatGone
    );
    // The two shapes of "there is nothing pinned any more".
    assert_eq!(
        classify(&RequestError::Api(ApiError::MessageIdInvalid)),
        UnpinFailure::AlreadyDone
    );
    assert_eq!(
        classify(&RequestError::Api(ApiError::Unknown(
            "Bad Request: message to unpin not found".to_owned()
        ))),
        UnpinFailure::AlreadyDone
    );
    // An unrelated failure must not pass for a completed unpin.
    assert_eq!(
        classify(&RequestError::Api(ApiError::Unknown(
            "Bad Request: nope".to_owned()
        ))),
        UnpinFailure::Fatal
    );
    assert_eq!(classify(&RequestError::Api(ApiError::Other)), UnpinFailure::Fatal);
    assert_eq!(classify(&RequestError::Network), UnpinFailure::Fatal);
    assert_eq!(classify(&RequestError::Other), UnpinFailure::Fatal);
}

#[test]
fn not_pinned_is_told_by_the_text() {
    let not_pinned = |text: &str| nothing_to_unpin(&ApiError::Unknown(text.to_owned()));
    assert!(not_pinned("message to unpin not found"));
    assert!(not_pinned("mmessage to unpin not foundd"));
    assert!(not_pinned("\u{e9} message to unpin message to unpin not found"));
    assert!(!not_pinned(""));
    assert!(!not_pinned("message to unpin not foun"));
    assert!(!not_pinned("Message to unpin not found"));
    assert!(!nothing_to_unpin(&ApiError::ChatNotFound));
}

fn enabled(ids: &str) -> (Disk, AppState) {
    let disk = Disk::with(PATH, &format!(r#"{{"enabled_chats":[{ids}]}}"#));
    let state = AppState::new(disk.load(PATH).unwrap());
    (disk, state)
}

#[test]
fn posts_are_unpinned_in_enabled_chats_only() {
    let (_, state) = enabled("10");
    assert_eq!(auto_unpin(&state, ChatId(11), MessageId(5)), None);
    assert_eq!(
        auto_unpin(&state, ChatId(10), MessageId(5)),
        Some(UnpinRun {
            chat_id: ChatId(10),
            message_id: MessageId(5),
            target: ChatId(10),
            migrated: false,
        })
    );
}

#[test]
fn unpinning_follows_one_migration() {
    let (disk, mut state) = enabled("10");
    let run = auto_unpin(&state, ChatId(10), MessageId(5)).unwrap();
    let migrated = Err(RequestError::MigrateToChatId(ChatId(20)));
    let (step, moved) = unpin_with_retry(run, &migrated, &mut state, |run| disk.save(run));
    let next = UnpinRun { target: ChatId(20), migrated: true, ..run };
    assert_eq!(step, UnpinStep::Again(next));
    assert_eq!(moved, Some(Ok(true)));
    assert!(disk.load(PATH).unwrap().contains(ChatId(20)));

    let (step, moved) = unpin_with_retry(next, &migrated, &mut state, |run| disk.save(run));
    assert_eq!(step, UnpinStep::Done(UnpinEnd::MigratedTwice));
    assert_eq!(moved, None);
    assert!(state.contains(ChatId(20)) && !state.contains(ChatId(10)));
}

#[test]
fn unpinning_ends_with_any_other_answer() {
    let (_, mut state) = enabled("10");
    let run = auto_unpin(&state, ChatId(10), MessageId(5)).unwrap();
    for (outcome, end) in [
        (Ok(()), UnpinEnd::Unpinned),
        (
            Err(RequestError::Api(ApiError::NotEnoughRightsToManagePins)),
            UnpinEnd::NoRights,
        ),
        (
            Err(RequestError::Api(ApiError::ChatNotFound)),
            UnpinEnd::ChatGone,
        ),
        (
            Err(RequestError::Api(ApiError::MessageIdInvalid)),
            UnpinEnd::AlreadyDone,
        ),
        (Err(RequestError::Network), UnpinEnd::Fatal),
    ] {
        let untouched = |_: SaveRun| -> Result<(), String> { panic!("nothing is to be saved") };
        let step = unpin_with_retry(run, &outcome, &mut state, untouched);
        assert_eq!(step, (UnpinStep::Done(end), None));
    }
    assert!(state.contains(ChatId(10)));
}

#[test]
fn privileged_members() {
    assert!(is_privileged(&member(owner())));
    assert!(is_privileged(&member(admin(true))));
    assert!(is_privileged(&member(admin(false))));
    assert!(!is_privileged(&member(regular())));
    assert!(!is_privileged(&member(ChatMemberKind::Left)));
}

fn chat(kind: &str) -> Chat {
    let kind = match kind {
        "private" => ChatKind::Private,
        "group" => ChatKind::Group,
        "supergroup" => ChatKind::Supergroup,
        "channel" => ChatKind::Channel,
        other => panic!("no such chat: {other}"),
    };
    let id = if kind == ChatKind::Private { 42 } else { -1001234567890 };
    Chat { id: ChatId(id), kind }
}

#[test]
fn supergroup_requires_admin_pin_right() {
    let supergroup = chat("supergroup");
    let bot_member = member(admin(true));
    assert!(bot_can_unpin(&supergroup, &bot_member, None));
    let bot_member = member(admin(false));
    assert!(!bot_can_unpin(&supergroup, &bot_member, None));
    let bot_member = member(regular());
    assert!(!bot_can_unpin(&supergroup, &bot_member, None));
}

#[test]
fn group_requires_default_pin_permission() {
    let group = chat("group");
    let bot_member = member(admin(false)); // basic-group admins carry no can_pin field
    assert!(bot_can_unpin(&group, &bot_member, pin_permissions(true)));
    assert!(!bot_can_unpin(&group, &bot_member, pin_permissions(false)));
    assert!(!bot_can_unpin(&group, &bot_member, None));
}

#[test]
fn other_chat_types_are_never_unpinnable() {
    let bot_member = member(admin(true));
    assert!(!bot_can_unpin(
        &chat("private"),
        &bot_member,
        pin_permissions(true)
    ));
    assert!(!bot_can_unpin(
        &chat("channel"),
        &bot_member,
        pin_permissions(true)
    ));
    // Sanity: status mapping works as expected.
    let administrator = teloxide::types::ChatMemberKind::Administrator(
        teloxide::types::Administrator {
            custom_title: None,
            is_anonymous: false,
            can_be_edited: false,
            can_manage_chat: false,
            can_change_info: false,
            can_post_messages: false,
            can_edit_messages: false,
            can_delete_messages: false,
            can_post_stories: false,
            can_edit_stories: false,
            can_delete_stories: false,
            can_manage_video_chats: false,
            can_invite_users: false,
            can_restrict_members: false,
            can_pin_messages: true,
            can_manage_topics: false,
            can_promote_members: false,
        },
    );
    assert_eq!(
        administrator.status(),
        teloxide::types::ChatMemberStatus::Administrator
    );
}

#[test]
fn only_basic_groups_keep_the_pin_right_in_their_permissions() {
    assert_eq!(basic_group_permissions(&chat("group")), PermissionsQuery::AskChat);
    for kind in ["private", "supergroup", "channel"] {
        assert_eq!(basic_group_permissions(&chat(kind)), PermissionsQuery::NotNeeded);
    }
}

#[test]
fn lost_rights_disable_the_chat() {
    let group = chat("group");
    let upd = ChatMemberUpdated { chat: group, new_chat_member: member(admin(false)) };
    let (disk, mut state) = enabled("1");
    assert_eq!(my_chat_member(&state, &upd), None);

    let (_, mut both) = enabled("1, -1001234567890");
    assert_eq!(my_chat_member(&both, &upd), Some(PermissionsQuery::AskChat));
    let super_upd = ChatMemberUpdated { chat: chat("supergroup"), ..upd };
    assert_eq!(my_chat_member(&both, &super_upd), Some(PermissionsQuery::NotNeeded));

    // A transient failure must not flip state.
    let untouched = |_: SaveRun| -> Result<(), String> { panic!("nothing is to be saved") };
    let unknown = rights_changed(&upd, Err(RequestError::Network), &mut both, untouched);
    assert!(matches!(unknown, RightsChange::Unknown));
    let kept = rights_changed(&upd, Ok(pin_permissions(true)), &mut both, untouched);
    assert!(matches!(kept, RightsChange::Kept));
    assert!(both.contains(group.id));

    let fails = |_: SaveRun| Err::<(), String>("disk full".to_owned());
    let unsaved = rights_changed(&upd, Ok(pin_permissions(false)), &mut both, fails);
    assert!(matches!(unsaved, RightsChange::Unsaved(e) if e == "disk full"));
    assert!(both.contains(group.id));

    let disabled = rights_changed(&super_upd, Ok(None), &mut both, |r| disk.save(r));
    assert!(matches!(disabled, RightsChange::Disabled));
    assert!(!both.contains(group.id) && both.contains(ChatId(1)));
    assert!(!disk.load(PATH).unwrap().contains(group.id));

    let gone = rights_changed(&upd, Ok(None), &mut state, untouched);
    assert!(matches!(gone, RightsChange::NotEnabled));
}

#[test]
fn a_removed_bot_disables_the_chat() {
    for kind in [ChatMemberKind::Left, ChatMemberKind::Banned, ChatMemberKind::Member] {
        let (disk, mut state) = enabled("-1001234567890");
        let upd = ChatMemberUpdated { chat: chat("supergroup"), new_chat_member: member(kind) };
        let change = rights_changed(&upd, Ok(None), &mut state, |r| disk.save(r));
        assert!(matches!(change, RightsChange::Disabled));
        assert!(!state.contains(upd.chat.id));
    }
}

#[test]
fn upgraded_groups_stay_unpinned() {
    let (_, mut state) = enabled("10, 30");
    let fails = |_: SaveRun| Err::<(), String>("disk full".to_owned());
    let upgrade = Some(ChatMigration::From { chat_id: ChatId(10) });
    let moved = chat_migrated(ChatId(20), upgrade, &mut state, fails);
    assert_eq!(moved, Some(Err("disk full".to_owned())));
    assert_eq!(auto_unpin(&state, ChatId(10), MessageId(1)), None);
    assert_eq!(auto_unpin(&state, ChatId(20), MessageId(1)).unwrap().target, ChatId(20));
    assert!(auto_unpin(&state, ChatId(30), MessageId(1)).is_some());
}

#[test]
fn answers_tell_what_becomes_of_posts() {
    let (disk, mut state) = enabled("");
    let fails = |_: SaveRun| Err::<(), String>("disk full".to_owned());
    let msg = CommandMessage {
        chat: chat("supergroup"),
        sender_chat: Some(chat("supergroup").id),
        from: Some(user(1)),
    };
    let bot = Ok(member(admin(true)));
    let unpins = |state: &AppState| auto_unpin(state, msg.chat.id, MessageId(7)).is_some();

    assert_eq!(enable_bot(&msg, None, &bot, &mut state, fails), Answer::RetryLater);
    assert!(!unpins(&state));
    let answer = enable_bot(&msg, None, &bot, &mut state, |r| disk.save(r));
    assert_eq!(answer, Answer::Enabled);
    assert!(unpins(&state));
    assert_eq!(enable_bot(&msg, None, &bot, &mut state, fails), Answer::AlreadyEnabled);
    assert!(unpins(&state));

    let step = disable(&msg, &mut state, fails);
    assert_eq!(step, DisableStep::Answer(Answer::RetryLater));
    assert!(unpins(&state));
    let step = disable(&msg, &mut state, |r| disk.save(r));
    assert_eq!(step, DisableStep::Answer(Answer::Disabled));
    assert!(!unpins(&state));
    assert_eq!(
        disable(&msg, &mut state, fails),
        DisableStep::Answer(Answer::AlreadyDisabled)
    );
}

#[test]
fn a_chat_is_told_when_it_is_disabled() {
    assert_eq!(announcement(&RightsChange::Disabled), Some(Answer::RightsRevoked));
    for change in [
        RightsChange::Unknown,
        RightsChange::Kept,
        RightsChange::NotEnabled,
        RightsChange::Unsaved("disk full".to_owned()),
    ] {
        assert_eq!(announcement(&change), None);
    }
}
