use unpinbot::chat::{
    Administrator, Chat, ChatId, ChatKind, ChatMember, ChatMemberKind, ChatPermissions, UserId,
};
use unpinbot::commands::{
    caller_checked, disable, disable_caller, enable, enable_bot, enable_caller,
    enable_permissions, ensure_caller_admin, ensure_group, help, route_command, start,
    CallerCheck, Command, CommandMessage, CommandRoute, DisableStep, EnableStep, ParseError,
};
use unpinbot::i18n::Answer;
use unpinbot::retry::RequestError;
use unpinbot::state::{AppState, EnabledChats, ReadError, SaveRun, StateFile};

#[test]
fn parses_plain_command() {
    assert_eq!(Command::parse("/enable", "unpinbot").unwrap(), Command::Enable);
    assert_eq!(Command::parse("/start", "unpinbot").unwrap(), Command::Start);
    assert_eq!(Command::parse("/help", "unpinbot").unwrap(), Command::Help);
    assert_eq!(Command::parse("/disable", "unpinbot").unwrap(), Command::Disable);
}

#[test]
fn parses_mention_command_for_this_bot() {
    assert_eq!(
        Command::parse("/enable@unpinbot", "unpinbot").unwrap(),
        Command::Enable
    );
}

#[test]
fn rejects_mention_for_other_bot() {
    assert!(Command::parse("/enable@otherbot", "unpinbot").is_err());
}

#[test]
fn rejects_unknown_command() {
    assert!(Command::parse("/foo", "unpinbot").is_err());
}

#[test]
fn mention_is_matched_without_regard_to_ascii_case() {
    assert_eq!(
        Command::parse("/disable@UnpinBot now please", "unpinBOT"),
        Ok(Command::Disable)
    );
    assert_eq!(
        Command::parse("/start@otherbot hi", "unpinbot"),
        Err(ParseError::WrongBotName("otherbot".to_owned()))
    );
    // What follows a second mention does not count.
    assert_eq!(Command::parse("/help@unpinbot@x", "unpinbot"), Ok(Command::Help));
    // The mention is looked at before the name of the command.
    assert_eq!(
        Command::parse("/foo@otherbot", "unpinbot"),
        Err(ParseError::WrongBotName("otherbot".to_owned()))
    );
    assert_eq!(
        Command::parse("/enable@", "unpinbot"),
        Err(ParseError::WrongBotName(String::new()))
    );
    // Letters outside ASCII are not folded.
    assert!(Command::parse("/enable@\u{c4}", "\u{e4}").is_err());
}

#[test]
fn command_names_are_exact() {
    for text in ["/Enable", "enable", "/enablex", "/enable\n", " /enable", "", "/"] {
        assert!(
            matches!(Command::parse(text, "unpinbot"), Err(ParseError::UnknownCommand(_))),
            "{text:?}"
        );
    }
    assert_eq!(
        Command::parse("/foo bar", "unpinbot"),
        Err(ParseError::UnknownCommand("/foo".to_owned()))
    );
    assert_eq!(Command::parse("/enable  @other", "unpinbot"), Ok(Command::Enable));
}

const GROUP: ChatId = ChatId(-599075523);

fn chat(kind: ChatKind) -> Chat {
    Chat { id: GROUP, kind }
}

fn from_user(kind: ChatKind) -> CommandMessage {
    CommandMessage {
        chat: chat(kind),
        sender_chat: None,
        from: Some(UserId(7)),
    }
}

fn member(kind: ChatMemberKind) -> ChatMember {
    ChatMember { user: UserId(7), kind }
}

fn admin(can_pin_messages: bool) -> ChatMember {
    member(ChatMemberKind::Administrator(Administrator { can_pin_messages }))
}

fn app(ids: Vec<i64>) -> AppState {
    let parse = |_: &Vec<u8>| Ok::<StateFile, String>(StateFile { enabled_chats: ids.clone() });
    let read: Result<Vec<u8>, ReadError> = Ok(Vec::new());
    AppState::new(EnabledChats::load("state.json", read, parse).unwrap())
}

fn saves(_: SaveRun) -> Result<(), String> {
    Ok(())
}

fn fails(_: SaveRun) -> Result<(), String> {
    Err("disk full".to_owned())
}

fn untouched(_: SaveRun) -> Result<(), String> {
    panic!("nothing is to be saved")
}

#[test]
fn every_command_has_its_handler() {
    assert_eq!(start(), Answer::Start);
    assert_eq!(help(), Answer::Help);
    assert_eq!(route_command(Command::Start), CommandRoute::Answer(Answer::Start));
    assert_eq!(route_command(Command::Help), CommandRoute::Answer(Answer::Help));
    assert_eq!(route_command(Command::Enable), CommandRoute::Enable);
    assert_eq!(route_command(Command::Disable), CommandRoute::Disable);
}

#[test]
fn group_commands_are_refused_outside_groups() {
    for kind in [ChatKind::Private, ChatKind::Channel] {
        let msg = from_user(kind);
        assert_eq!(ensure_group(&msg), Some(Answer::NotGroup));
        assert_eq!(enable(&msg), EnableStep::Answer(Answer::NotGroup));
        let mut state = app(vec![GROUP.0]);
        assert_eq!(
            disable(&msg, &mut state, untouched),
            DisableStep::Answer(Answer::NotGroup)
        );
        assert!(state.contains(GROUP));
    }
    assert_eq!(ensure_group(&from_user(ChatKind::Group)), None);
    assert_eq!(ensure_group(&from_user(ChatKind::Supergroup)), None);
}

#[test]
fn callers_are_checked() {
    let mut msg = from_user(ChatKind::Supergroup);
    assert_eq!(ensure_caller_admin(&msg), CallerCheck::Ask(UserId(7)));
    // On behalf of another chat: the user counts.
    msg.sender_chat = Some(ChatId(1));
    assert_eq!(ensure_caller_admin(&msg), CallerCheck::Ask(UserId(7)));
    // On behalf of the group itself: an anonymous administrator.
    msg.sender_chat = Some(GROUP);
    assert_eq!(ensure_caller_admin(&msg), CallerCheck::Admitted);
    // Without a sender, nobody: on behalf of the group or not.
    msg.from = None;
    assert_eq!(ensure_caller_admin(&msg), CallerCheck::Refused(Answer::NotAdmin));
    assert_eq!(enable(&msg), EnableStep::Answer(Answer::NotAdmin));
    msg.sender_chat = None;
    assert_eq!(ensure_caller_admin(&msg), CallerCheck::Refused(Answer::NotAdmin));

    assert_eq!(caller_checked(&Ok(member(ChatMemberKind::Owner))), None);
    assert_eq!(caller_checked(&Ok(admin(false))), None);
    for kind in [
        ChatMemberKind::Member,
        ChatMemberKind::Restricted,
        ChatMemberKind::Left,
        ChatMemberKind::Banned,
    ] {
        assert_eq!(caller_checked(&Ok(member(kind))), Some(Answer::NotAdmin));
    }
    assert_eq!(
        caller_checked(&Err(RequestError::Network)),
        Some(Answer::RetryLater)
    );
}

#[test]
fn enabling_a_supergroup_asks_for_the_bot_only() {
    let msg = from_user(ChatKind::Supergroup);
    assert_eq!(enable(&msg), EnableStep::AskCaller(UserId(7)));
    assert_eq!(
        enable_caller(&msg, &Ok(member(ChatMemberKind::Member))),
        EnableStep::Answer(Answer::NotAdmin)
    );
    assert_eq!(enable_caller(&msg, &Ok(admin(false))), EnableStep::AskBot(None));

    let mut state = app(vec![1]);
    let answer = enable_bot(&msg, None, &Ok(admin(false)), &mut state, untouched);
    assert_eq!(answer, Answer::RequireRights);
    let answer = enable_bot(&msg, None, &Err(RequestError::Other), &mut state, untouched);
    assert_eq!(answer, Answer::RetryLater);
    let answer = enable_bot(&msg, None, &Ok(admin(true)), &mut state, fails);
    assert_eq!(answer, Answer::RetryLater);
    assert!(!state.contains(GROUP));
    let answer = enable_bot(&msg, None, &Ok(admin(true)), &mut state, saves);
    assert_eq!(answer, Answer::Enabled);
    assert!(state.contains(GROUP));
    let answer = enable_bot(&msg, None, &Ok(admin(true)), &mut state, untouched);
    assert_eq!(answer, Answer::AlreadyEnabled);
    assert!(state.contains(GROUP) && state.contains(ChatId(1)));
}

#[test]
fn enabling_a_basic_group_asks_for_its_permissions() {
    let mut msg = from_user(ChatKind::Group);
    msg.sender_chat = Some(GROUP);
    assert_eq!(enable(&msg), EnableStep::AskPermissions);
    assert_eq!(
        enable_permissions(&Err(RequestError::Network)),
        EnableStep::Answer(Answer::RetryLater)
    );
    let pin = Some(ChatPermissions { can_pin_messages: true });
    assert_eq!(enable_permissions(&Ok(pin)), EnableStep::AskBot(pin));
    assert_eq!(enable_permissions(&Ok(None)), EnableStep::AskBot(None));

    let mut state = app(Vec::new());
    let answer = enable_bot(&msg, None, &Ok(admin(true)), &mut state, untouched);
    assert_eq!(answer, Answer::RequireRights);
    let answer = enable_bot(&msg, pin, &Ok(admin(false)), &mut state, saves);
    assert_eq!(answer, Answer::Enabled);
    assert!(state.contains(GROUP));
}

#[test]
fn disabling_takes_an_administrator_only() {
    let msg = from_user(ChatKind::Group);
    let mut state = app(vec![GROUP.0]);
    assert_eq!(
        disable(&msg, &mut state, untouched),
        DisableStep::AskCaller(UserId(7))
    );
    let refused = Ok(member(ChatMemberKind::Restricted));
    assert_eq!(
        disable_caller(&msg, &refused, &mut state, untouched),
        Answer::NotAdmin
    );
    assert_eq!(
        disable_caller(&msg, &Err(RequestError::Network), &mut state, untouched),
        Answer::RetryLater
    );
    assert!(state.contains(GROUP));
    assert_eq!(
        disable_caller(&msg, &Ok(admin(false)), &mut state, fails),
        Answer::RetryLater
    );
    assert!(state.contains(GROUP), "a failed save takes the removal back");
    assert_eq!(
        disable_caller(&msg, &Ok(admin(false)), &mut state, saves),
        Answer::Disabled
    );
    assert!(!state.contains(GROUP));
    assert_eq!(
        disable_caller(&msg, &Ok(admin(false)), &mut state, untouched),
        Answer::AlreadyDisabled
    );

    let mut anonymous = msg;
    anonymous.sender_chat = Some(GROUP);
    let mut state = app(vec![GROUP.0]);
    assert_eq!(
        disable(&anonymous, &mut state, saves),
        DisableStep::Answer(Answer::Disabled)
    );
    assert!(!state.contains(GROUP));
    let mut state = app(vec![GROUP.0]);
    for sender_chat in [None, Some(GROUP)] {
        let nobody = CommandMessage { sender_chat, from: None, ..msg };
        assert_eq!(
            disable(&nobody, &mut state, untouched),
            DisableStep::Answer(Answer::NotAdmin)
        );
        assert!(state.contains(GROUP));
    }
}
