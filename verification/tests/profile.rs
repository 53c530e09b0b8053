use unpinbot::commands::Command;
use unpinbot::i18n::{Catalogs, Commands, Errors, Lang};
use unpinbot::profile::{
    register_profile, setup_bot_profile, BotCommandScope, ChatAdministratorRights, ProfileRequest,
};

fn lang(tag: &str) -> Lang {
    let text = |name: &str| format!("{tag} {name}");
    Lang {
        start: text("start"),
        help: text("help"),
        enable: text("enable"),
        disable: text("disable"),
        error: Errors {
            not_group: text("not_group"),
            not_admin: text("not_admin"),
            require_rights: text("require_rights"),
            rights_revoked: text("rights_revoked"),
            already_enabled: text("already_enabled"),
            already_disabled: text("already_disabled"),
            retry_later: text("retry_later"),
        },
        cmd: Commands {
            start: text("cmd start"),
            help: text("cmd help"),
            enable: text("cmd enable"),
            disable: text("cmd disable"),
        },
        description: text("description"),
    }
}

fn menu(request: &ProfileRequest) -> (Vec<(&'static str, String)>, BotCommandScope, Option<&str>) {
    match request {
        ProfileRequest::SetMyCommands { commands, scope, language_code } => (
            commands.iter().map(|c| (c.command, c.description.clone())).collect(),
            *scope,
            *language_code,
        ),
        other => panic!("not a menu: {other:?}"),
    }
}

fn check_variant(requests: &[ProfileRequest], code: Option<&str>, tag: &str) {
    assert_eq!(requests.len(), 4);
    let entry = |name: &'static str| (name, format!("{tag} cmd {name}"));
    assert_eq!(
        menu(&requests[0]),
        (
            vec![entry("start"), entry("help")],
            BotCommandScope::AllGroupChats,
            code
        )
    );
    assert_eq!(
        menu(&requests[1]),
        (
            vec![entry("start"), entry("help"), entry("enable"), entry("disable")],
            BotCommandScope::AllChatAdministrators,
            code
        )
    );
    match &requests[2] {
        ProfileRequest::SetMyDescription { description, language_code } => {
            assert_eq!(description, &format!("{tag} description"));
            assert_eq!(*language_code, code);
        }
        other => panic!("not a description: {other:?}"),
    }
    match &requests[3] {
        ProfileRequest::SetMyShortDescription { short_description, language_code } => {
            assert_eq!(short_description, &format!("{tag} description"));
            assert_eq!(*language_code, code);
        }
        other => panic!("not a short description: {other:?}"),
    }
}

#[test]
fn one_variant_is_registered_with_four_requests() {
    check_variant(&register_profile(Some("zh"), &lang("x")), Some("zh"), "x");
    check_variant(&register_profile(None, &lang("y")), None, "y");
}

#[test]
fn profile_covers_every_language_and_the_default() {
    let parse = |json: &str| Ok::<Lang, String>(lang(if json.is_ascii() { "en" } else { "zh" }));
    let catalogs = Catalogs::load(parse).unwrap();
    let requests = setup_bot_profile(&catalogs);
    assert_eq!(requests.len(), 13);
    match &requests[0] {
        ProfileRequest::SetMyDefaultAdministratorRights(rights) => assert_eq!(
            *rights,
            ChatAdministratorRights {
                is_anonymous: false,
                can_manage_chat: false,
                can_delete_messages: false,
                can_manage_video_chats: false,
                can_restrict_members: false,
                can_promote_members: false,
                can_change_info: false,
                can_invite_users: false,
                can_post_messages: None,
                can_edit_messages: None,
                can_pin_messages: Some(true),
                can_post_stories: None,
                can_edit_stories: None,
                can_delete_stories: None,
                can_manage_topics: Some(false),
            }
        ),
        other => panic!("not rights: {other:?}"),
    }
    check_variant(&requests[1..5], Some("en"), "en");
    check_variant(&requests[5..9], Some("zh"), "zh");
    check_variant(&requests[9..13], None, "en");
}

#[test]
fn offered_commands_are_understood() {
    let requests = register_profile(None, &lang("x"));
    let (admin, _, _) = menu(&requests[1]);
    let parsed: Vec<Command> = admin
        .iter()
        .map(|(name, _)| Command::parse(&format!("/{name}"), "unpinbot").unwrap())
        .collect();
    assert_eq!(
        parsed,
        [Command::Start, Command::Help, Command::Enable, Command::Disable]
    );
}
