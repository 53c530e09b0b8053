//! The bot's profile: default administrator rights, command menus and
//! descriptions.

use crate::commands;
use crate::commands::Command;
use crate::i18n;
use crate::i18n::{Catalogs, Lang};
use std::sync::Arc;
use vstd::prelude::*;

verus! {

/// The rights that a group is offered to give the bot as an administrator.
#[derive(Clone, Copy, Debug, PartialEq, Eq, Structural)]
pub struct ChatAdministratorRights {
    pub is_anonymous: bool,
    pub can_manage_chat: bool,
    pub can_delete_messages: bool,
    pub can_manage_video_chats: bool,
    pub can_restrict_members: bool,
    pub can_promote_members: bool,
    pub can_change_info: bool,
    pub can_invite_users: bool,
    pub can_post_messages: Option<bool>,
    pub can_edit_messages: Option<bool>,
    pub can_pin_messages: Option<bool>,
    pub can_post_stories: Option<bool>,
    pub can_edit_stories: Option<bool>,
    pub can_delete_stories: Option<bool>,
    pub can_manage_topics: Option<bool>,
}

/// The rights that the bot asks for: to pin messages, and nothing else.
pub open spec fn pin_right_only() -> ChatAdministratorRights {
    ChatAdministratorRights {
        is_anonymous: false,
        can_manage_chat: false,
        can_delete_messages: false,
        can_manage_video_chats: false,
        can_restrict_members: false,
        can_promote_members: false,
        can_change_info: false,
        can_invite_users: false,
        can_post_messages: None,
        can_edit_messages: None,
        can_pin_messages: Some(true),
        can_post_stories: None,
        can_edit_stories: None,
        can_delete_stories: None,
        can_manage_topics: Some(false),
    }
}

/// An entry of a command menu.
#[derive(Debug)]
pub struct BotCommand {
    pub command: &'static str,
    pub description: String,
}

/// Who sees a command menu.
#[derive(Clone, Copy, Debug, PartialEq, Eq, Structural)]
pub enum BotCommandScope {
    AllGroupChats,
    AllChatAdministrators,
}

/// A request that sets a part of the bot's profile. The variant without a
/// language code is shown to users whose language has none of its own.
#[derive(Debug)]
pub enum ProfileRequest {
    SetMyDefaultAdministratorRights(ChatAdministratorRights),
    SetMyCommands {
        commands: Vec<BotCommand>,
        scope: BotCommandScope,
        language_code: Option<&'static str>,
    },
    SetMyDescription { description: String, language_code: Option<&'static str> },
    SetMyShortDescription { short_description: String, language_code: Option<&'static str> },
}

/// The menu for everybody.
pub open spec fn basic_menu(lang: Lang) -> Seq<BotCommand> {
    seq![
        BotCommand { command: "start", description: lang.cmd.start },
        BotCommand { command: "help", description: lang.cmd.help },
    ]
}

/// The menu for administrators: everybody's, and the commands that they alone
/// may give.
pub open spec fn admin_menu(lang: Lang) -> Seq<BotCommand> {
    basic_menu(lang) + seq![
        BotCommand { command: "enable", description: lang.cmd.enable },
        BotCommand { command: "disable", description: lang.cmd.disable },
    ]
}

/// Whether `request` sets the menu `commands`.
pub open spec fn sets_menu(
    request: ProfileRequest,
    menu: Seq<BotCommand>,
    whom: BotCommandScope,
    code: Option<&'static str>,
) -> bool {
    request matches ProfileRequest::SetMyCommands { commands, scope, language_code } && commands@
        == menu && scope == whom && language_code == code
}

/// Whether `requests` register the variant `lang` of the profile under `code`.
pub open spec fn registers(
    requests: Seq<ProfileRequest>,
    code: Option<&'static str>,
    lang: Lang,
) -> bool {
    &&& requests.len() == 4
    &&& sets_menu(requests[0], basic_menu(lang), BotCommandScope::AllGroupChats, code)
    &&& sets_menu(requests[1], admin_menu(lang), BotCommandScope::AllChatAdministrators, code)
    &&& requests[2] == (ProfileRequest::SetMyDescription {
        description: lang.description,
        language_code: code,
    })
    &&& requests[3] == (ProfileRequest::SetMyShortDescription {
        short_description: lang.description,
        language_code: code,
    })
}

fn basic_commands(lang: &Lang) -> (r: Vec<BotCommand>)
    ensures
        r@ == basic_menu(*lang),
{
    let mut r: Vec<BotCommand> = Vec::new();
    r.push(BotCommand { command: "start", description: lang.cmd.start.clone() });
    r.push(BotCommand { command: "help", description: lang.cmd.help.clone() });
    r
}

/// The requests that register the command menus and descriptions for one
/// variant of the profile. `code` is `None` for the default variant.
pub fn register_profile(code: Option<&'static str>, lang: &Lang) -> (r: Vec<ProfileRequest>)
    ensures
        registers(r@, code, *lang),
{
    let mut admin = basic_commands(lang);
    admin.push(BotCommand { command: "enable", description: lang.cmd.enable.clone() });
    admin.push(BotCommand { command: "disable", description: lang.cmd.disable.clone() });
    assert(admin@ =~= admin_menu(*lang));
    let mut r: Vec<ProfileRequest> = Vec::new();
    r.push(
        ProfileRequest::SetMyCommands {
            commands: basic_commands(lang),
            scope: BotCommandScope::AllGroupChats,
            language_code: code,
        },
    );
    r.push(
        ProfileRequest::SetMyCommands {
            commands: admin,
            scope: BotCommandScope::AllChatAdministrators,
            language_code: code,
        },
    );
    r.push(
        ProfileRequest::SetMyDescription {
            description: lang.description.clone(),
            language_code: code,
        },
    );
    r.push(
        ProfileRequest::SetMyShortDescription {
            short_description: lang.description.clone(),
            language_code: code,
        },
    );
    r
}

/// The variants of the profile: one per built-in language, in declaration
/// order, and the default one, in the fallback language.
fn targets(catalogs: &Catalogs) -> (r: Vec<(Option<&'static str>, Arc<Lang>)>)
    ensures
        r.len() == catalogs@.len() + 1,
        forall|i: int| #![trigger r[i]]
            0 <= i < catalogs@.len() ==> {
                &&& r[i].0 matches Some(code) && code@ == catalogs@[i].0
                &&& *r[i].1 == catalogs@[i].1
            },
        r[catalogs@.len() as int].0 is None,
        i18n::pick(catalogs@, None) == Some(*r[catalogs@.len() as int].1),
{
    let all = catalogs.all();
    let mut r: Vec<(Option<&'static str>, Arc<Lang>)> = Vec::new();
    for i in 0..all.len()
        invariant
            all.len() == catalogs@.len(),
            forall|j: int|
                0 <= j < all.len() ==> (#[trigger] all[j]).0@ == catalogs@[j].0 && *all[j].1
                    == catalogs@[j].1,
            r.len() == i,
            forall|j: int| #![trigger r[j]]
                0 <= j < i ==> {
                    &&& r[j].0 matches Some(code) && code@ == catalogs@[j].0
                    &&& *r[j].1 == catalogs@[j].1
                },
    {
        let (code, lang) = &all[i];
        r.push((Some(*code), Arc::clone(lang)));
    }
    r.push((None, catalogs.resolve(None)));
    r
}

/// The block of four requests at `from`.
pub open spec fn block(requests: Seq<ProfileRequest>, from: int) -> Seq<ProfileRequest> {
    requests.subrange(from, from + 4)
}

/// Whether `requests` set up the whole profile: first the default rights, then
/// one variant per language of `langs` in their order, then the default one.
pub open spec fn sets_up(requests: Seq<ProfileRequest>, langs: Seq<(Seq<char>, Lang)>) -> bool {
    let n = langs.len() as int;
    &&& requests.len() == 1 + 4 * (n + 1)
    &&& requests[0] == ProfileRequest::SetMyDefaultAdministratorRights(pin_right_only())
    &&& forall|i: int| #![trigger langs[i]]
        0 <= i < n ==> registers_language(block(requests, 1 + 4 * i), langs[i].0, langs[i].1)
    &&& i18n::pick(langs, None) matches Some(fallback) && registers(
        block(requests, 1 + 4 * n),
        None,
        fallback,
    )
}

/// Whether `requests` register the variant `lang` under the language code
/// `code`.
pub open spec fn registers_language(
    requests: Seq<ProfileRequest>,
    code: Seq<char>,
    lang: Lang,
) -> bool {
    exists|c: &'static str| c@ == code && #[trigger] registers(requests, Some(c), lang)
}

/// The requests that register the bot's default admin rights, then the command
/// menus and descriptions for every built-in language (Telegram serves the
/// variant matching the user's client language) plus the default variant.
/// Failures of them are not fatal: the core unpin loop does not depend on
/// them.
pub fn setup_bot_profile(catalogs: &Catalogs) -> (r: Vec<ProfileRequest>)
    ensures
        sets_up(r@, catalogs@),
{
    let rights = ChatAdministratorRights {
        is_anonymous: false,
        can_manage_chat: false,
        can_delete_messages: false,
        can_manage_video_chats: false,
        can_restrict_members: false,
        can_promote_members: false,
        can_change_info: false,
        can_invite_users: false,
        can_post_messages: None,
        can_edit_messages: None,
        can_pin_messages: Some(true),
        can_post_stories: None,
        can_edit_stories: None,
        can_delete_stories: None,
        can_manage_topics: Some(false),
    };
    let targets = targets(catalogs);
    let mut r: Vec<ProfileRequest> = Vec::new();
    r.push(ProfileRequest::SetMyDefaultAdministratorRights(rights));
    for i in 0..targets.len()
        invariant
            r.len() == 1 + 4 * i,
            r@[0] == ProfileRequest::SetMyDefaultAdministratorRights(pin_right_only()),
            forall|j: int| #![trigger targets[j]]
                0 <= j < i ==> registers(block(r@, 1 + 4 * j), targets[j].0, *targets[j].1),
    {
        let (code, lang) = &targets[i];
        let mut variant = register_profile(*code, lang);
        let ghost before = r@;
        let ghost four = variant@;
        r.append(&mut variant);
        assert(block(r@, 1 + 4 * i) =~= four);
        assert forall|j: int| #![trigger targets[j]] 0 <= j < i implies registers(
            block(r@, 1 + 4 * j),
            targets[j].0,
            *targets[j].1,
        ) by {
            assert(block(r@, 1 + 4 * j) =~= block(before, 1 + 4 * j));
        }
    }
    assert forall|i: int| #![trigger catalogs@[i]] 0 <= i < catalogs@.len() implies registers_language(
        block(r@, 1 + 4 * i),
        catalogs@[i].0,
        catalogs@[i].1,
    ) by {
        let _ = targets[i];
    }
    assert(targets[catalogs@.len() as int].0 is None);
    r
}

/// Whether `menu` offers `command`.
pub open spec fn offers(menu: Seq<BotCommand>, command: Command) -> bool {
    exists|i: int|
        0 <= i < menu.len() && commands::command_of("/"@ + (#[trigger] menu[i]).command@) == Some(
            command,
        )
}

/// Every command that a menu offers is one that the bot understands, and the
/// administrators are offered all of them.
pub proof fn menus_offer_the_commands(lang: Lang)
    ensures
        forall|i: int|
            0 <= i < admin_menu(lang).len() ==> commands::command_of(
                "/"@ + (#[trigger] admin_menu(lang)[i]).command@,
            ) is Some,
        forall|command: Command| #[trigger] offers(admin_menu(lang), command),
        basic_menu(lang).is_prefix_of(admin_menu(lang)),
{
    let menu = admin_menu(lang);
    reveal_strlit("/");
    reveal_strlit("start");
    reveal_strlit("help");
    reveal_strlit("enable");
    reveal_strlit("disable");
    reveal_strlit("/start");
    reveal_strlit("/help");
    reveal_strlit("/enable");
    reveal_strlit("/disable");
    assert("/"@ + menu[0].command@ =~= "/start"@);
    assert("/"@ + menu[1].command@ =~= "/help"@);
    assert("/"@ + menu[2].command@ =~= "/enable"@);
    assert("/"@ + menu[3].command@ =~= "/disable"@);
    assert("/start"@[1] != "/help"@[1]);
    assert("/enable"@[1] != "/start"@[1] && "/enable"@[1] != "/help"@[1]);
    assert("/disable"@[1] != "/start"@[1] && "/disable"@[1] != "/help"@[1]);
    assert("/disable"@[1] != "/enable"@[1]);
    assert(commands::command_of("/"@ + menu[0].command@) == Some(Command::Start));
    assert(commands::command_of("/"@ + menu[1].command@) == Some(Command::Help));
    assert(commands::command_of("/"@ + menu[2].command@) == Some(Command::Enable));
    assert(commands::command_of("/"@ + menu[3].command@) == Some(Command::Disable));
    assert forall|command: Command| #[trigger] offers(menu, command) by {
        match command {
            Command::Start => {
                let _ = menu[0];
            },
            Command::Help => {
                let _ = menu[1];
            },
            Command::Enable => {
                let _ = menu[2];
            },
            Command::Disable => {
                let _ = menu[3];
            },
        }
    }
}

} // verus!
