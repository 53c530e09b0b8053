//! The commands `/start` `/help` `/enable` `/disable`: how they are written,
//! who may give them, and what each is answered.

use crate::chat::{Chat, ChatId, ChatMember, ChatPermissions, UserId};
use crate::i18n::Answer;
use crate::retry::RequestError;
use crate::rights;
use crate::rights::PermissionsQuery;
use crate::state;
use crate::state::{AppState, SaveRun};
use crate::text;
use vstd::prelude::*;
use vstd::string::StrSliceExecFns;

verus! {

/// A command to the bot.
#[derive(Clone, Copy, Debug, PartialEq, Eq, Structural)]
pub enum Command {
    Start,
    Help,
    Enable,
    Disable,
}

/// Why a text is not a command to this bot.
#[derive(Debug, PartialEq)]
pub enum ParseError {
    /// It is addressed to the bot with this name.
    WrongBotName(String),
    /// There is no command of this name.
    UnknownCommand(String),
}

/// The name of the command that a text begins with: its first word, up to the
/// mention of a bot.
pub open spec fn command_name(message: Seq<char>) -> Seq<char> {
    text::before(text::before(message, ' '), '@')
}

/// The bot that the first word of a text mentions, if it mentions one.
pub open spec fn mentioned_bot(message: Seq<char>) -> Option<Seq<char>> {
    let word = text::before(message, ' ');
    if word.contains('@') {
        Some(text::before(word.skip(text::before(word, '@').len() + 1int), '@'))
    } else {
        None
    }
}

/// Whether a text is addressed to the bot `bot_name`: it mentions that bot, in
/// whatever case, or none.
pub open spec fn addressed_to(message: Seq<char>, bot_name: Seq<char>) -> bool {
    match mentioned_bot(message) {
        Some(bot) => text::same_but_for_ascii_case(bot, bot_name),
        None => true,
    }
}

/// The command of a name.
pub open spec fn command_of(name: Seq<char>) -> Option<Command> {
    if name == "/start"@ {
        Some(Command::Start)
    } else if name == "/help"@ {
        Some(Command::Help)
    } else if name == "/enable"@ {
        Some(Command::Enable)
    } else if name == "/disable"@ {
        Some(Command::Disable)
    } else {
        None
    }
}

/// Whether `r` is what the text `message` is to the bot `bot_name`.
pub open spec fn parsed(
    message: Seq<char>,
    bot_name: Seq<char>,
    r: Result<Command, ParseError>,
) -> bool {
    match r {
        Ok(command) => {
            &&& addressed_to(message, bot_name)
            &&& command_of(command_name(message)) == Some(command)
        },
        Err(ParseError::WrongBotName(name)) => {
            &&& !addressed_to(message, bot_name)
            &&& mentioned_bot(message) == Some(name@)
        },
        Err(ParseError::UnknownCommand(name)) => {
            &&& addressed_to(message, bot_name)
            &&& command_of(command_name(message)) is None
            &&& name@ == command_name(message)
        },
    }
}

impl Command {
    /// The command that `message` gives to the bot `bot_name`. What follows the
    /// first word does not matter.
    pub fn parse(message: &str, bot_name: &str) -> (r: Result<Command, ParseError>)
        ensures
            parsed(message@, bot_name@, r),
    {
        let word = message.substring_char(0, text::find_char(message, ' '));
        let at: usize = text::find_char(word, '@');
        let name = word.substring_char(0, at);
        let len: usize = word.unicode_len();
        if at < len {
            let rest = word.substring_char(at + 1, len);
            assert(rest@ == word@.skip(at + 1));
            let bot = rest.substring_char(0, text::find_char(rest, '@'));
            if !text::eq_ignore_ascii_case(bot, bot_name) {
                return Err(ParseError::WrongBotName(bot.to_owned()));
            }
        }
        if text::same_text(name, "/start") {
            Ok(Command::Start)
        } else if text::same_text(name, "/help") {
            Ok(Command::Help)
        } else if text::same_text(name, "/enable") {
            Ok(Command::Enable)
        } else if text::same_text(name, "/disable") {
            Ok(Command::Disable)
        } else {
            Err(ParseError::UnknownCommand(name.to_owned()))
        }
    }
}

/// What follows the first word of a text does not matter: neither the command
/// nor the bot that it is addressed to depends on it.
pub proof fn arguments_do_not_matter(word: Seq<char>, rest: Seq<char>)
    requires
        !word.contains(' '),
    ensures
        command_name(word + seq![' '] + rest) == command_name(word),
        mentioned_bot(word + seq![' '] + rest) == mentioned_bot(word),
{
    let message = word + seq![' '] + rest;
    let n = word.len() as int;
    text::before_is(message, ' ', n);
    text::before_is(word, ' ', n);
    assert(message.take(n) =~= word);
    assert(word.take(n) =~= word);
}

/// A command that mentions the bot is the plain command, in whatever case the
/// bot's name is written; one that mentions another bot is none.
pub proof fn mention_addresses_one_bot(
    name: Seq<char>,
    bot: Seq<char>,
    bot_name: Seq<char>,
)
    requires
        !name.contains(' ') && !name.contains('@'),
        !bot.contains(' ') && !bot.contains('@'),
    ensures
        command_name(name + seq!['@'] + bot) == command_name(name),
        mentioned_bot(name + seq!['@'] + bot) == Some(bot),
        addressed_to(name + seq!['@'] + bot, bot_name) == text::same_but_for_ascii_case(
            bot,
            bot_name,
        ),
        addressed_to(name, bot_name),
{
    let message = name + seq!['@'] + bot;
    let n = name.len() as int;
    assert forall|i: int| 0 <= i < message.len() implies message[i] != ' ' by {
        if i < n {
            assert(name.contains(name[i]));
        } else if i > n {
            assert(bot.contains(bot[i - n - 1]));
        }
    }
    text::before_is(message, ' ', message.len() as int);
    assert(message.take(message.len() as int) =~= message);
    text::before_is(message, '@', n);
    assert(message.take(n) =~= name);
    text::before_is(name, ' ', n);
    text::before_is(name, '@', n);
    assert(name.take(n) =~= name);
    assert(message[n] == '@');
    assert(message.skip(n + 1) =~= bot);
    text::before_is(bot, '@', bot.len() as int);
    assert(bot.take(bot.len() as int) =~= bot);
}

/// A message with a command, as far as it matters who gave it where.
#[derive(Clone, Copy, Debug, PartialEq, Eq, Structural)]
pub struct CommandMessage {
    pub chat: Chat,
    /// The chat on whose behalf the message was sent. Anonymous administrators
    /// of a group send on behalf of the group itself.
    pub sender_chat: Option<ChatId>,
    /// The user who sent it; a stand-in for an anonymous administrator.
    pub from: Option<UserId>,
}

/// Whether a group command may be given in a chat of this sort at all.
pub open spec fn in_a_group(msg: CommandMessage) -> bool {
    msg.chat.kind is Group || msg.chat.kind is Supergroup
}

/// Rejects non-group chats: the answer to a command in one.
pub fn ensure_group(msg: &CommandMessage) -> (r: Option<Answer>)
    ensures
        r == if in_a_group(*msg) {
            None
        } else {
            Some(Answer::NotGroup)
        },
{
    if !msg.chat.is_group() && !msg.chat.is_supergroup() {
        Some(Answer::NotGroup)
    } else {
        None
    }
}

/// What is known of a caller's right to give a command.
#[derive(Clone, Copy, Debug, PartialEq, Eq, Structural)]
pub enum CallerCheck {
    Admitted,
    Refused(Answer),
    /// Ask Telegram for this user's membership in the chat, and go on with
    /// [`caller_checked`].
    Ask(UserId),
}

/// What is known of the caller before anybody is asked. A message without a
/// sender is treated as not from an administrator. One with a sender on behalf
/// of the chat itself is from an anonymous administrator; there is no real user
/// to look up.
pub open spec fn caller_check(msg: CommandMessage) -> CallerCheck {
    match msg.from {
        None => CallerCheck::Refused(Answer::NotAdmin),
        Some(user) => if msg.sender_chat == Some(msg.chat.id) {
            CallerCheck::Admitted
        } else {
            CallerCheck::Ask(user)
        },
    }
}

/// Rejects non-admin callers, as far as the message itself tells. A message
/// without a sender is treated as not from an administrator.
pub fn ensure_caller_admin(msg: &CommandMessage) -> (r: CallerCheck)
    ensures
        r == caller_check(*msg),
{
    let user = match msg.from {
        Some(user) => user,
        None => {
            return CallerCheck::Refused(Answer::NotAdmin);
        },
    };
    if let Some(chat) = msg.sender_chat {
        if chat == msg.chat.id {
            return CallerCheck::Admitted;
        }
    }
    CallerCheck::Ask(user)
}

/// The answer to a caller whose membership came as `reply`; `None` for one who
/// is admitted.
pub open spec fn member_refusal(reply: Result<ChatMember, RequestError>) -> Option<Answer> {
    match reply {
        Ok(member) => if rights::privileged(member.kind) {
            None
        } else {
            Some(Answer::NotAdmin)
        },
        Err(_) => Some(Answer::RetryLater),
    }
}

/// Rejects non-admin callers, by what Telegram says of them.
pub fn caller_checked(reply: &Result<ChatMember, RequestError>) -> (r: Option<Answer>)
    ensures
        r == member_refusal(*reply),
{
    match reply {
        Ok(member) => if rights::is_privileged(member) {
            None
        } else {
            Some(Answer::NotAdmin)
        },
        Err(_) => Some(Answer::RetryLater),
    }
}

/// `/start` is answered with the introduction.
pub fn start() -> (r: Answer)
    ensures
        r == Answer::Start,
{
    Answer::Start
}

/// `/help` is answered with the help.
pub fn help() -> (r: Answer)
    ensures
        r == Answer::Help,
{
    Answer::Help
}

/// What comes next in the handling of `/enable`.
#[derive(Clone, Copy, Debug, PartialEq, Eq, Structural)]
pub enum EnableStep {
    /// Give this answer; that is all.
    Answer(Answer),
    /// Ask for this user's membership in the chat, then [`enable_caller`].
    AskCaller(UserId),
    /// Ask for the chat's default permissions, then [`enable_permissions`].
    AskPermissions,
    /// Ask for the bot's own membership in the chat, then [`enable_bot`] with
    /// these permissions.
    AskBot(Option<ChatPermissions>),
}

/// What comes next once the caller is admitted. Basic groups expose the pin
/// right via default chat permissions; supergroups via the bot's admin rights.
pub open spec fn after_admission(msg: CommandMessage) -> EnableStep {
    if msg.chat.kind is Group {
        EnableStep::AskPermissions
    } else {
        EnableStep::AskBot(None)
    }
}

fn admitted(msg: &CommandMessage) -> (r: EnableStep)
    ensures
        r == after_admission(*msg),
{
    match rights::basic_group_permissions(&msg.chat) {
        PermissionsQuery::AskChat => EnableStep::AskPermissions,
        PermissionsQuery::NotNeeded => EnableStep::AskBot(None),
    }
}

/// How the handling of `/enable` begins.
pub open spec fn enable_begins(msg: CommandMessage) -> EnableStep {
    if !in_a_group(msg) {
        EnableStep::Answer(Answer::NotGroup)
    } else {
        match caller_check(msg) {
            CallerCheck::Admitted => after_admission(msg),
            CallerCheck::Refused(answer) => EnableStep::Answer(answer),
            CallerCheck::Ask(user) => EnableStep::AskCaller(user),
        }
    }
}

/// `/enable` enables auto-unpin in a group: first, may it be given here, and
/// by this caller?
pub fn enable(msg: &CommandMessage) -> (r: EnableStep)
    ensures
        r == enable_begins(*msg),
{
    if let Some(answer) = ensure_group(msg) {
        return EnableStep::Answer(answer);
    }
    match ensure_caller_admin(msg) {
        CallerCheck::Admitted => admitted(msg),
        CallerCheck::Refused(answer) => EnableStep::Answer(answer),
        CallerCheck::Ask(user) => EnableStep::AskCaller(user),
    }
}

/// What follows the caller's membership.
pub open spec fn after_caller(
    msg: CommandMessage,
    reply: Result<ChatMember, RequestError>,
) -> EnableStep {
    match member_refusal(reply) {
        Some(answer) => EnableStep::Answer(answer),
        None => after_admission(msg),
    }
}

/// `/enable` goes on when the caller's membership came as `reply`.
pub fn enable_caller(msg: &CommandMessage, reply: &Result<ChatMember, RequestError>) -> (r:
    EnableStep)
    ensures
        r == after_caller(*msg, *reply),
{
    match caller_checked(reply) {
        Some(answer) => EnableStep::Answer(answer),
        None => admitted(msg),
    }
}

/// What follows the chat's permissions.
pub open spec fn after_permissions(
    reply: Result<Option<ChatPermissions>, RequestError>,
) -> EnableStep {
    match reply {
        Ok(permissions) => EnableStep::AskBot(permissions),
        Err(_) => EnableStep::Answer(Answer::RetryLater),
    }
}

/// `/enable` goes on when the chat's default permissions came as `reply`.
pub fn enable_permissions(reply: &Result<Option<ChatPermissions>, RequestError>) -> (r: EnableStep)
    ensures
        r == after_permissions(*reply),
{
    match reply {
        Ok(permissions) => EnableStep::AskBot(*permissions),
        Err(_) => EnableStep::Answer(Answer::RetryLater),
    }
}

/// The refusal that follows from the bot's membership, if one does.
pub open spec fn bot_refusal(
    msg: CommandMessage,
    permissions: Option<ChatPermissions>,
    reply: Result<ChatMember, RequestError>,
) -> Option<Answer> {
    match reply {
        Ok(bot) => if rights::can_unpin(msg.chat.kind, bot.kind, permissions) {
            None
        } else {
            Some(Answer::RequireRights)
        },
        Err(_) => Some(Answer::RetryLater),
    }
}

/// The answer to `/enable` whose insertion went as `inserted` says.
pub open spec fn enable_answer(inserted: Result<bool, String>) -> Answer {
    match inserted {
        Ok(true) => Answer::Enabled,
        Ok(false) => Answer::AlreadyEnabled,
        Err(_) => Answer::RetryLater,
    }
}

/// Whether `save` can be handed the rewrite that `/enable` takes, if it takes
/// one.
pub open spec fn may_enable<S: FnOnce(SaveRun) -> Result<(), String>>(
    msg: CommandMessage,
    permissions: Option<ChatPermissions>,
    reply: Result<ChatMember, RequestError>,
    before: AppState,
    save: S,
) -> bool {
    bot_refusal(msg, permissions, reply) is None ==> state::may_insert(
        before@,
        before.paths(),
        msg.chat.id,
        save,
    )
}

/// `/enable` is answered `answer` once the bot's own membership came as `reply`,
/// and turns the state `before` into `after`.
pub open spec fn enables<S: FnOnce(SaveRun) -> Result<(), String>>(
    msg: CommandMessage,
    permissions: Option<ChatPermissions>,
    reply: Result<ChatMember, RequestError>,
    before: AppState,
    save: S,
    after: AppState,
    answer: Answer,
) -> bool {
    match bot_refusal(msg, permissions, reply) {
        Some(refusal) => answer == refusal && after@ == before@,
        None => exists|inserted: Result<bool, String>|
            {
                &&& #[trigger] state::inserts(
                    before@,
                    before.paths(),
                    msg.chat.id,
                    save,
                    after@,
                    inserted,
                )
                &&& answer == enable_answer(inserted)
            },
    }
}

/// `/enable` ends when the bot's own membership came as `reply`: where the bot
/// may unpin in the chat, the chat is enabled.
pub fn enable_bot<S: FnOnce(SaveRun) -> Result<(), String>>(
    msg: &CommandMessage,
    permissions: Option<ChatPermissions>,
    reply: &Result<ChatMember, RequestError>,
    state: &mut AppState,
    save: S,
) -> (r: Answer)
    requires
        may_enable(*msg, permissions, *reply, *old(state), save),
    ensures
        final(state).paths() == old(state).paths(),
        enables(*msg, permissions, *reply, *old(state), save, *final(state), r),
{
    match reply {
        Ok(bot) => if !rights::bot_can_unpin(&msg.chat, bot, permissions) {
            return Answer::RequireRights;
        },
        Err(_) => {
            return Answer::RetryLater;
        },
    }
    match state.insert_and_save(msg.chat.id, save) {
        Ok(true) => Answer::Enabled,
        Ok(false) => Answer::AlreadyEnabled,
        Err(_) => Answer::RetryLater,
    }
}

/// The refusal of `/enable`, if it is refused, where Telegram's replies are
/// those given: `caller` for the caller's membership, `permissions` for the
/// chat's default permissions, `bot` for the bot's own membership. Only an
/// administrator of a group may enable it, and only where the bot may unpin.
pub open spec fn enable_refusal(
    msg: CommandMessage,
    caller: Result<ChatMember, RequestError>,
    permissions: Result<Option<ChatPermissions>, RequestError>,
    bot: Result<ChatMember, RequestError>,
) -> Option<Answer> {
    let anonymous_admin = msg.sender_chat == Some(msg.chat.id);
    if !in_a_group(msg) {
        Some(Answer::NotGroup)
    } else if msg.from is None {
        Some(Answer::NotAdmin)
    } else if !anonymous_admin && member_refusal(caller) is Some {
        member_refusal(caller)
    } else if msg.chat.kind is Group && permissions is Err {
        Some(Answer::RetryLater)
    } else {
        bot_refusal(
            msg,
            if msg.chat.kind is Group {
                permissions->Ok_0
            } else {
                None
            },
            bot,
        )
    }
}

/// Where the handling of `/enable` comes to from `step` on, with Telegram's
/// replies as given: the refusal, or `None` where the chat is to be enabled.
pub open spec fn enable_from(
    msg: CommandMessage,
    step: EnableStep,
    caller: Result<ChatMember, RequestError>,
    permissions: Result<Option<ChatPermissions>, RequestError>,
    bot: Result<ChatMember, RequestError>,
) -> Option<Answer>
    decreases
            match step {
                EnableStep::AskCaller(_) => 3nat,
                EnableStep::AskPermissions => 2,
                EnableStep::AskBot(_) => 1,
                EnableStep::Answer(_) => 0,
            },
{
    match step {
        EnableStep::Answer(answer) => Some(answer),
        EnableStep::AskCaller(_) => enable_from(
            msg,
            after_caller(msg, caller),
            caller,
            permissions,
            bot,
        ),
        EnableStep::AskPermissions => enable_from(
            msg,
            after_permissions(permissions),
            caller,
            permissions,
            bot,
        ),
        EnableStep::AskBot(p) => bot_refusal(msg, p, bot),
    }
}

/// Handled step by step, `/enable` is refused just where [`enable_refusal`]
/// says, with the answer that it says.
pub proof fn enable_is_refused_as_stated(
    msg: CommandMessage,
    caller: Result<ChatMember, RequestError>,
    permissions: Result<Option<ChatPermissions>, RequestError>,
    bot: Result<ChatMember, RequestError>,
)
    ensures
        enable_from(msg, enable_begins(msg), caller, permissions, bot) == enable_refusal(
            msg,
            caller,
            permissions,
            bot,
        ),
{
    reveal_with_fuel(enable_from, 4);
}

/// A chat is enabled only on behalf of an administrator (one known by name, or
/// an anonymous one), in a group, and where the bot may unpin.
pub proof fn enabling_takes_rights(
    msg: CommandMessage,
    caller: Result<ChatMember, RequestError>,
    permissions: Result<Option<ChatPermissions>, RequestError>,
    bot: Result<ChatMember, RequestError>,
)
    requires
        enable_refusal(msg, caller, permissions, bot) is None,
    ensures
        msg.chat.kind is Group || msg.chat.kind is Supergroup,
        msg.from is Some,
        msg.sender_chat == Some(msg.chat.id) || (caller matches Ok(member) && rights::privileged(
            member.kind,
        )),
        bot matches Ok(member) && member.kind is Administrator && (
            msg.chat.kind is Supergroup ==> member.kind->Administrator_0.can_pin_messages
        ),
        msg.chat.kind is Group ==> (permissions matches Ok(Some(p)) && p.can_pin_messages),
{
}

/// What comes next in the handling of `/disable`.
#[derive(Clone, Copy, Debug, PartialEq, Eq, Structural)]
pub enum DisableStep {
    /// Give this answer; that is all.
    Answer(Answer),
    /// Ask for this user's membership in the chat, then [`disable_caller`].
    AskCaller(UserId),
}

/// The answer to `/disable` whose removal went as `removed` says.
pub open spec fn disable_answer(removed: Result<bool, String>) -> Answer {
    match removed {
        Ok(true) => Answer::Disabled,
        Ok(false) => Answer::AlreadyDisabled,
        Err(_) => Answer::RetryLater,
    }
}

/// The chat of `msg` is disabled, from `before` to `after`, and the answer to
/// that is `answer`.
pub open spec fn disables<S: FnOnce(SaveRun) -> Result<(), String>>(
    msg: CommandMessage,
    before: AppState,
    save: S,
    after: AppState,
    answer: Answer,
) -> bool {
    exists|removed: Result<bool, String>|
        {
            &&& #[trigger] state::removes(
                before@,
                before.paths(),
                msg.chat.id,
                save,
                after@,
                removed,
            )
            &&& answer == disable_answer(removed)
        }
}

fn disable_chat<S: FnOnce(SaveRun) -> Result<(), String>>(
    msg: &CommandMessage,
    state: &mut AppState,
    save: S,
) -> (r: Answer)
    requires
        state::may_remove(old(state)@, old(state).paths(), msg.chat.id, save),
    ensures
        final(state).paths() == old(state).paths(),
        disables(*msg, *old(state), save, *final(state), r),
{
    match state.remove_and_save(msg.chat.id, save) {
        Ok(true) => Answer::Disabled,
        Ok(false) => Answer::AlreadyDisabled,
        Err(_) => Answer::RetryLater,
    }
}

/// How the handling of `/disable` begins; `None` where the caller is admitted
/// at once, and the chat disabled.
pub open spec fn disable_begins(msg: CommandMessage) -> Option<DisableStep> {
    if !in_a_group(msg) {
        Some(DisableStep::Answer(Answer::NotGroup))
    } else {
        match caller_check(msg) {
            CallerCheck::Admitted => None,
            CallerCheck::Refused(answer) => Some(DisableStep::Answer(answer)),
            CallerCheck::Ask(user) => Some(DisableStep::AskCaller(user)),
        }
    }
}

/// Whether `save` can be handed the rewrite that `/disable` takes at once, if it
/// takes one.
pub open spec fn may_disable_at_once<S: FnOnce(SaveRun) -> Result<(), String>>(
    msg: CommandMessage,
    before: AppState,
    save: S,
) -> bool {
    disable_begins(msg) is None ==> state::may_remove(before@, before.paths(), msg.chat.id, save)
}

/// Whether `save` can be handed the rewrite that `/disable` takes once the
/// caller's membership came as `reply`, if it takes one.
pub open spec fn may_disable_for<S: FnOnce(SaveRun) -> Result<(), String>>(
    msg: CommandMessage,
    reply: Result<ChatMember, RequestError>,
    before: AppState,
    save: S,
) -> bool {
    member_refusal(reply) is None ==> state::may_remove(
        before@,
        before.paths(),
        msg.chat.id,
        save,
    )
}

/// `/disable` begins with `step`, and turns the state `before` into `after`: it
/// changes only where the caller is admitted at once.
pub open spec fn disables_at_once<S: FnOnce(SaveRun) -> Result<(), String>>(
    msg: CommandMessage,
    before: AppState,
    save: S,
    after: AppState,
    step: DisableStep,
) -> bool {
    match disable_begins(msg) {
        Some(first) => step == first && after@ == before@,
        None => step matches DisableStep::Answer(answer) && disables(
            msg,
            before,
            save,
            after,
            answer,
        ),
    }
}

/// `/disable` is answered `answer` once the caller's membership came as `reply`,
/// and turns the state `before` into `after`.
pub open spec fn disables_for<S: FnOnce(SaveRun) -> Result<(), String>>(
    msg: CommandMessage,
    reply: Result<ChatMember, RequestError>,
    before: AppState,
    save: S,
    after: AppState,
    answer: Answer,
) -> bool {
    match member_refusal(reply) {
        Some(refusal) => answer == refusal && after@ == before@,
        None => disables(msg, before, save, after, answer),
    }
}

/// `/disable` disables auto-unpin in a group: at once where the caller is an
/// anonymous administrator, else once the caller's membership is known.
pub fn disable<S: FnOnce(SaveRun) -> Result<(), String>>(
    msg: &CommandMessage,
    state: &mut AppState,
    save: S,
) -> (r: DisableStep)
    requires
        may_disable_at_once(*msg, *old(state), save),
    ensures
        final(state).paths() == old(state).paths(),
        disables_at_once(*msg, *old(state), save, *final(state), r),
{
    if let Some(answer) = ensure_group(msg) {
        return DisableStep::Answer(answer);
    }
    match ensure_caller_admin(msg) {
        CallerCheck::Admitted => DisableStep::Answer(disable_chat(msg, state, save)),
        CallerCheck::Refused(answer) => DisableStep::Answer(answer),
        CallerCheck::Ask(user) => DisableStep::AskCaller(user),
    }
}

/// `/disable` ends when the caller's membership came as `reply`.
pub fn disable_caller<S: FnOnce(SaveRun) -> Result<(), String>>(
    msg: &CommandMessage,
    reply: &Result<ChatMember, RequestError>,
    state: &mut AppState,
    save: S,
) -> (r: Answer)
    requires
        may_disable_for(*msg, *reply, *old(state), save),
    ensures
        final(state).paths() == old(state).paths(),
        disables_for(*msg, *reply, *old(state), save, *final(state), r),
{
    match caller_checked(reply) {
        Some(answer) => answer,
        None => disable_chat(msg, state, save),
    }
}

/// The refusal of `/disable`, if it is refused, where Telegram's reply for the
/// caller's membership is `caller`. Only an administrator of a group may
/// disable it.
pub open spec fn disable_refusal(
    msg: CommandMessage,
    caller: Result<ChatMember, RequestError>,
) -> Option<Answer> {
    if !in_a_group(msg) {
        Some(Answer::NotGroup)
    } else if msg.from is None {
        Some(Answer::NotAdmin)
    } else if msg.sender_chat == Some(msg.chat.id) {
        None
    } else {
        member_refusal(caller)
    }
}

/// Where the handling of `/disable` comes to, step by step, with Telegram's
/// reply as given: the refusal, or `None` where the chat is to be disabled.
pub open spec fn disable_from(
    step: Option<DisableStep>,
    caller: Result<ChatMember, RequestError>,
) -> Option<Answer> {
    match step {
        None => None,
        Some(DisableStep::Answer(answer)) => Some(answer),
        Some(DisableStep::AskCaller(_)) => member_refusal(caller),
    }
}

/// Handled step by step, `/disable` is refused just where [`disable_refusal`]
/// says, with the answer that it says.
pub proof fn disable_is_refused_as_stated(
    msg: CommandMessage,
    caller: Result<ChatMember, RequestError>,
)
    ensures
        disable_from(disable_begins(msg), caller) == disable_refusal(msg, caller),
{
}

/// Whoever may enable a chat may disable it: `/disable` is refused only where
/// `/enable` is, and then with the same answer. Unlike `/enable` it does not
/// ask for rights of the bot. A chat is disabled only on behalf of an
/// administrator, and in a group.
pub proof fn disabling_takes_an_administrator(
    msg: CommandMessage,
    caller: Result<ChatMember, RequestError>,
    permissions: Result<Option<ChatPermissions>, RequestError>,
    bot: Result<ChatMember, RequestError>,
)
    ensures
        disable_refusal(msg, caller) is Some ==> enable_refusal(msg, caller, permissions, bot)
            == disable_refusal(msg, caller),
        disable_refusal(msg, caller) is None ==> {
            &&& in_a_group(msg)
            &&& msg.from is Some
            &&& msg.sender_chat == Some(msg.chat.id) || (caller matches Ok(member)
                && rights::privileged(member.kind))
        },
{
}

/// The handling that a command gets.
#[derive(Clone, Copy, Debug, PartialEq, Eq, Structural)]
pub enum CommandRoute {
    /// Give this answer; that is all.
    Answer(Answer),
    /// Go on with [`enable`].
    Enable,
    /// Go on with [`disable`].
    Disable,
}

/// Dispatches a parsed command to its handler.
pub fn route_command(command: Command) -> (r: CommandRoute)
    ensures
        r == match command {
            Command::Start => CommandRoute::Answer(Answer::Start),
            Command::Help => CommandRoute::Answer(Answer::Help),
            Command::Enable => CommandRoute::Enable,
            Command::Disable => CommandRoute::Disable,
        },
{
    match command {
        Command::Start => CommandRoute::Answer(start()),
        Command::Help => CommandRoute::Answer(help()),
        Command::Enable => CommandRoute::Enable,
        Command::Disable => CommandRoute::Disable,
    }
}

} // verus!
