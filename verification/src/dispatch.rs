//! Which handler an update goes to, and how the bot starts.

use crate::commands;
use crate::commands::Command;
use crate::text;
use crate::unpin::ChatMigration;
use vstd::prelude::*;

verus! {

/// A message, as far as it matters which handler it goes to.
#[derive(Debug)]
pub struct IncomingMessage {
    /// Whether it is a channel post that was forwarded automatically to the
    /// connected discussion group.
    pub is_automatic_forward: bool,
    /// The migration that it tells of, if it does.
    pub migration: Option<ChatMigration>,
    pub text: Option<String>,
    /// The caption of a media message.
    pub caption: Option<String>,
}

/// An update from Telegram.
#[derive(Debug)]
pub enum Update {
    Message(IncomingMessage),
    /// The bot's own membership in a chat changed.
    MyChatMember,
    /// Anything else.
    Other,
}

/// The handler that an update goes to.
#[derive(Clone, Copy, Debug, PartialEq, Eq, Structural)]
pub enum Route {
    AutoUnpin,
    ChatMigrated(ChatMigration),
    Command(Command),
    MyChatMember,
    /// None.
    Skip,
}

/// The command that a text gives to the bot `bot_name`, if it gives one.
pub open spec fn command_in(message: Seq<char>, bot_name: Seq<char>) -> Option<Command> {
    if commands::addressed_to(message, bot_name) {
        commands::command_of(commands::command_name(message))
    } else {
        None
    }
}

/// What a message says: its text, else its caption.
pub open spec fn said(msg: IncomingMessage) -> Option<Seq<char>> {
    match (msg.text, msg.caption) {
        (Some(t), _) => Some(t@),
        (None, Some(c)) => Some(c@),
        (None, None) => None,
    }
}

/// The handler that an update goes to, where the bot is called `bot_name`.
pub open spec fn route_of(update: Update, bot_name: Seq<char>) -> Route {
    match update {
        Update::Message(msg) => if msg.is_automatic_forward {
            Route::AutoUnpin
        } else if msg.migration is Some {
            Route::ChatMigrated(msg.migration->0)
        } else {
            match said(msg) {
                Some(t) => match command_in(t, bot_name) {
                    Some(command) => Route::Command(command),
                    None => Route::Skip,
                },
                None => Route::Skip,
            }
        },
        Update::MyChatMember => Route::MyChatMember,
        Update::Other => Route::Skip,
    }
}

/// Picks the handler for an update: forwarded channel posts are unpinned,
/// migrations followed, commands obeyed, and changes of the bot's own rights
/// taken note of.
pub fn route_update(update: &Update, bot_name: &str) -> (r: Route)
    ensures
        r == route_of(*update, bot_name@),
{
    let msg = match update {
        Update::Message(msg) => msg,
        Update::MyChatMember => {
            return Route::MyChatMember;
        },
        Update::Other => {
            return Route::Skip;
        },
    };
    if msg.is_automatic_forward {
        return Route::AutoUnpin;
    }
    if let Some(migration) = msg.migration {
        return Route::ChatMigrated(migration);
    }
    let said = match (&msg.text, &msg.caption) {
        (Some(t), _) => t,
        (None, Some(c)) => c,
        (None, None) => {
            return Route::Skip;
        },
    };
    match Command::parse(said.as_str(), bot_name) {
        Ok(command) => Route::Command(command),
        Err(_) => Route::Skip,
    }
}

/// The steps of the bot's start, in order.
#[derive(Clone, Copy, Debug, PartialEq, Eq, Structural)]
pub enum Stage {
    /// Read the configuration from the environment.
    Config,
    /// Parse the built-in catalogs.
    Catalogs,
    /// Load the enabled chats.
    State,
    /// Rewrite the state file once, to see that it is writable.
    Writable,
    /// Ask Telegram who the bot is. Fails fast on an unusable token or network.
    Identity,
    /// Register the bot's profile.
    Profile,
    /// Dispatch updates.
    Dispatch,
}

/// What follows a step of the start.
#[derive(Debug)]
pub enum StartStep {
    Go(Stage),
    /// Print this and exit.
    Fatal(String),
}

/// The step that follows `stage`.
pub open spec fn stage_after(stage: Stage) -> Stage {
    match stage {
        Stage::Config => Stage::Catalogs,
        Stage::Catalogs => Stage::State,
        Stage::State => Stage::Writable,
        Stage::Writable => Stage::Identity,
        Stage::Identity => Stage::Profile,
        Stage::Profile | Stage::Dispatch => Stage::Dispatch,
    }
}

/// What the bot exits with where `stage` goes as `outcome` says; `None` where
/// it goes on. An unwritable state file is only worth a warning (unpinning
/// keeps working for the chats already loaded), and so is a profile that could
/// not be registered.
pub open spec fn fatal_message(stage: Stage, outcome: Result<(), String>) -> Option<Seq<char>> {
    match outcome {
        Ok(_) => None,
        Err(e) => match stage {
            Stage::Config | Stage::Catalogs | Stage::State => Some("unpinbot: "@ + e@),
            Stage::Identity => Some(
                "unpinbot: "@ + ("cannot reach Telegram with provided token: "@ + e@),
            ),
            Stage::Writable | Stage::Profile | Stage::Dispatch => None,
        },
    }
}

/// Whether `r` follows the step `stage` of the start, which went as `outcome`
/// says.
pub open spec fn starts_on(stage: Stage, outcome: Result<(), String>, r: StartStep) -> bool {
    match fatal_message(stage, outcome) {
        Some(message) => r matches StartStep::Fatal(m) && m@ == message,
        None => r == StartStep::Go(stage_after(stage)),
    }
}

fn fatal(message: &str) -> (r: StartStep)
    ensures
        r matches StartStep::Fatal(m) && m@ == "unpinbot: "@ + message@,
{
    StartStep::Fatal(text::join2("unpinbot: ", message))
}

/// What follows the step `stage` of the start, which went as `outcome` says.
pub fn run(stage: Stage, outcome: &Result<(), String>) -> (r: StartStep)
    ensures
        starts_on(stage, *outcome, r),
{
    if let Err(e) = outcome {
        match stage {
            Stage::Config | Stage::Catalogs | Stage::State => {
                return fatal(e.as_str());
            },
            Stage::Identity => {
                return fatal(
                    text::join2("cannot reach Telegram with provided token: ", e.as_str()).as_str(),
                );
            },
            Stage::Writable | Stage::Profile | Stage::Dispatch => {},
        }
    }
    StartStep::Go(
        match stage {
            Stage::Config => Stage::Catalogs,
            Stage::Catalogs => Stage::State,
            Stage::State => Stage::Writable,
            Stage::Writable => Stage::Identity,
            Stage::Identity => Stage::Profile,
            Stage::Profile | Stage::Dispatch => Stage::Dispatch,
        },
    )
}

/// How the start goes from `stage` on, where each step goes as `outcomes`
/// says: `None` where updates are dispatched in the end, else the message that
/// the bot exits with.
pub open spec fn start_from(
    stage: Stage,
    outcomes: spec_fn(Stage) -> Result<(), String>,
) -> Option<Seq<char>>
    decreases stages_left(stage),
{
    if stage is Dispatch {
        None
    } else {
        match fatal_message(stage, outcomes(stage)) {
            Some(message) => Some(message),
            None => start_from(stage_after(stage), outcomes),
        }
    }
}

/// How many steps follow `stage`.
pub open spec fn stages_left(stage: Stage) -> nat {
    match stage {
        Stage::Config => 6,
        Stage::Catalogs => 5,
        Stage::State => 4,
        Stage::Writable => 3,
        Stage::Identity => 2,
        Stage::Profile => 1,
        Stage::Dispatch => 0,
    }
}

/// Updates are dispatched just where the configuration, the catalogs and the
/// state are in order and the bot knows its own identity; nothing else keeps
/// it from starting.
pub proof fn dispatch_takes_a_sound_start(outcomes: spec_fn(Stage) -> Result<(), String>)
    ensures
        start_from(Stage::Config, outcomes) is None <==> {
            &&& outcomes(Stage::Config) is Ok
            &&& outcomes(Stage::Catalogs) is Ok
            &&& outcomes(Stage::State) is Ok
            &&& outcomes(Stage::Identity) is Ok
        },
{
    reveal_with_fuel(start_from, 8);
}

} // verus!
