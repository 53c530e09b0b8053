use unpinbot::chat::ChatId;
use unpinbot::commands::Command;
use unpinbot::dispatch::{route_update, run, IncomingMessage, Route, Stage, StartStep, Update};
use unpinbot::unpin::ChatMigration;

fn message(text: Option<&str>, caption: Option<&str>) -> IncomingMessage {
    IncomingMessage {
        is_automatic_forward: false,
        migration: None,
        text: text.map(str::to_owned),
        caption: caption.map(str::to_owned),
    }
}

#[test]
fn updates_go_to_their_handlers() {
    let route = |msg: IncomingMessage| route_update(&Update::Message(msg), "unpinbot");
    assert_eq!(route(message(Some("/enable"), None)), Route::Command(Command::Enable));
    assert_eq!(
        route(message(None, Some("/help@UNPINBOT"))),
        Route::Command(Command::Help)
    );
    // The caption counts only where there is no text.
    assert_eq!(route(message(Some("hi"), Some("/help"))), Route::Skip);
    assert_eq!(route(message(Some("/enable@otherbot"), None)), Route::Skip);
    assert_eq!(route(message(None, None)), Route::Skip);

    let mut post = message(Some("/enable"), None);
    post.is_automatic_forward = true;
    assert_eq!(route(post), Route::AutoUnpin);

    let mut upgrade = message(None, None);
    let migration = ChatMigration::From { chat_id: ChatId(-599075523) };
    upgrade.migration = Some(migration);
    assert_eq!(route(upgrade), Route::ChatMigrated(migration));

    assert_eq!(route_update(&Update::MyChatMember, "unpinbot"), Route::MyChatMember);
    assert_eq!(route_update(&Update::Other, "unpinbot"), Route::Skip);
}

fn fatal(stage: Stage) -> Option<String> {
    match run(stage, &Err("boom".to_owned())) {
        StartStep::Fatal(message) => Some(message),
        StartStep::Go(_) => None,
    }
}

#[test]
fn a_sound_start_ends_in_dispatching() {
    let mut stage = Stage::Config;
    let mut stages = vec![stage];
    while stage != Stage::Dispatch {
        match run(stage, &Ok(())) {
            StartStep::Go(next) => stage = next,
            StartStep::Fatal(message) => panic!("{message}"),
        }
        stages.push(stage);
    }
    assert_eq!(
        stages,
        [
            Stage::Config,
            Stage::Catalogs,
            Stage::State,
            Stage::Writable,
            Stage::Identity,
            Stage::Profile,
            Stage::Dispatch
        ]
    );
}

#[test]
fn only_some_failures_keep_the_bot_from_starting() {
    assert_eq!(fatal(Stage::Config).unwrap(), "unpinbot: boom");
    assert_eq!(fatal(Stage::Catalogs).unwrap(), "unpinbot: boom");
    assert_eq!(fatal(Stage::State).unwrap(), "unpinbot: boom");
    assert_eq!(
        fatal(Stage::Identity).unwrap(),
        "unpinbot: cannot reach Telegram with provided token: boom"
    );
    assert!(fatal(Stage::Writable).is_none());
    assert!(fatal(Stage::Profile).is_none());
}
