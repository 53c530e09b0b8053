use serde_json::Value;
use unpinbot::chat::{Sender, UserId};
use unpinbot::i18n::{embedded, words_for, Answer, Catalogs, Commands, Errors, Lang, FALLBACK};
use unpinbot::unpin::{announcement_words, RightsChange};

fn field(value: &Value, name: &str) -> Result<String, String> {
    match value.get(name).and_then(Value::as_str) {
        Some(text) => Ok(text.to_owned()),
        None => Err(format!("missing field `{name}`")),
    }
}

fn parse(json: &str) -> Result<Lang, String> {
    let value: Value = serde_json::from_str(json).map_err(|e| e.to_string())?;
    let error = &value["error"];
    let cmd = &value["cmd"];
    Ok(Lang {
        start: field(&value, "start")?,
        help: field(&value, "help")?,
        enable: field(&value, "enable")?,
        disable: field(&value, "disable")?,
        error: Errors {
            not_group: field(error, "not_group")?,
            not_admin: field(error, "not_admin")?,
            require_rights: field(error, "require_rights")?,
            rights_revoked: field(error, "rights_revoked")?,
            already_enabled: field(error, "already_enabled")?,
            already_disabled: field(error, "already_disabled")?,
            retry_later: field(error, "retry_later")?,
        },
        cmd: Commands {
            start: field(cmd, "start")?,
            help: field(cmd, "help")?,
            enable: field(cmd, "enable")?,
            disable: field(cmd, "disable")?,
        },
        description: field(&value, "description")?,
    })
}

#[test]
fn embedded_catalogs_are_complete() {
    let catalogs = Catalogs::load(parse).expect("catalogs parse");
    let codes: Vec<_> = catalogs.all().into_iter().map(|(code, _)| code).collect();
    assert_eq!(codes, ["en", "zh"], "embedded language list changed");
    for (code, lang) in catalogs.all() {
        for (field, s) in [
            ("start", &lang.start),
            ("help", &lang.help),
            ("enable", &lang.enable),
            ("disable", &lang.disable),
            ("description", &lang.description),
            ("error.not_group", &lang.error.not_group),
            ("error.not_admin", &lang.error.not_admin),
            ("error.require_rights", &lang.error.require_rights),
            ("error.rights_revoked", &lang.error.rights_revoked),
            ("error.already_enabled", &lang.error.already_enabled),
            ("error.already_disabled", &lang.error.already_disabled),
            ("error.retry_later", &lang.error.retry_later),
            ("cmd.start", &lang.cmd.start),
            ("cmd.help", &lang.cmd.help),
            ("cmd.enable", &lang.cmd.enable),
            ("cmd.disable", &lang.cmd.disable),
        ] {
            assert!(!s.is_empty(), "{code}: {field} is empty");
        }
    }
}

#[test]
fn resolve_matches_primary_subtag_with_fallback() {
    let catalogs = Catalogs::load(parse).expect("catalogs parse");
    let en = catalogs.resolve(Some("en")).start.clone();
    let zh = catalogs.resolve(Some("zh")).start.clone();
    assert_ne!(en, zh, "catalogs are not distinct");

    assert_eq!(catalogs.resolve(None).start, en);
    assert_eq!(catalogs.resolve(Some("zh-Hans-CN")).start, zh);
    assert_eq!(catalogs.resolve(Some("ZH")).start, zh);
    assert_eq!(catalogs.resolve(Some("en-US")).start, en);
    assert_eq!(catalogs.resolve(Some("pt-BR")).start, en);
}

#[test]
fn odd_language_tags_fall_back() {
    let catalogs = Catalogs::load(parse).expect("catalogs parse");
    let en = catalogs.resolve(Some(FALLBACK)).start.clone();
    let zh = catalogs.resolve(Some("zH-x")).start.clone();
    assert_ne!(en, zh);
    for tag in ["", "-", "-zh", "zhx", "z", "zh_CN", "\u{1e9e}", " zh"] {
        assert_eq!(catalogs.resolve(Some(tag)).start, en, "{tag:?}");
    }
    assert_eq!(catalogs.resolve(Some("zh-")).start, zh);
    assert_eq!(catalogs.resolve_primary(Some("zh")).start, zh);
    // A primary subtag is taken as it stands.
    assert_eq!(catalogs.resolve_primary(Some("ZH")).start, en);
    assert_eq!(catalogs.resolve_primary(None).start, en);
}

#[test]
fn a_catalog_that_does_not_parse_is_a_startup_error() {
    let table = embedded();
    assert_eq!(table.len(), 2);
    let (_, en) = table[0];
    let bad_zh = |json: &str| {
        if json == en {
            parse(json)
        } else {
            Err("no good".to_owned())
        }
    };
    assert_eq!(
        Catalogs::load(bad_zh).err().unwrap(),
        "built-in zh language file is invalid: no good"
    );
    let bad = |_: &str| Err::<Lang, String>("oops".to_owned());
    assert_eq!(
        Catalogs::load(bad).err().unwrap(),
        "built-in en language file is invalid: oops"
    );
}

#[test]
fn every_answer_has_its_words() {
    let catalogs = Catalogs::load(parse).expect("catalogs parse");
    let lang = catalogs.resolve(None);
    for (answer, words) in [
        (Answer::Start, &lang.start),
        (Answer::Help, &lang.help),
        (Answer::Enabled, &lang.enable),
        (Answer::Disabled, &lang.disable),
        (Answer::NotGroup, &lang.error.not_group),
        (Answer::NotAdmin, &lang.error.not_admin),
        (Answer::RequireRights, &lang.error.require_rights),
        (Answer::RightsRevoked, &lang.error.rights_revoked),
        (Answer::AlreadyEnabled, &lang.error.already_enabled),
        (Answer::AlreadyDisabled, &lang.error.already_disabled),
        (Answer::RetryLater, &lang.error.retry_later),
    ] {
        assert_eq!(lang.text(answer), words);
    }
}

fn sender(language_code: Option<&str>) -> Option<Sender> {
    Some(Sender {
        id: UserId(7),
        language_code: language_code.map(str::to_owned),
    })
}

#[test]
fn answers_are_in_the_language_of_the_sender() {
    let catalogs = Catalogs::load(parse).expect("catalogs parse");
    let en = catalogs.resolve(Some("en"));
    let zh = catalogs.resolve(Some("zh"));
    for (from, lang) in [
        (sender(Some("zh-Hans-CN")), &zh),
        (sender(Some("Zh")), &zh),
        (sender(Some("ZH-hans")), &zh),
        (sender(Some("Z\u{c9}")), &en),
        (sender(Some("en-GB")), &en),
        (sender(Some("pt-BR")), &en),
        (sender(Some("")), &en),
        (sender(None), &en),
        (None, &en),
    ] {
        assert_eq!(words_for(&catalogs, &from, Answer::Enabled), lang.enable);
        assert_eq!(words_for(&catalogs, &from, Answer::NotAdmin), lang.error.not_admin);
        assert_eq!(
            announcement_words(&catalogs, &from, &RightsChange::Disabled).as_ref(),
            Some(&lang.error.rights_revoked)
        );
        assert_eq!(announcement_words(&catalogs, &from, &RightsChange::Kept), None);
    }
}
