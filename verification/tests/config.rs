use unpinbot::config::{defaulted, non_empty, proxy, proxy_from, Config, EnvVars};

fn vars(token: Option<&str>, state_path: Option<&str>, proxy: Option<&str>) -> EnvVars {
    EnvVars {
        token: token.map(str::to_owned),
        state_path: state_path.map(str::to_owned),
        proxy: proxy.map(str::to_owned),
    }
}

#[test]
fn missing_token_is_error() {
    let err = Config::from_env(&vars(None, None, None)).unwrap_err();
    assert!(err.contains("TELOXIDE_TOKEN"));
    assert_eq!(
        err,
        "environment variable TELOXIDE_TOKEN is not set (get a token from @BotFather)"
    );
}

#[test]
fn empty_token_is_rejected() {
    let err = Config::from_env(&vars(Some("   "), None, None)).unwrap_err();
    assert!(err.contains("TELOXIDE_TOKEN"));
    assert_eq!(err, "environment variable TELOXIDE_TOKEN is set but empty");
}

#[test]
fn defaults_apply_when_unset() {
    let cfg = Config::from_env(&vars(Some("123:abc"), None, None)).expect("valid config");
    assert_eq!(cfg.state_path, "pers_data/state.json");
    let cfg = Config::from_env(&vars(Some("123:abc"), Some(" \t"), None)).expect("valid config");
    assert_eq!(cfg.state_path, "pers_data/state.json");
}

#[test]
fn overrides_apply_when_set() {
    let cfg = Config::from_env(&vars(Some("123:abc"), Some("custom/state.json"), None))
        .expect("valid config");
    assert_eq!(cfg.state_path, "custom/state.json");
}

#[test]
fn surrounding_whitespace_is_trimmed() {
    let cfg = Config::from_env(&vars(Some(" 123:abc\r\n"), Some(" custom/state.json "), None))
        .expect("valid config");
    assert_eq!(cfg.token, "123:abc");
    assert_eq!(cfg.state_path, "custom/state.json");
}

#[test]
fn proxy_is_optional_and_validated_at_startup() {
    assert!(Config::from_env(&vars(Some("123:abc"), None, None))
        .expect("valid config")
        .proxy
        .is_none());

    let set = vars(Some("123:abc"), None, Some(" socks5://127.0.0.1:1080 "));
    assert!(Config::from_env(&set).expect("valid config").proxy.is_some());

    let err = Config::from_env(&vars(Some("123:abc"), None, Some("not a url"))).unwrap_err();
    assert!(err.contains("TELOXIDE_PROXY"), "{err}");
}

#[test]
fn proxy_is_that_of_reqwest() {
    let ours = proxy(&Some("http://127.0.0.1:8080".to_owned())).unwrap().unwrap();
    let theirs = reqwest::Proxy::all("http://127.0.0.1:8080").unwrap();
    assert_eq!(format!("{ours:?}"), format!("{theirs:?}"));

    let e = reqwest::Proxy::all("not \"a\" url").unwrap_err();
    assert_eq!(
        proxy(&Some("not \"a\" url\n".to_owned())).unwrap_err(),
        format!("invalid TELOXIDE_PROXY \"not \\\"a\\\" url\": {e}")
    );
    assert!(proxy(&Some(" \n".to_owned())).unwrap().is_none());
    assert!(proxy(&None).unwrap().is_none());
    assert_eq!(
        proxy_from("\"x\"", Err("no good".to_owned())).unwrap_err(),
        "invalid TELOXIDE_PROXY \"x\": no good"
    );
}

#[test]
fn token_is_complained_of_before_the_proxy() {
    let err = Config::from_env(&vars(None, None, Some("not a url"))).unwrap_err();
    assert!(err.contains("TELOXIDE_TOKEN"));
    let parts = Config::from_parts(Err("t".to_owned()), "p".to_owned(), Err("x".to_owned()));
    assert_eq!(parts.unwrap_err(), "t");
    let parts = Config::from_parts(Ok("t".to_owned()), "p".to_owned(), Err("x".to_owned()));
    assert_eq!(parts.unwrap_err(), "x");
}

#[test]
fn white_space_is_that_of_unicode() {
    for code in 0..=0x10ffffu32 {
        if let Some(c) = char::from_u32(code) {
            let white = matches!(
                code,
                0x09..=0x0d
                    | 0x20
                    | 0x85
                    | 0xa0
                    | 0x1680
                    | 0x2000..=0x200a
                    | 0x2028
                    | 0x2029
                    | 0x202f
                    | 0x205f
                    | 0x3000
            );
            let value = Some(c.to_string());
            assert_eq!(non_empty("X", &value).is_err(), white, "{code:x}");
            assert_eq!(c.is_whitespace(), white, "{code:x}");
        }
    }
}

#[test]
fn inner_space_stays() {
    let value = Some("\u{3000} a \u{85}b\t".to_owned());
    assert_eq!(defaulted(&value, "x"), "a \u{85}b");
    assert_eq!(non_empty("X", &value).unwrap(), "a \u{85}b");
    assert_eq!(defaulted(&None, "x"), "x");
}
