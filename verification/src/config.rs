//! Configuration from the environment.

use crate::text;
use vstd::prelude::*;
use vstd::string::StringExecFns;

verus! {

/// Names the bot token from @BotFather (required).
pub const TOKEN_VAR: &'static str = "TELOXIDE_TOKEN";

/// Names the enabled-state file.
pub const STATE_PATH_VAR: &'static str = "UNPINBOT_STATE_PATH";

/// Names the proxy for every outgoing request.
pub const PROXY_VAR: &'static str = "TELOXIDE_PROXY";

/// The enabled-state file when no other is named.
pub const DEFAULT_STATE_PATH: &'static str = "pers_data/state.json";

/// A proxy as `reqwest` keeps it.
#[verifier::external_type_specification]
#[verifier::external_body]
pub struct ExProxy(reqwest::Proxy);

/// What `reqwest::Proxy::all` makes of a URL: a proxy, or an error that reads
/// as the given text.
pub uninterp spec fn proxy_for(url: Seq<char>) -> Result<reqwest::Proxy, Seq<char>>;

/// `reqwest::Proxy::all`: a proxy for all traffic, or the text of the error
/// where the URL is not acceptable. Which of them comes is a function of the
/// URL; nothing is said of what makes a URL acceptable.
#[verifier::external_body]
fn proxy_all(url: &str) -> (r: Result<reqwest::Proxy, String>)
    ensures
        match r {
            Ok(proxy) => proxy_for(url@) == Ok::<reqwest::Proxy, Seq<char>>(proxy),
            Err(e) => proxy_for(url@) == Err::<reqwest::Proxy, Seq<char>>(e@),
        },
{
    match reqwest::Proxy::all(url) {
        Ok(proxy) => Ok(proxy),
        Err(e) => Err(e.to_string()),
    }
}

/// A text as `{:?}` shows it.
pub uninterp spec fn debug_text(s: Seq<char>) -> Seq<char>;

/// `{:?}` of a `str`: the text in quotes, with escapes. What it is, is a
/// function of the text.
#[verifier::external_body]
fn quoted(s: &str) -> (r: String)
    ensures
        r@ == debug_text(s@),
{
    format!("{:?}", s)
}

/// The values of the environment variables that the bot reads; `None` for one
/// that is not set.
#[derive(Debug)]
pub struct EnvVars {
    pub token: Option<String>,
    pub state_path: Option<String>,
    pub proxy: Option<String>,
}

/// Runtime configuration.
#[derive(Clone, Debug)]
pub struct Config {
    /// Bot token from @BotFather.
    pub token: String,
    /// Enabled-state file.
    pub state_path: String,
    /// Proxy for every outgoing request; `None` connects directly.
    pub proxy: Option<reqwest::Proxy>,
}

/// What a variable says: its value without the white space around it, or
/// nothing where it is not set or holds white space only.
pub open spec fn given(value: Option<String>) -> Option<Seq<char>> {
    match value {
        Some(v) => if text::trimmed(v@).len() > 0 {
            Some(text::trimmed(v@))
        } else {
            None
        },
        None => None,
    }
}

/// The complaint about a required variable that says nothing.
pub open spec fn missing_message(var: Seq<char>, value: Option<String>) -> Seq<char> {
    "environment variable "@ + var + match value {
        Some(_) => " is set but empty"@,
        None => " is not set (get a token from @BotFather)"@,
    }
}

/// What the required variable `var` says, or the complaint that it says
/// nothing.
pub fn non_empty(var: &str, value: &Option<String>) -> (r: Result<String, String>)
    ensures
        match r {
            Ok(v) => given(*value) == Some(v@),
            Err(message) => given(*value) is None && message@ == missing_message(var@, *value),
        },
{
    let mut message = text::join2("environment variable ", var);
    match value {
        Some(v) => {
            let v = text::trim(v.as_str());
            if !v.is_empty() {
                return Ok(v.to_owned());
            }
            message.append(" is set but empty");
        },
        None => {
            message.append(" is not set (get a token from @BotFather)");
        },
    }
    Err(message)
}

/// What an optional variable says, else `default`.
pub fn defaulted(value: &Option<String>, default: &str) -> (r: String)
    ensures
        r@ == match given(*value) {
            Some(v) => v,
            None => default@,
        },
{
    if let Some(v) = value {
        // Trimmed: a trailing space or CR (a CRLF `.env`) would otherwise
        // become part of the value.
        let v = text::trim(v.as_str());
        if !v.is_empty() {
            return v.to_owned();
        }
    }
    default.to_owned()
}

/// The complaint about a proxy, with the URL as `{:?}` shows it.
pub open spec fn invalid_proxy(shown: Seq<char>, e: Seq<char>) -> Seq<char> {
    "invalid TELOXIDE_PROXY "@ + shown + ": "@ + e
}

/// What becomes of the attempt `made` to set up a proxy for a URL that `{:?}`
/// shows as `shown`.
pub fn proxy_from(shown: &str, made: Result<reqwest::Proxy, String>) -> (r: Result<
    Option<reqwest::Proxy>,
    String,
>)
    ensures
        match made {
            Ok(proxy) => r == Ok::<Option<reqwest::Proxy>, String>(Some(proxy)),
            Err(e) => r matches Err(message) && message@ == invalid_proxy(shown@, e@),
        },
{
    match made {
        Ok(proxy) => Ok(Some(proxy)),
        Err(e) => Err(text::join4("invalid TELOXIDE_PROXY ", shown, ": ", e.as_str())),
    }
}

/// Whether `r` is the proxy that `value` names, or the complaint about it.
pub open spec fn proxy_read(
    value: Option<String>,
    r: Result<Option<reqwest::Proxy>, Seq<char>>,
) -> bool {
    match given(value) {
        None => r == Ok::<Option<reqwest::Proxy>, Seq<char>>(None),
        Some(url) => match proxy_for(url) {
            Ok(proxy) => r == Ok::<Option<reqwest::Proxy>, Seq<char>>(Some(proxy)),
            Err(e) => r == Err::<Option<reqwest::Proxy>, Seq<char>>(
                invalid_proxy(debug_text(url), e),
            ),
        },
    }
}

/// The proxy that the variable `TELOXIDE_PROXY` names, where it names one.
pub fn proxy(value: &Option<String>) -> (r: Result<Option<reqwest::Proxy>, String>)
    ensures
        proxy_read(
            *value,
            match r {
                Ok(proxy) => Ok(proxy),
                Err(message) => Err(message@),
            },
        ),
{
    if let Some(url) = value {
        let url = text::trim(url.as_str());
        if !url.is_empty() {
            return proxy_from(quoted(url).as_str(), proxy_all(url));
        }
    }
    Ok(None)
}

/// Whether `r` is the configuration that `vars` make, or the complaint about
/// the one that is at fault; the token comes first.
pub open spec fn configured(vars: EnvVars, r: Result<Config, String>) -> bool {
    match r {
        Ok(config) => {
            &&& given(vars.token) == Some(config.token@)
            &&& config.state_path@ == match given(vars.state_path) {
                Some(path) => path,
                None => DEFAULT_STATE_PATH@,
            }
            &&& proxy_read(vars.proxy, Ok(config.proxy))
        },
        Err(message) => match given(vars.token) {
            None => {
                &&& message@ == missing_message(TOKEN_VAR@, vars.token)
                &&& text::has_text(message@, TOKEN_VAR@)
            },
            Some(_) => {
                &&& proxy_read(vars.proxy, Err(message@))
                &&& text::has_text(message@, PROXY_VAR@)
            },
        },
    }
}

impl Config {
    /// The configuration made of its parts; the complaint about the token
    /// comes before that about the proxy.
    pub fn from_parts(
        token: Result<String, String>,
        state_path: String,
        proxy: Result<Option<reqwest::Proxy>, String>,
    ) -> (r: Result<Config, String>)
        ensures
            match (token, proxy) {
                (Ok(token), Ok(proxy)) => r == Ok::<Config, String>(
                    (Config { token, state_path, proxy }),
                ),
                (Err(e), _) => r == Err::<Config, String>(e),
                (Ok(_), Err(e)) => r == Err::<Config, String>(e),
            },
    {
        match token {
            Ok(token) => match proxy {
                Ok(proxy) => Ok(Config { token, state_path, proxy }),
                Err(e) => Err(e),
            },
            Err(e) => Err(e),
        }
    }

    /// Makes the configuration of the values in the environment. Fails with a
    /// message that names the offending variable.
    pub fn from_env(vars: &EnvVars) -> (r: Result<Config, String>)
        ensures
            configured(*vars, r),
    {
        let proxy = proxy(&vars.proxy);
        proof {
            if proxy is Err {
                lemma_names_proxy(proxy->Err_0@, given(vars.proxy)->0);
            }
            lemma_names_variable(TOKEN_VAR@, vars.token);
        }
        Config::from_parts(
            non_empty(TOKEN_VAR, &vars.token),
            defaulted(&vars.state_path, DEFAULT_STATE_PATH),
            proxy,
        )
    }
}

/// The complaint about a required variable names the variable.
proof fn lemma_names_variable(var: Seq<char>, value: Option<String>)
    ensures
        text::has_text(missing_message(var, value), var),
{
    let n = "environment variable "@.len() as int;
    assert(missing_message(var, value).subrange(n, n + var.len()) =~= var);
}

/// The complaint about a proxy names the variable.
proof fn lemma_names_proxy(message: Seq<char>, url: Seq<char>)
    requires
        exists|e: Seq<char>| message == invalid_proxy(debug_text(url), e),
    ensures
        text::has_text(message, PROXY_VAR@),
{
    reveal_strlit("invalid TELOXIDE_PROXY ");
    reveal_strlit("TELOXIDE_PROXY");
    assert(message.subrange(8, 8int + PROXY_VAR@.len()) =~= PROXY_VAR@);
}

/// White space around the value of a variable makes no difference.
pub proof fn surrounding_space_does_not_matter(
    before: Seq<char>,
    after: Seq<char>,
    value: String,
    padded: String,
)
    requires
        forall|i: int| 0 <= i < before.len() ==> text::white_space(#[trigger] before[i]),
        forall|i: int| 0 <= i < after.len() ==> text::white_space(#[trigger] after[i]),
        padded@ == before + value@ + after,
    ensures
        given(Some(padded)) == given(Some(value)),
{
    text::trimmed_padded(before, value@, after);
}

/// What a variable says has no white space around it, and saying just that
/// says the same.
pub proof fn given_is_trimmed(value: String, again: String)
    requires
        given(Some(value)) == Some(again@),
    ensures
        given(Some(again)) == Some(again@),
        !text::white_space(again@[0]),
        !text::white_space(again@.last()),
{
    text::trimmed_ends(value@);
}

} // verus!
