//! The built-in UI strings, one catalog per language.

use crate::chat::Sender;
use crate::text;
use std::sync::Arc;
use vstd::prelude::*;
use vstd::string::StrSliceExecFns;

verus! {

/// Everything that the bot says in one language.
#[derive(Clone, Debug)]
pub struct Lang {
    pub start: String,
    pub help: String,
    pub enable: String,
    pub disable: String,
    pub error: Errors,
    pub cmd: Commands,
    pub description: String,
}

/// The answers to requests that are refused or fail.
#[derive(Clone, Debug)]
pub struct Errors {
    pub not_group: String,
    pub not_admin: String,
    pub require_rights: String,
    pub rights_revoked: String,
    pub already_enabled: String,
    pub already_disabled: String,
    pub retry_later: String,
}

/// The descriptions of the commands, for the command menus.
#[derive(Clone, Debug)]
pub struct Commands {
    pub start: String,
    pub help: String,
    pub enable: String,
    pub disable: String,
}

/// Something that the bot says in a chat.
#[derive(Clone, Copy, Debug, PartialEq, Eq, Structural)]
pub enum Answer {
    Start,
    Help,
    Enabled,
    Disabled,
    NotGroup,
    NotAdmin,
    RequireRights,
    RightsRevoked,
    AlreadyEnabled,
    AlreadyDisabled,
    RetryLater,
}

impl Lang {
    /// The words for `answer` in this language.
    pub open spec fn words(self, answer: Answer) -> String {
        match answer {
            Answer::Start => self.start,
            Answer::Help => self.help,
            Answer::Enabled => self.enable,
            Answer::Disabled => self.disable,
            Answer::NotGroup => self.error.not_group,
            Answer::NotAdmin => self.error.not_admin,
            Answer::RequireRights => self.error.require_rights,
            Answer::RightsRevoked => self.error.rights_revoked,
            Answer::AlreadyEnabled => self.error.already_enabled,
            Answer::AlreadyDisabled => self.error.already_disabled,
            Answer::RetryLater => self.error.retry_later,
        }
    }

    /// The words for `answer` in this language.
    pub fn text(&self, answer: Answer) -> (r: &String)
        ensures
            *r == self.words(answer),
    {
        match answer {
            Answer::Start => &self.start,
            Answer::Help => &self.help,
            Answer::Enabled => &self.enable,
            Answer::Disabled => &self.disable,
            Answer::NotGroup => &self.error.not_group,
            Answer::NotAdmin => &self.error.not_admin,
            Answer::RequireRights => &self.error.require_rights,
            Answer::RightsRevoked => &self.error.rights_revoked,
            Answer::AlreadyEnabled => &self.error.already_enabled,
            Answer::AlreadyDisabled => &self.error.already_disabled,
            Answer::RetryLater => &self.error.retry_later,
        }
    }
}

/// The English catalog.
pub const EN: &'static str = r#"{
  "start": "Hi! Telegram pins every channel post that it forwards into the connected discussion group. I unpin those posts again.\n\nAdd me to the discussion group as an administrator with the right to pin messages, then send /enable there. See /help for more.",
  "help": "/enable - unpin forwarded channel posts in this group (administrators only)\n/disable - stop doing so (administrators only)\n/start - what this bot does\n/help - this message\n\nI need to be an administrator with the right to pin messages.",
  "enable": "Done. Forwarded channel posts will be unpinned in this group from now on.",
  "disable": "Done. Forwarded channel posts stay pinned in this group from now on.",
  "error": {
    "not_group": "This command works in groups only.",
    "not_admin": "Only administrators of this group can use this command.",
    "require_rights": "I am not allowed to unpin messages here. Make me an administrator with the right to pin messages, then send /enable again.",
    "rights_revoked": "I am no longer allowed to unpin messages here, so I have stopped. Give me the right to pin messages again, then send /enable.",
    "already_enabled": "Forwarded channel posts are already being unpinned in this group.",
    "already_disabled": "Forwarded channel posts are not being unpinned in this group.",
    "retry_later": "Something went wrong. Please try again later."
  },
  "cmd": {
    "start": "What this bot does",
    "help": "How to use this bot",
    "enable": "Unpin forwarded channel posts here",
    "disable": "Stop unpinning forwarded channel posts here"
  },
  "description": "Unpins channel posts forwarded into the connected discussion group."
}"#;

/// The Chinese catalog.
pub const ZH: &'static str = r#"{
  "start": "你好！Telegram 会把自动转发到关联讨论组的频道消息置顶，我负责取消这些置顶。\n\n请把我加入讨论组，设为管理员并授予置顶消息的权限，然后在群里发送 /enable。更多说明见 /help。",
  "help": "/enable - 在本群自动取消置顶频道消息（仅限管理员）\n/disable - 停止自动取消置顶（仅限管理员）\n/start - 本机器人的用途\n/help - 显示本说明\n\n我需要是拥有置顶消息权限的管理员。",
  "enable": "已启用。今后本群会自动取消置顶转发的频道消息。",
  "disable": "已停用。今后本群不再取消置顶转发的频道消息。",
  "error": {
    "not_group": "此命令只能在群组中使用。",
    "not_admin": "只有本群管理员才能使用此命令。",
    "require_rights": "我没有在本群取消置顶消息的权限。请把我设为拥有置顶消息权限的管理员，然后重新发送 /enable。",
    "rights_revoked": "我已失去在本群取消置顶消息的权限，因此停止工作。请重新授予置顶消息的权限，然后发送 /enable。",
    "already_enabled": "本群已经启用了自动取消置顶。",
    "already_disabled": "本群没有启用自动取消置顶。",
    "retry_later": "出错了，请稍后再试。"
  },
  "cmd": {
    "start": "本机器人的用途",
    "help": "使用说明",
    "enable": "在本群自动取消置顶频道消息",
    "disable": "停止自动取消置顶"
  },
  "description": "自动取消置顶转发到关联讨论组的频道消息。"
}"#;

/// Language used when the sender's language is unknown or unsupported.
pub const FALLBACK: &'static str = "en";

/// Every built-in catalog: its lower-case ISO 639-1 primary subtag and its
/// JSON text. A language is declared here and nowhere else.
pub open spec fn embedded_catalogs() -> Seq<(&'static str, &'static str)> {
    seq![("en", EN), ("zh", ZH)]
}

/// The table of built-in catalogs.
pub fn embedded() -> (r: Vec<(&'static str, &'static str)>)
    ensures
        r@ == embedded_catalogs(),
{
    vec![("en", EN), ("zh", ZH)]
}

/// The catalog for `code`: the first one declared for it.
pub open spec fn catalog_of(langs: Seq<(Seq<char>, Lang)>, code: Seq<char>) -> Option<Lang>
    decreases langs.len(),
{
    if langs.len() == 0 {
        None
    } else if langs[0].0 == code {
        Some(langs[0].1)
    } else {
        catalog_of(langs.drop_first(), code)
    }
}

/// The catalog for the primary subtag `primary`, else that of [`FALLBACK`].
pub open spec fn pick(langs: Seq<(Seq<char>, Lang)>, primary: Option<Seq<char>>) -> Option<Lang> {
    match primary {
        Some(p) => match catalog_of(langs, p) {
            Some(lang) => Some(lang),
            None => catalog_of(langs, FALLBACK@),
        },
        None => catalog_of(langs, FALLBACK@),
    }
}

/// The primary subtag of an IETF language tag, in lower case: what stands
/// before the first `-`.
pub open spec fn primary_subtag(tag: Seq<char>) -> Seq<char> {
    text::lowercase(text::before(tag, '-'))
}

/// The primary subtag of a tag whose ASCII capitals were made small before.
pub open spec fn folded_subtag(tag: Seq<char>) -> Seq<char> {
    text::lowercase(text::ascii_lower_text(text::before(tag, '-')))
}

/// Whether `lang` is the catalog for the language tag `code`.
pub open spec fn resolves(
    langs: Seq<(Seq<char>, Lang)>,
    code: Option<Seq<char>>,
    lang: Lang,
) -> bool {
    match code {
        Some(tag) => {
            &&& pick(langs, Some(primary_subtag(tag))) == Some(lang)
            &&& pick(langs, Some(folded_subtag(tag))) == Some(lang)
            &&& text::all_ascii(text::before(tag, '-')) ==> pick(
                langs,
                Some(text::ascii_lower_text(text::before(tag, '-'))),
            ) == Some(lang)
        },
        None => pick(langs, None) == Some(lang),
    }
}

/// Whether `r` is what `parse` makes of the built-in catalogs: all of them, or
/// the complaint about the first that it refuses.
pub open spec fn loaded<P: Fn(&str) -> Result<Lang, String>>(
    parse: P,
    r: Result<Catalogs, String>,
) -> bool {
    match r {
        Ok(catalogs) => {
            &&& catalogs@.len() == embedded_catalogs().len()
            &&& forall|i: int| #![trigger catalogs@[i]]
                0 <= i < embedded_catalogs().len() ==> {
                    &&& catalogs@[i].0 == embedded_catalogs()[i].0@
                    &&& call_ensures(
                        parse,
                        (embedded_catalogs()[i].1,),
                        Ok(catalogs@[i].1),
                    )
                }
        },
        Err(message) => exists|i: int, e: String|
            {
                &&& 0 <= i < embedded_catalogs().len()
                &&& #[trigger] call_ensures(parse, (embedded_catalogs()[i].1,), Err(e))
                &&& message@ == invalid_catalog(embedded_catalogs()[i].0@, e@)
                &&& forall|j: int|
                    0 <= j < i ==> parses(parse, #[trigger] embedded_catalogs()[j].1)
            },
    }
}

/// All built-in catalogs, parsed once at startup.
pub struct Catalogs {
    /// `Arc`, so that a catalog is handed out without copying its strings.
    langs: Vec<(&'static str, Arc<Lang>)>,
}

impl View for Catalogs {
    type V = Seq<(Seq<char>, Lang)>;

    closed spec fn view(&self) -> Seq<(Seq<char>, Lang)> {
        self.langs@.map_values(|e: (&'static str, Arc<Lang>)| (e.0@, *e.1))
    }
}

impl Catalogs {
    /// There is always a catalog to fall back to.
    #[verifier::type_invariant]
    spec fn has_fallback(self) -> bool {
        catalog_of(self@, FALLBACK@) is Some
    }

    /// Parses every built-in catalog with `parse`, which reads the JSON text of
    /// one. The first that does not parse is a startup error.
    pub fn load<P: Fn(&str) -> Result<Lang, String>>(parse: P) -> (r: Result<Catalogs, String>)
        requires
            forall|i: int|
                0 <= i < embedded_catalogs().len() ==> call_requires(
                    parse,
                    ((#[trigger] embedded_catalogs()[i]).1,),
                ),
        ensures
            loaded(parse, r),
    {
        let table = embedded();
        let mut langs: Vec<(&'static str, Arc<Lang>)> = Vec::new();
        for i in 0..table.len()
            invariant
                table@ == embedded_catalogs(),
                forall|j: int|
                    0 <= j < embedded_catalogs().len() ==> call_requires(
                        parse,
                        ((#[trigger] embedded_catalogs()[j]).1,),
                    ),
                langs.len() == i,
                forall|j: int| #![trigger langs@[j]]
                    0 <= j < i ==> {
                        &&& langs@[j].0 == embedded_catalogs()[j].0
                        &&& call_ensures(parse, (embedded_catalogs()[j].1,), Ok(*langs@[j].1))
                    },
        {
            let (code, json) = table[i];
            match parse(json) {
                Ok(lang) => {
                    langs.push((code, Arc::new(lang)));
                },
                Err(e) => {
                    assert forall|j: int| 0 <= j < i implies parses(
                        parse,
                        #[trigger] embedded_catalogs()[j].1,
                    ) by {
                        let _ = langs@[j];
                    }
                    return Err(
                        text::join4("built-in ", code, " language file is invalid: ", e.as_str()),
                    );
                },
            }
        }
        let ghost all = langs@.map_values(|e: (&'static str, Arc<Lang>)| (e.0@, *e.1));
        assert(all[0].0 == FALLBACK@);
        let catalogs = Catalogs { langs };
        assert(catalogs@ == all);
        Ok(catalogs)
    }

    /// Every built-in catalog with its language code, in declaration order.
    pub fn all(&self) -> (r: Vec<(&'static str, Arc<Lang>)>)
        ensures
            r.len() == self@.len(),
            forall|i: int|
                0 <= i < r.len() ==> (#[trigger] r[i]).0@ == self@[i].0 && *r[i].1 == self@[i].1,
    {
        let mut r: Vec<(&'static str, Arc<Lang>)> = Vec::new();
        for i in 0..self.langs.len()
            invariant
                r@ == self.langs@.take(i as int),
        {
            let (code, lang) = &self.langs[i];
            r.push((*code, Arc::clone(lang)));
        }
        r
    }

    /// The catalog declared for `code`, if there is one.
    fn find(&self, code: &str) -> (r: Option<Arc<Lang>>)
        ensures
            match r {
                Some(lang) => catalog_of(self@, code@) == Some(*lang),
                None => catalog_of(self@, code@) is None,
            },
    {
        assert(self@.skip(0) == self@);
        for i in 0..self.langs.len()
            invariant
                catalog_of(self@, code@) == catalog_of(self@.skip(i as int), code@),
        {
            assert(self@.skip(i as int).drop_first() == self@.skip(i + 1));
            let (declared, lang) = &self.langs[i];
            if text::same_text(declared, code) {
                return Some(Arc::clone(lang));
            }
        }
        None
    }

    /// Picks the catalog for a lower-case primary subtag; where there is none,
    /// falls back to [`FALLBACK`].
    pub fn resolve_primary(&self, primary: Option<&str>) -> (r: Arc<Lang>)
        ensures
            pick(
                self@,
                match primary {
                    Some(p) => Some(p@),
                    None => None,
                },
            ) == Some(*r),
    {
        proof {
            use_type_invariant(self);
        }
        if let Some(p) = primary {
            if let Some(lang) = self.find(p) {
                return lang;
            }
        }
        self.find(FALLBACK).unwrap()
    }

    /// Picks the catalog for an IETF language tag: the primary subtag
    /// (`zh-Hans-CN` -> `zh`) is matched against the built-in catalogs, in
    /// lower case; anything else falls back to [`FALLBACK`].
    pub fn resolve(&self, code: Option<&str>) -> (r: Arc<Lang>)
        ensures
            resolves(
                self@,
                match code {
                    Some(tag) => Some(tag@),
                    None => None,
                },
                *r,
            ),
    {
        match code {
            Some(tag) => {
                let n: usize = text::find_char(tag, '-');
                let primary = tag.substring_char(0, n).to_lowercase();
                self.resolve_primary(Some(primary.as_str()))
            },
            None => self.resolve_primary(None),
        }
    }
}

/// The primary subtag of a sender's language, where one is known.
pub open spec fn language_of(from: Option<Sender>) -> Option<Seq<char>> {
    match from {
        Some(Sender { language_code: Some(tag), .. }) => Some(primary_subtag(tag@)),
        _ => None,
    }
}

/// Whether `words` say `answer` to `from`: in the catalog of the sender's
/// language, or in the fallback one.
pub open spec fn said_to(
    langs: Seq<(Seq<char>, Lang)>,
    from: Option<Sender>,
    answer: Answer,
    words: String,
) -> bool {
    pick(langs, language_of(from)) matches Some(lang) && words == lang.words(answer)
}

/// The words for `answer` in the language of the sender `from`, if there is a
/// sender and the language is known; else in the fallback language.
pub fn words_for(catalogs: &Catalogs, from: &Option<Sender>, answer: Answer) -> (r: String)
    ensures
        said_to(catalogs@, *from, answer, r),
        *from matches Some(sender) ==> (sender.language_code matches Some(tag) ==> (text::all_ascii(
            text::before(tag@, '-'),
        ) ==> (pick(catalogs@, Some(text::ascii_lower_text(text::before(tag@, '-')))) matches Some(
            lang,
        ) && r == lang.words(answer)))),
{
    let lang = match from {
        Some(sender) => match &sender.language_code {
            Some(tag) => catalogs.resolve(Some(tag.as_str())),
            None => catalogs.resolve(None),
        },
        None => catalogs.resolve(None),
    };
    lang.text(answer).clone()
}

/// The message for a built-in catalog that does not parse.
pub open spec fn invalid_catalog(code: Seq<char>, e: Seq<char>) -> Seq<char> {
    "built-in "@ + code + " language file is invalid: "@ + e
}

/// Whether `parse` can make a catalog of `json`.
pub open spec fn parses<P: Fn(&str) -> Result<Lang, String>>(parse: P, json: &str) -> bool {
    exists|lang: Lang| call_ensures(parse, (json,), Ok(lang))
}

/// A catalog that is found is one of those declared for its code.
proof fn lemma_catalog_is_declared(langs: Seq<(Seq<char>, Lang)>, code: Seq<char>)
    ensures
        catalog_of(langs, code) matches Some(lang) ==> langs.contains((code, lang)),
    decreases langs.len(),
{
    if langs.len() > 0 && langs[0].0 != code {
        lemma_catalog_is_declared(langs.drop_first(), code);
        if let Some(lang) = catalog_of(langs, code) {
            let rest = langs.drop_first();
            let i = choose|i: int| 0 <= i < rest.len() && rest[i] == (code, lang);
            assert(langs[i + 1] == (code, lang));
        }
    } else if langs.len() > 0 {
        assert(langs[0] == (code, langs[0].1));
    }
}

/// Where the first declaration for a code stands, its catalog is found.
proof fn lemma_first_declaration_is_found(langs: Seq<(Seq<char>, Lang)>, i: int)
    requires
        0 <= i < langs.len(),
        forall|j: int| 0 <= j < i ==> (#[trigger] langs[j]).0 != langs[i].0,
    ensures
        catalog_of(langs, langs[i].0) == Some(langs[i].1),
    decreases i,
{
    if i > 0 {
        let rest = langs.drop_first();
        assert(langs[0].0 != langs[i].0);
        assert forall|j: int| 0 <= j < i - 1 implies (#[trigger] rest[j]).0 != rest[i - 1].0 by {
            assert(rest[j] == langs[j + 1]);
        }
        lemma_first_declaration_is_found(rest, i - 1);
    }
}

/// The bot speaks the language of a tag's primary subtag where there is a
/// catalog for it, and the fallback language everywhere else: for tags of
/// other languages as for senders without one. It never speaks anything that
/// was not declared.
pub proof fn unsupported_languages_fall_back(
    langs: Seq<(Seq<char>, Lang)>,
    primary: Seq<char>,
)
    ensures
        catalog_of(langs, primary) is None ==> pick(langs, Some(primary)) == pick(langs, None),
        pick(langs, None) == catalog_of(langs, FALLBACK@),
        pick(langs, Some(primary)) matches Some(lang) ==> langs.contains((primary, lang))
            || langs.contains((FALLBACK@, lang)),
{
    lemma_catalog_is_declared(langs, primary);
    lemma_catalog_is_declared(langs, FALLBACK@);
}

/// Only the primary subtag of a tag counts: what follows a `-` does not.
pub proof fn regions_do_not_matter(tag: Seq<char>, region: Seq<char>)
    ensures
        primary_subtag(tag + seq!['-'] + region) == primary_subtag(tag),
{
    text::before_ends_at_the_first(tag, '-', region);
}

/// The case of a tag's letters does not matter: tags that are equal but for the
/// case of ASCII letters pick the same catalog.
pub proof fn case_does_not_matter(
    langs: Seq<(Seq<char>, Lang)>,
    tag: Seq<char>,
    other: Seq<char>,
)
    requires
        text::same_but_for_ascii_case(tag, other),
    ensures
        folded_subtag(tag) == folded_subtag(other),
        pick(langs, Some(folded_subtag(tag))) == pick(langs, Some(folded_subtag(other))),
{
    text::before_keeps_case_equality(tag, other, '-');
}

/// Every built-in catalog is reachable: its code picks it, taken as a tag too.
pub proof fn each_language_gets_its_catalog(langs: Seq<(Seq<char>, Lang)>, i: int)
    requires
        langs.len() == embedded_catalogs().len(),
        forall|j: int|
            0 <= j < langs.len() ==> (#[trigger] langs[j]).0 == embedded_catalogs()[j].0@,
        0 <= i < langs.len(),
    ensures
        pick(langs, Some(embedded_catalogs()[i].0@)) == Some(langs[i].1),
        ({
            let primary = text::before(embedded_catalogs()[i].0@, '-');
            &&& text::all_ascii(primary)
            &&& pick(langs, Some(text::ascii_lower_text(primary))) == Some(langs[i].1)
        }),
{
    reveal_strlit("en");
    reveal_strlit("zh");
    assert("en"@[0] != "zh"@[0]);
    assert(langs[0].0 == "en"@ && langs[1].0 == "zh"@);
    lemma_first_declaration_is_found(langs, i);
    let code = embedded_catalogs()[i].0@;
    text::before_is(code, '-', 2);
    assert(code.take(2) =~= code);
    assert(text::ascii_lower_text(code) =~= code);
}

} // verus!
