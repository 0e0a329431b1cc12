//! The decisions a worker bot takes between its requests to Telegram and to
//! the database: who may do what, where a message goes, and which answer
//! it gets.

use vstd::prelude::*;

use crate::callbacks::WorkerCallback;
use crate::commands::{parse_post_link, post_link_id};
use crate::conversations::InputKind;
use crate::keyboard::{callback_button, cb, keyboard_view, row_view, Button, ButtonView};
use crate::locales::{raw_text, t_text, L10n, Locale, TranslationsView};
use crate::models::Admin;
use crate::text::{
    chars_of, find_chars, find_from, has_prefix, int_decimal, push_i64, push_str, starts_with_str, str_eq,
    string_of, trim, trim_chars,
};

verus! {

/// The owner and the moderators of a bot may moderate it.
pub open spec fn authorized(user_id: i64, owner_id: i64, is_admin: bool) -> bool {
    user_id == owner_id || is_admin
}

/// Whether `user_id` may moderate a bot owned by `owner_id`, given whether
/// the user is one of its moderators.
pub fn is_authorized(user_id: i64, owner_id: i64, is_admin: bool) -> (r: bool)
    ensures
        r == authorized(user_id, owner_id, is_admin),
{
    user_id == owner_id || is_admin
}

/// Whether a user may use a moderator's command or button.
#[derive(Debug, Clone, Copy, PartialEq, Eq, Structural)]
pub enum Access {
    /// A frozen moderator: refused with a notice.
    Frozen,
    /// Neither owner nor moderator.
    Denied,
    Allowed,
}

/// A frozen moderator is refused first, then anyone not authorized.
pub open spec fn access(frozen: Option<bool>, authorized: bool) -> Access {
    if frozen == Some(true) {
        Access::Frozen
    } else if !authorized {
        Access::Denied
    } else {
        Access::Allowed
    }
}

/// The access of a user whose moderator record says `frozen` (none when
/// the user is no moderator) and who is `authorized` or not.
pub fn moderator_access(frozen: Option<bool>, authorized: bool) -> (res: Access)
    ensures
        res == access(frozen, authorized),
{
    match frozen {
        Some(true) => Access::Frozen,
        _ => if !authorized {
            Access::Denied
        } else {
            Access::Allowed
        },
    }
}

/// The key of the message a refused access is answered with.
pub open spec fn refusal_key(a: Access) -> Option<Seq<char>> {
    match a {
        Access::Frozen => Some("mod_frozen_action"@),
        Access::Denied => Some("no_access"@),
        Access::Allowed => None,
    }
}

/// The answer to a refused access, none when it is allowed.
pub fn refusal<'a>(l10n: &'a L10n, lang: Locale, a: Access) -> (res: Option<&'a str>)
    ensures
        match refusal_key(a) {
            Some(k) => res is Some && res->0@ == raw_text(l10n@, lang, k),
            None => res is None,
        },
{
    match a {
        Access::Frozen => Some(l10n.mod_frozen_action(lang)),
        Access::Denied => Some(l10n.no_access(lang)),
        Access::Allowed => None,
    }
}

/// What is done with a button press before acting on it.
#[derive(Debug, Clone, Copy, PartialEq, Eq, Structural)]
pub enum CallbackGate {
    /// A language button pressed by someone other than the owner.
    Ignore,
    /// The owner chose the bot's language during setup.
    ChooseLanguage(Locale),
    /// A frozen moderator: refused with a notice.
    Frozen,
    /// Neither owner nor moderator: refused.
    Denied,
    /// A moderator asked to manage moderators: refused.
    OwnerOnly,
    /// Acted on.
    Proceed,
}

/// A language button counts only for the owner; other buttons are refused
/// to frozen moderators, then to strangers, then moderator management is
/// refused to anyone but the owner.
pub open spec fn callback_gate(
    cb: WorkerCallback,
    user_id: i64,
    owner_id: i64,
    frozen: Option<bool>,
    is_admin: bool,
) -> CallbackGate {
    match cb {
        WorkerCallback::SetupLanguage(l) => if user_id == owner_id {
            CallbackGate::ChooseLanguage(l)
        } else {
            CallbackGate::Ignore
        },
        _ => match access(frozen, authorized(user_id, owner_id, is_admin)) {
            Access::Frozen => CallbackGate::Frozen,
            Access::Denied => CallbackGate::Denied,
            Access::Allowed => if cb.spec_is_admin_management() && user_id != owner_id {
                CallbackGate::OwnerOnly
            } else {
                CallbackGate::Proceed
            },
        },
    }
}

/// What is done with a press of button `cb` by `user_id` on a bot of owner
/// `owner_id`; `frozen` and `is_admin` describe the presser's moderator
/// record and are not read for a language button.
pub fn gate_callback(
    cb: &WorkerCallback,
    user_id: i64,
    owner_id: i64,
    frozen: Option<bool>,
    is_admin: bool,
) -> (res: CallbackGate)
    ensures
        res == callback_gate(*cb, user_id, owner_id, frozen, is_admin),
{
    if let WorkerCallback::SetupLanguage(l) = cb {
        return if user_id == owner_id {
            CallbackGate::ChooseLanguage(*l)
        } else {
            CallbackGate::Ignore
        };
    }
    match moderator_access(frozen, is_authorized(user_id, owner_id, is_admin)) {
        Access::Frozen => CallbackGate::Frozen,
        Access::Denied => CallbackGate::Denied,
        Access::Allowed => if cb.is_admin_management() && user_id != owner_id {
            CallbackGate::OwnerOnly
        } else {
            CallbackGate::Proceed
        },
    }
}

/// A moderator other than the owner can be frozen or removed.
pub fn may_change_admin(target_id: i64, owner_id: i64) -> (r: bool)
    ensures
        r == (target_id > 0 && target_id != owner_id),
{
    target_id > 0 && target_id != owner_id
}

/// The index of the first moderator with user id `user_id`.
pub open spec fn admin_index(admins: Seq<Admin>, user_id: i64) -> Option<int>
    decreases admins.len(),
{
    if admins.len() == 0 {
        None
    } else if admins[0].user_id == user_id {
        Some(0)
    } else {
        match admin_index(admins.drop_first(), user_id) {
            Some(i) => Some(i + 1),
            None => None,
        }
    }
}

/// Where moderator `user_id` is in `admins`, if there.
pub fn find_admin(admins: &[Admin], user_id: i64) -> (res: Option<usize>)
    ensures
        match res {
            Some(i) => admin_index(admins@, user_id) == Some(i as int) && i < admins.len(),
            None => admin_index(admins@, user_id) is None,
        },
{
    let mut i: usize = 0;
    assert(admins@.skip(0) =~= admins@);
    while i < admins.len()
        invariant
            i <= admins.len(),
            admin_index(admins@, user_id) == match admin_index(admins@.skip(i as int), user_id) {
                Some(k) => Some(k + i),
                None => None,
            },
        decreases admins.len() - i,
    {
        assert(admins@.skip(i as int).drop_first() =~= admins@.skip(i + 1));
        if admins[i].user_id == user_id {
            return Some(i);
        }
        i = i + 1;
    }
    assert(admins@.skip(i as int).len() == 0);
    None
}

/// The key of the answer to a plain /start: banned users are told so
/// first; then the owner's panel, a moderator's panel (frozen or not), or
/// the welcome.
pub open spec fn start_reply_key(
    banned: bool,
    user_id: i64,
    owner_id: i64,
    is_admin: bool,
    frozen: Option<bool>,
) -> Seq<char> {
    if banned {
        "user_banned"@
    } else if user_id == owner_id {
        "owner_panel"@
    } else if is_admin {
        if frozen == Some(true) {
            "mod_frozen_panel"@
        } else {
            "mod_panel"@
        }
    } else {
        "welcome"@
    }
}

/// The answer to a plain /start from `user_id`.
pub fn start_reply<'a>(
    l10n: &'a L10n,
    lang: Locale,
    banned: bool,
    user_id: i64,
    owner_id: i64,
    is_admin: bool,
    frozen: Option<bool>,
) -> (res: &'a str)
    ensures
        res@ == raw_text(l10n@, lang, start_reply_key(banned, user_id, owner_id, is_admin, frozen)),
{
    if banned {
        l10n.user_banned(lang)
    } else if user_id == owner_id {
        l10n.owner_panel(lang)
    } else if is_admin {
        match frozen {
            Some(true) => l10n.mod_frozen_panel(lang),
            _ => l10n.mod_panel(lang),
        }
    } else {
        l10n.welcome(lang)
    }
}

/// Where a message to a worker bot goes.
#[derive(Debug, Clone, Copy, PartialEq, Eq, Structural)]
pub enum Route {
    /// Dropped: the bot is not set up and the sender is not its owner.
    Ignore,
    /// The owner, while the bot is not set up.
    Setup,
    /// A command.
    Command,
    /// The answer to a channel post the sender chose.
    ReplyContent,
    /// A moderator's reason for a rejection.
    Reason,
    /// A moderator's reason for a ban.
    BanReason,
    /// A new proposal.
    Proposal,
}

/// Before setup only the owner is heard; then commands come first, then
/// whatever the sender was asked for (`pending`), then proposals.
pub open spec fn route(
    setup_complete: bool,
    user_id: i64,
    owner_id: i64,
    text: Option<Seq<char>>,
    pending: Option<InputKind>,
) -> Route {
    if !setup_complete {
        if user_id != owner_id {
            Route::Ignore
        } else {
            Route::Setup
        }
    } else if text matches Some(t) && has_prefix(t, "/"@) {
        Route::Command
    } else {
        match pending {
            Some(InputKind::Answer) => Route::ReplyContent,
            Some(InputKind::Reason) => Route::Reason,
            Some(InputKind::BanReason) => Route::BanReason,
            None => Route::Proposal,
        }
    }
}

/// Where a message from `user_id` with text `text` goes, the sender being
/// asked for `pending`, if anything.
pub fn route_message(
    setup_complete: bool,
    user_id: i64,
    owner_id: i64,
    text: Option<&str>,
    pending: Option<InputKind>,
) -> (res: Route)
    ensures
        res == route(
            setup_complete,
            user_id,
            owner_id,
            match text {
                Some(t) => Some(t@),
                None => None,
            },
            pending,
        ),
{
    if !setup_complete {
        return if user_id != owner_id {
            Route::Ignore
        } else {
            Route::Setup
        };
    }
    if let Some(t) = text {
        if starts_with_str(&chars_of(t), "/") {
            return Route::Command;
        }
    }
    match pending {
        Some(InputKind::Answer) => Route::ReplyContent,
        Some(InputKind::Reason) => Route::Reason,
        Some(InputKind::BanReason) => Route::BanReason,
        None => Route::Proposal,
    }
}

/// The answers when a user joins as moderator: to the user, and to the
/// owner, each saying whether the new moderator is frozen.
pub fn admin_joined_messages<'a>(l10n: &'a L10n, lang: Locale, frozen: bool, user_name: &str) -> (res: (
    &'a str,
    String,
))
    ensures
        frozen ==> res.0@ == raw_text(l10n@, lang, "admin_added_frozen_notification"@) && res.1@
            == t_text(l10n@, lang, "admin_added_frozen"@, seq![("name"@, user_name@)]),
        !frozen ==> res.0@ == raw_text(l10n@, lang, "admin_added_notification"@) && res.1@ == t_text(
            l10n@,
            lang,
            "admin_added"@,
            seq![("name"@, user_name@)],
        ),
{
    if frozen {
        (l10n.admin_added_frozen_notification(lang), l10n.admin_added_frozen(lang, user_name))
    } else {
        (l10n.admin_added_notification(lang), l10n.admin_added(lang, user_name))
    }
}

/// The answer to an accepted proposal: an answer to a post, or a new
/// proposal.
pub fn accepted_reply<'a>(l10n: &'a L10n, lang: Locale, is_answer: bool) -> (res: &'a str)
    ensures
        res@ == raw_text(
            l10n@,
            lang,
            if is_answer {
                "reply_accepted"@
            } else {
                "proposal_accepted"@
            },
        ),
{
    if is_answer {
        l10n.reply_accepted(lang)
    } else {
        l10n.proposal_accepted(lang)
    }
}

/// A moderator's reason: the text of the message, or a stock phrase when
/// it has none.
pub fn reason_or_default(text: Option<&str>) -> (res: &str)
    ensures
        res@ == match text {
            Some(t) => t@,
            None => "No reason provided"@,
        },
{
    match text {
        Some(t) => t,
        None => "No reason provided",
    }
}

/// The two language buttons of the setup.
pub open spec fn language_keyboard_view() -> Seq<Seq<ButtonView>> {
    seq![seq![cb("🇷🇺 Русский"@, "setup_lang_ru"@), cb("🇬🇧 English"@, "setup_lang_en"@)]]
}

/// The buttons choosing the bot's language.
pub fn language_keyboard() -> (res: Vec<Vec<Button>>)
    ensures
        keyboard_view(res@) == language_keyboard_view(),
{
    let mut row: Vec<Button> = Vec::new();
    row.push(callback_button("🇷🇺 Русский", String::from_str("setup_lang_ru")));
    row.push(callback_button("🇬🇧 English", String::from_str("setup_lang_en")));
    let mut keyboard: Vec<Vec<Button>> = Vec::new();
    keyboard.push(row);
    assert(row_view(keyboard@[0]@) =~= seq![
        cb("🇷🇺 Русский"@, "setup_lang_ru"@),
        cb("🇬🇧 English"@, "setup_lang_en"@),
    ]);
    assert(keyboard_view(keyboard@) =~= language_keyboard_view());
    keyboard
}

/// How to connect the channel: the command with the setup code to post in
/// it.
pub open spec fn connect_instructions_text(tr: TranslationsView, lang: Locale, code: Seq<char>) -> Seq<char> {
    raw_text(tr, lang, "setup_enter_channel"@) + "\n\nОтправьте в ваш канал команду:\n<code>/connect "@
        + code + "</code>"@
}

/// The instructions to connect the channel with setup code `code`.
pub fn connect_instructions(l10n: &L10n, lang: Locale, code: &str) -> (res: String)
    ensures
        res@ == connect_instructions_text(l10n@, lang, code@),
{
    let mut v: Vec<char> = chars_of(l10n.setup_enter_channel(lang));
    push_str(&mut v, "\n\nОтправьте в ваш канал команду:\n<code>/connect ");
    push_str(&mut v, code);
    push_str(&mut v, "</code>");
    string_of(v.as_slice())
}

/// The owner's message before setup is complete: /start greets and asks
/// for the language; otherwise the connect instructions when a code was
/// given out, else the question of the language again.
pub open spec fn setup_reply_view(
    tr: TranslationsView,
    lang: Locale,
    text: Seq<char>,
    code: Option<Seq<char>>,
) -> (Seq<char>, Seq<Seq<ButtonView>>) {
    if has_prefix(text, "/start"@) {
        (
            "👋 Давайте настроим вашего бота!\n\nPlease select your language:\n\nПожалуйста, выберите язык:"@,
            language_keyboard_view(),
        )
    } else {
        match code {
            Some(c) => (connect_instructions_text(tr, lang, c), Seq::empty()),
            None => (
                "👋 Please select your language:\n\nПожалуйста, выберите язык:"@,
                language_keyboard_view(),
            ),
        }
    }
}

/// The answer to the owner's message `text` while the bot is not set up,
/// the setup code being `code` if one was given out.
pub fn setup_reply(l10n: &L10n, lang: Locale, text: &str, code: Option<&str>) -> (res: (
    String,
    Vec<Vec<Button>>,
))
    ensures
        (res.0@, keyboard_view(res.1@)) == setup_reply_view(
            l10n@,
            lang,
            text@,
            match code {
                Some(c) => Some(c@),
                None => None,
            },
        ),
{
    if starts_with_str(&chars_of(text), "/start") {
        return (
            String::from_str(
                "👋 Давайте настроим вашего бота!\n\nPlease select your language:\n\nПожалуйста, выберите язык:",
            ),
            language_keyboard(),
        );
    }
    match code {
        Some(c) => {
            let k: Vec<Vec<Button>> = Vec::new();
            assert(keyboard_view(k@) =~= Seq::empty());
            (connect_instructions(l10n, lang, c), k)
        },
        None => (
            String::from_str("👋 Please select your language:\n\nПожалуйста, выберите язык:"),
            language_keyboard(),
        ),
    }
}

/// The name of a connected channel as told to the owner: its title, or
/// "Канал" without one.
pub fn channel_name(title: Option<&str>) -> (res: &str)
    ensures
        res@ == match title {
            Some(t) => t@,
            None => "Канал"@,
        },
{
    match title {
        Some(t) => t,
        None => "Канал",
    }
}

/// What `/addreplies <link>` is about.
#[derive(Debug, Clone, Copy, PartialEq, Eq, Structural)]
pub enum AddRepliesTarget {
    /// No link: the usage is shown.
    Usage,
    /// A link that names no positive post id.
    InvalidLink,
    /// The channel post with this id.
    Post(i32),
}

/// The post a trimmed `/addreplies` argument links to.
pub open spec fn add_replies_target_of(args: Seq<char>) -> AddRepliesTarget {
    let link = trim(args);
    if link.len() == 0 {
        AddRepliesTarget::Usage
    } else {
        match post_link_id(link) {
            Some(id) => if id > 0 {
                AddRepliesTarget::Post(id)
            } else {
                AddRepliesTarget::InvalidLink
            },
            None => AddRepliesTarget::InvalidLink,
        }
    }
}

/// Reads the argument of `/addreplies`.
pub fn add_replies_target(args: &str) -> (res: AddRepliesTarget)
    ensures
        res == add_replies_target_of(args@),
{
    let link = string_of(trim_chars(&chars_of(args)).as_slice());
    if link.as_str().is_empty() {
        return AddRepliesTarget::Usage;
    }
    match parse_post_link(link.as_str()) {
        Some(id) => if id > 0 {
            AddRepliesTarget::Post(id)
        } else {
            AddRepliesTarget::InvalidLink
        },
        None => AddRepliesTarget::InvalidLink,
    }
}

/// Whether `p` occurs in `s`.
pub open spec fn contains_text(s: Seq<char>, p: Seq<char>) -> bool {
    find_from(s, p, 0) is Some
}

/// The link under a channel post that opens the bot to answer it.
pub open spec fn reply_link(tr: TranslationsView, lang: Locale, bot_username: Seq<char>, post_id: i32) -> Seq<
    char,
> {
    "\n<a href=\"https://t.me/"@ + bot_username + "?start=reply_"@ + int_decimal(post_id as int) + "\">"@
        + raw_text(tr, lang, "reply_link_text"@) + "</a>"@
}

/// The text of post `post_id` with the answer link added, unless it has
/// one already.
pub fn with_reply_link(
    l10n: &L10n,
    lang: Locale,
    current: &str,
    bot_username: &str,
    post_id: i32,
) -> (res: Option<String>)
    ensures
        contains_text(current@, "start=reply_"@) ==> res is None,
        !contains_text(current@, "start=reply_"@) ==> res is Some && res->0@ == current@ + reply_link(
            l10n@,
            lang,
            bot_username@,
            post_id,
        ),
{
    let text = chars_of(current);
    let pat = chars_of("start=reply_");
    if find_chars(&text, &pat, 0).is_some() {
        return None;
    }
    let mut v = text;
    push_str(&mut v, "\n<a href=\"https://t.me/");
    push_str(&mut v, bot_username);
    push_str(&mut v, "?start=reply_");
    push_i64(&mut v, post_id as i64);
    push_str(&mut v, "\">");
    push_str(&mut v, l10n.reply_link_text(lang));
    push_str(&mut v, "</a>");
    Some(string_of(v.as_slice()))
}

/// The ban id of `/pardon <ban id>`, none when it is blank.
pub fn pardon_arg(args: &str) -> (res: Option<String>)
    ensures
        trim(args@).len() == 0 ==> res is None,
        trim(args@).len() > 0 ==> res is Some && res->0@ == trim(args@),
{
    let t = trim_chars(&chars_of(args));
    if t.len() == 0 {
        None
    } else {
        Some(string_of(t.as_slice()))
    }
}

/// "user_" and the id: how a user without a name is called.
pub open spec fn fallback_name(user_id: i64) -> Seq<char> {
    "user_"@ + int_decimal(user_id as int)
}

fn fallback_name_of(user_id: i64) -> (res: String)
    ensures
        res@ == fallback_name(user_id),
{
    let mut v: Vec<char> = Vec::new();
    push_str(&mut v, "user_");
    push_i64(&mut v, user_id);
    string_of(v.as_slice())
}

/// How a user is named to the owner: by username, else by first name,
/// else as "user_<id>" (also when the user could not be looked up).
pub fn display_name(username: Option<&str>, first_name: Option<&str>, user_id: i64) -> (res: String)
    ensures
        res@ == match username {
            Some(u) => u@,
            None => match first_name {
                Some(f) => f@,
                None => fallback_name(user_id),
            },
        },
{
    match username {
        Some(u) => String::from_str(u),
        None => match first_name {
            Some(f) => String::from_str(f),
            None => fallback_name_of(user_id),
        },
    }
}

/// How the author of an action is named: "Owner" for the owner, else the
/// name the moderator was saved under, else "user_<id>".
pub fn admin_name(admins: &[Admin], user_id: i64, owner_id: i64) -> (res: String)
    ensures
        res@ == if user_id == owner_id {
            "Owner"@
        } else {
            match admin_index(admins@, user_id) {
                Some(i) => admins@[i].user_name@,
                None => fallback_name(user_id),
            }
        },
{
    if user_id == owner_id {
        return String::from_str("Owner");
    }
    match find_admin(admins, user_id) {
        Some(i) => admins[i].user_name.clone(),
        None => fallback_name_of(user_id),
    }
}

/// What a message carries, as far as a proposal cares.
pub struct ContentKinds {
    pub text: bool,
    pub photo: bool,
    pub document: bool,
    pub video: bool,
    pub video_note: bool,
    pub audio: bool,
    pub voice: bool,
    pub sticker: bool,
}

/// A message can be a proposal when it has text or one of the supported
/// media.
pub fn has_content(k: &ContentKinds) -> (r: bool)
    ensures
        r == (k.text || k.photo || k.document || k.video || k.video_note || k.audio || k.voice
            || k.sticker),
{
    k.text || k.photo || k.document || k.video || k.video_note || k.audio || k.voice || k.sticker
}

/// How publishing an approved proposal to the channel went.
#[derive(Debug, Clone, Copy, PartialEq, Eq, Structural)]
pub enum PublishOutcome {
    /// Published as channel post `0`.
    Posted(i32),
    /// Published, but Telegram gave back no post id.
    PostedWithoutId,
    Failed,
}

/// The key of the moderator's notice after publishing.
pub open spec fn publish_notice_key(o: PublishOutcome) -> Seq<char> {
    match o {
        PublishOutcome::Posted(_) => "published"@,
        PublishOutcome::PostedWithoutId => "published_no_id"@,
        PublishOutcome::Failed => "failed_publish"@,
    }
}

/// The moderator's notice after publishing.
pub fn publish_notice<'a>(l10n: &'a L10n, lang: Locale, o: PublishOutcome) -> (res: &'a str)
    ensures
        res@ == raw_text(l10n@, lang, publish_notice_key(o)),
{
    match o {
        PublishOutcome::Posted(_) => l10n.published(lang),
        PublishOutcome::PostedWithoutId => l10n.published_no_id(lang),
        PublishOutcome::Failed => l10n.failed_publish(lang),
    }
}

/// A button press is acted on only for the owner or a moderator who is not
/// frozen, moderators are managed only by the owner, and only the owner
/// chooses the language.
pub proof fn law_gate_guards(
    cb: WorkerCallback,
    user_id: i64,
    owner_id: i64,
    frozen: Option<bool>,
    is_admin: bool,
)
    ensures
        callback_gate(cb, user_id, owner_id, frozen, is_admin) == CallbackGate::Proceed ==> frozen != Some(
            true,
        ) && authorized(user_id, owner_id, is_admin) && (cb.spec_is_admin_management() ==> user_id
            == owner_id),
        callback_gate(cb, user_id, owner_id, frozen, is_admin) is ChooseLanguage ==> user_id == owner_id,
{
}

} // verus!
