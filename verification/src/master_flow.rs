//! The decisions the master bot takes between its requests to Telegram and
//! to the database: who may press which button, what a client's request
//! comes to, and the answers.

use vstd::prelude::*;

use dashmap::DashMap;

use crate::callbacks::MasterCallback;
use crate::commands::MasterCommand;
use crate::conversations::{flows_get, flows_insert, flows_new, flows_of, flows_remove, no_flows};
use crate::locales::{parse_locale, raw_text, L10n, Locale};
use crate::owner::{ban_client_reply, set_plan_reply};
use crate::text::{chars_of, int_decimal, push_str, str_eq, string_of, trim, trim_chars};

verus! {

/// Whether button request `cb` from `user_id` is acted on: the owner's
/// requests only for the service owner `owner_id`.
pub fn callback_allowed(cb: MasterCallback, user_id: i64, owner_id: i64) -> (r: bool)
    ensures
        r == (!cb.spec_is_owner_only() || user_id == owner_id),
{
    !cb.is_owner_only() || user_id == owner_id
}

/// The notice after a client asked to disconnect a bot: done when the bot
/// is the client's, refused otherwise.
pub fn unbind_notice(owns: bool) -> (res: &'static str)
    ensures
        owns ==> res@ == "✅ Бот отвязан и остановлен."@,
        !owns ==> res@ == "❌ Ошибка: это не ваш бот."@,
{
    if owns {
        "✅ Бот отвязан и остановлен."
    } else {
        "❌ Ошибка: это не ваш бот."
    }
}

/// An invoice for the paid plan, paid in Telegram Stars.
#[derive(Debug, Clone)]
pub struct Invoice {
    pub title: String,
    pub description: String,
    pub payload: String,
    pub currency: String,
    pub price_label: String,
    pub amount: u32,
}

/// The invoice of the one-month paid plan: 100 Stars, paid for with
/// payload "pro_sub_1m".
pub open spec fn is_pro_invoice(i: Invoice) -> bool {
    &&& i.title@ == "Pro подписка (30 дней)"@
    &&& i.description@ == "Снимает ограничение на 1 модератора и убирает вотермарку из постов на 30 дней."@
    &&& i.payload@ == "pro_sub_1m"@
    &&& i.currency@ == "XTR"@
    &&& i.price_label@ == "Pro Plan"@
    &&& i.amount == 100
}

/// The invoice of the one-month paid plan.
pub fn pro_invoice() -> (res: Invoice)
    ensures
        is_pro_invoice(res),
{
    Invoice {
        title: String::from_str("Pro подписка (30 дней)"),
        description: String::from_str(
            "Снимает ограничение на 1 модератора и убирает вотермарку из постов на 30 дней.",
        ),
        payload: String::from_str("pro_sub_1m"),
        currency: String::from_str("XTR"),
        price_label: String::from_str("Pro Plan"),
        amount: 100,
    }
}

/// What a client asking to buy the paid plan gets: a notice when the plan
/// is already active, else the invoice.
pub fn buy_pro(is_pro: bool) -> (res: Result<Invoice, &'static str>)
    ensures
        is_pro ==> res is Err && res->Err_0@ == "✅ У вас уже активна Pro-подписка!"@,
        !is_pro ==> res is Ok && is_pro_invoice(res->Ok_0),
{
    if is_pro {
        Err("✅ У вас уже активна Pro-подписка!")
    } else {
        Ok(pro_invoice())
    }
}

/// The owner's notice after pressing "ban" on a client that was banned or
/// not: unbanned, or banned.
pub fn ban_toggle_notice<'a>(l10n: &'a L10n, lang: Locale, was_banned: bool) -> (res: &'a str)
    ensures
        res@ == raw_text(
            l10n@,
            lang,
            if was_banned {
                "client_unbanned_msg"@
            } else {
                "client_banned_msg"@
            },
        ),
{
    if was_banned {
        l10n.client_unbanned_msg(lang)
    } else {
        l10n.client_banned_msg(lang)
    }
}

/// The owner's notice after switching a client's plan to `new_plan`.
pub fn plan_changed_notice<'a>(l10n: &'a L10n, lang: Locale, new_plan: &str) -> (res: &'a str)
    ensures
        res@ == raw_text(
            l10n@,
            lang,
            if new_plan@ == "pro"@ {
                "plan_changed_pro_msg"@
            } else {
                "plan_changed_free_msg"@
            },
        ),
{
    if str_eq(new_plan, "pro") {
        l10n.plan_changed_pro_msg(lang)
    } else {
        l10n.plan_changed_free_msg(lang)
    }
}

/// The owner's answer to an owner command, none for the others.
pub fn owner_command_reply(cmd: &MasterCommand) -> (res: Option<String>)
    ensures
        match cmd {
            MasterCommand::SetPlan(t, p) => res is Some && res->0@ == "✅ План для "@ + int_decimal(
                *t as int,
            ) + " изменен на "@ + p@ + "."@,
            MasterCommand::SetPlanUsage => res is Some && res->0@
                == "Использование: /setplan <user_id> <free|pro>"@,
            MasterCommand::BanClient(t) => res is Some && res->0@ == "🚫 Клиент "@ + int_decimal(
                *t as int,
            ) + " забанен. Боты остановлены."@,
            _ => res is None,
        },
{
    match cmd {
        MasterCommand::SetPlan(t, p) => Some(set_plan_reply(*t, p.as_str())),
        MasterCommand::SetPlanUsage => Some(String::from_str("Использование: /setplan <user_id> <free|pro>")),
        MasterCommand::BanClient(t) => Some(ban_client_reply(*t)),
        _ => None,
    }
}

/// What a client was asked for in a conversation with the master bot.
#[derive(Debug, Clone, Copy, PartialEq, Eq, Structural)]
pub enum FlowState {
    /// The token of the client's bot.
    AwaitingToken,
    /// Nothing to read yet: the bot is being checked.
    AwaitingBotCheck,
}

/// The token a client sent while asked for one: the message trimmed. None
/// when the client was not asked for a token.
pub fn token_from(flow: Option<FlowState>, text: &str) -> (res: Option<String>)
    ensures
        flow == Some(FlowState::AwaitingToken) ==> res is Some && res->0@ == trim(text@),
        flow != Some(FlowState::AwaitingToken) ==> res is None,
{
    match flow {
        Some(FlowState::AwaitingToken) => Some(string_of(trim_chars(&chars_of(text)).as_slice())),
        _ => None,
    }
}

/// Whose a bot token is, when a client connects it.
#[derive(Debug, Clone, Copy, PartialEq, Eq, Structural)]
pub enum TokenClaim {
    /// No bot has it yet: a new bot is stored.
    New,
    /// The client's own bot: it is connected afresh.
    Renew(i32),
    /// Another client's bot: refused.
    TakenByOther,
}

/// The claim of client `tg_user_id` on a token already stored for bot
/// `existing.0` of client `existing.1`, if any.
pub fn token_claim(existing: Option<(i32, Option<i64>)>, tg_user_id: i64) -> (res: TokenClaim)
    ensures
        match existing {
            None => res == TokenClaim::New,
            Some((id, owner)) => if owner == Some(tg_user_id) {
                res == TokenClaim::Renew(id)
            } else {
                res == TokenClaim::TakenByOther
            },
        },
{
    match existing {
        None => TokenClaim::New,
        Some((id, owner)) => match owner {
            Some(o) => if o == tg_user_id {
                TokenClaim::Renew(id)
            } else {
                TokenClaim::TakenByOther
            },
            None => TokenClaim::TakenByOther,
        },
    }
}

/// The language stored as `code`, or `default` when there is none or it
/// is not a known code.
pub fn stored_locale(code: Option<&str>, default: Locale) -> (res: Locale)
    ensures
        res == match code {
            Some(c) => match parse_locale(c@) {
                Some(l) => l,
                None => default,
            },
            None => default,
        },
{
    match code {
        Some(c) => match Locale::parse(c) {
            Some(l) => l,
            None => default,
        },
        None => default,
    }
}

/// The master bot's fixed answers.
#[derive(Debug, Clone, Copy, PartialEq, Eq, Structural)]
pub enum Notice {
    /// Asks for the token of the bot to connect.
    TokenPrompt,
    /// The token was refused by Telegram.
    InvalidToken,
    /// A bot was disconnected.
    Unbound,
    /// The paid plan is active.
    ProActive,
    /// The paid plan was bought.
    ProPurchased,
}

/// The text of a fixed answer.
pub open spec fn notice_text(n: Notice) -> Seq<char> {
    match n {
        Notice::TokenPrompt => "Отправьте токен вашего бота, полученный от @BotFather."@,
        Notice::InvalidToken => "❌ Неверный токен. Попробуйте снова."@,
        Notice::Unbound => "Бот успешно отвязан. Вы можете привязать его снова в любой момент."@,
        Notice::ProActive => "✅ Ваша Pro-подписка активна! Вотермарки отключены, лимиты сняты."@,
        Notice::ProPurchased =>
            "✅ Вы успешно приобрели Pro-подписку на 30 дней!\n\nОграничения на модераторов сняты, вотермарки отключены."@,
    }
}

/// The text of fixed answer `n`.
pub fn notice(n: Notice) -> (res: &'static str)
    ensures
        res@ == notice_text(n),
{
    match n {
        Notice::TokenPrompt => "Отправьте токен вашего бота, полученный от @BotFather.",
        Notice::InvalidToken => "❌ Неверный токен. Попробуйте снова.",
        Notice::Unbound => "Бот успешно отвязан. Вы можете привязать его снова в любой момент.",
        Notice::ProActive => "✅ Ваша Pro-подписка активна! Вотермарки отключены, лимиты сняты.",
        Notice::ProPurchased =>
            "✅ Вы успешно приобрели Pro-подписку на 30 дней!\n\nОграничения на модераторов сняты, вотермарки отключены.",
    }
}

/// The answer when a connected bot could not be stored, with the error.
pub fn save_failed_reply(error: &str) -> (res: String)
    ensures
        res@ == "❌ Ошибка сохранения: "@ + error@,
{
    let mut v = chars_of("❌ Ошибка сохранения: ");
    push_str(&mut v, error);
    string_of(v.as_slice())
}

/// The clients of the master bot and what each was asked for.
pub struct Onboarding {
    flows: DashMap<i64, FlowState>,
}

impl View for Onboarding {
    type V = Map<i64, FlowState>;

    closed spec fn view(&self) -> Map<i64, FlowState> {
        flows_of(self.flows)
    }
}

impl Onboarding {
    /// No client was asked for anything.
    pub fn new() -> (res: Onboarding)
        ensures
            res@ == no_flows(),
    {
        Onboarding { flows: flows_new() }
    }

    /// Client `user` is asked for the token of a bot to connect.
    pub fn ask_token(&mut self, user: i64)
        ensures
            final(self)@ == old(self)@.insert(user, FlowState::AwaitingToken),
    {
        flows_insert(&mut self.flows, user, FlowState::AwaitingToken);
    }

    /// The token in client `user`'s message `text`, when the client was
    /// asked for one: the message trimmed.
    pub fn token_in(&self, user: i64, text: &str) -> (res: Option<String>)
        ensures
            self@.get(user) == Some(FlowState::AwaitingToken) ==> res is Some && res->0@ == trim(text@),
            self@.get(user) != Some(FlowState::AwaitingToken) ==> res is None,
    {
        token_from(flows_get(&self.flows, user), text)
    }

    /// Client `user`'s bot is connected: the client is asked for nothing.
    pub fn finish(&mut self, user: i64)
        ensures
            final(self)@ == old(self)@.remove(user),
    {
        flows_remove(&mut self.flows, user);
    }
}

} // verus!
