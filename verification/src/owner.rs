//! What the master bot shows: the service owner's client and bot lists and
//! cards, and a client's own menu of bots.

use vstd::prelude::*;

use crate::dates::{date_text, format_date};
use crate::keyboard::{
    callback_button, cb, keyboard_view, row_view, url_button, Button, ButtonActionView, ButtonView,
};
use crate::locales::{bot_info_args, client_details_text, raw_text, t_text, L10n, Locale, TranslationsView};
use crate::models::{BotConfig, Client};
use crate::pagination::{page_window, window_of, PageWindow, BOTS_PER_PAGE, CLIENTS_PER_PAGE};
use crate::plans::{is_pro, spec_is_pro};
use crate::text::{int_decimal, nat_decimal, push_i64, push_str, push_u64, str_eq, string_of};

verus! {

/// The label of a client in the owner's list: banned or not, plan, and id.
pub open spec fn client_label(c: Client, now: i64) -> Seq<char> {
    (if c.banned {
        "🚫"@
    } else {
        "✅"@
    }) + " "@ + (if spec_is_pro(c.pro_expires_at, now) {
        "Pro"@
    } else {
        "Free"@
    }) + " (ID: "@ + int_decimal(c.tg_user_id as int) + ") - "@ + int_decimal(c.tg_user_id as int)
}

/// One button per client, opening its card.
pub open spec fn client_rows(cs: Seq<Client>, now: i64) -> Seq<Seq<ButtonView>> {
    cs.map_values(
        |c: Client| seq![cb(client_label(c, now), "client_"@ + int_decimal(c.tg_user_id as int))],
    )
}

/// The row of arrows to the previous and next page, each only where that
/// page exists.
pub open spec fn nav_row(prefix: Seq<char>, current: int, total_pages: int) -> Seq<ButtonView> {
    (if current > 0 {
        seq![cb("⬅️"@, prefix + int_decimal(current - 1))]
    } else {
        Seq::empty()
    }) + (if current < total_pages - 1 {
        seq![cb("➡️"@, prefix + int_decimal(current + 1))]
    } else {
        Seq::empty()
    })
}

/// `rows`, with `row` added below unless it is empty.
pub open spec fn with_row(rows: Seq<Seq<ButtonView>>, row: Seq<ButtonView>) -> Seq<Seq<ButtonView>> {
    if row.len() == 0 {
        rows
    } else {
        rows.push(row)
    }
}

/// The data `prefix` followed by `id` in decimal.
fn id_data(prefix: &str, id: i64) -> (res: String)
    ensures
        res@ == prefix@ + int_decimal(id as int),
{
    let mut v: Vec<char> = Vec::new();
    push_str(&mut v, prefix);
    push_i64(&mut v, id);
    string_of(v.as_slice())
}

fn client_label_of(c: &Client, now: i64) -> (res: String)
    ensures
        res@ == client_label(*c, now),
{
    let mut v: Vec<char> = Vec::new();
    if c.banned {
        push_str(&mut v, "🚫");
    } else {
        push_str(&mut v, "✅");
    }
    push_str(&mut v, " ");
    if is_pro(c.pro_expires_at, now) {
        push_str(&mut v, "Pro");
    } else {
        push_str(&mut v, "Free");
    }
    push_str(&mut v, " (ID: ");
    push_i64(&mut v, c.tg_user_id);
    push_str(&mut v, ") - ");
    push_i64(&mut v, c.tg_user_id);
    string_of(v.as_slice())
}

/// The arrows row for page `current` of `total_pages`, with data `prefix`
/// and the page number.
fn build_nav_row(prefix: &str, current: i64, total_pages: i64) -> (res: Vec<Button>)
    ensures
        row_view(res@) == nav_row(prefix@, current as int, total_pages as int),
{
    let mut row: Vec<Button> = Vec::new();
    if current > 0 {
        row.push(callback_button("⬅️", id_data(prefix, current - 1)));
    }
    let ghost mid = row@;
    if current < total_pages && current + 1 < total_pages {
        row.push(callback_button("➡️", id_data(prefix, current + 1)));
        assert(row@ =~= mid.push(row@.last()));
    }
    assert(row_view(row@) =~= nav_row(prefix@, current as int, total_pages as int));
    row
}

/// Which page of the client list to show for a request of page `page`,
/// when there are `total_clients` clients: none when there are no
/// clients.
pub fn clients_window(total_clients: i64, page: i64) -> (res: Option<PageWindow>)
    requires
        total_clients + CLIENTS_PER_PAGE - 1 <= i64::MAX,
    ensures
        match res {
            None => total_clients <= 0,
            Some(w) => total_clients > 0 && w == window_of(total_clients, page, CLIENTS_PER_PAGE),
        },
{
    if total_clients <= 0 {
        None
    } else {
        Some(page_window(total_clients, page, CLIENTS_PER_PAGE))
    }
}

/// The owner's list of clients on page `current` of `total_pages`: one
/// button per client of the page, then the arrows to the pages around it.
pub fn build_clients_page<'a>(
    l10n: &'a L10n,
    lang: Locale,
    clients: &[Client],
    now: i64,
    current: i64,
    total_pages: i64,
) -> (res: (&'a str, Vec<Vec<Button>>))
    ensures
        res.0@ == raw_text(l10n@, lang, "clients_list_title"@),
        keyboard_view(res.1@) == with_row(
            client_rows(clients@, now),
            nav_row("clients_page_"@, current as int, total_pages as int),
        ),
{
    let mut keyboard: Vec<Vec<Button>> = Vec::new();
    let mut i: usize = 0;
    while i < clients.len()
        invariant
            i <= clients.len(),
            keyboard_view(keyboard@) == client_rows(clients@.subrange(0, i as int), now),
        decreases clients.len() - i,
    {
        let c = &clients[i];
        let ghost before = keyboard@;
        let mut row: Vec<Button> = Vec::new();
        row.push(callback_button(client_label_of(c, now).as_str(), id_data("client_", c.tg_user_id)));
        keyboard.push(row);
        assert(row_view(row@) =~= seq![
            cb(client_label(*c, now), "client_"@ + int_decimal(c.tg_user_id as int)),
        ]);
        assert(keyboard_view(keyboard@) =~= keyboard_view(before).push(row_view(row@)));
        assert(client_rows(clients@.subrange(0, i + 1), now) =~= client_rows(
            clients@.subrange(0, i as int),
            now,
        ).push(row_view(row@)));
        i = i + 1;
    }
    assert(clients@.subrange(0, i as int) =~= clients@);
    let nav = build_nav_row("clients_page_", current, total_pages);
    if nav.len() > 0 {
        let ghost before = keyboard@;
        keyboard.push(nav);
        assert(keyboard_view(keyboard@) =~= keyboard_view(before).push(row_view(nav@)));
    }
    (l10n.clients_list_title(lang), keyboard)
}

/// The plan name shown on a client's card.
pub open spec fn card_plan(c: Client, now: i64) -> Seq<char> {
    if spec_is_pro(c.pro_expires_at, now) {
        "pro"@
    } else {
        "free"@
    }
}

/// The end date of a client's paid period, as shown on its card.
pub open spec fn card_expiry(c: Client) -> Option<Seq<char>> {
    match c.pro_expires_at {
        Some(ts) => date_text(ts),
        None => None,
    }
}

/// The buttons of a client's card: ban or unban, switch plan, its bots,
/// and back to the list.
pub open spec fn client_card_keyboard(
    tr: TranslationsView,
    lang: Locale,
    c: Client,
    now: i64,
) -> Seq<Seq<ButtonView>> {
    let id = int_decimal(c.tg_user_id as int);
    seq![
        seq![
            cb(
                if c.banned {
                    raw_text(tr, lang, "unban_client_btn"@)
                } else {
                    raw_text(tr, lang, "ban_client_btn"@)
                },
                "banclient_"@ + id,
            ),
        ],
        seq![
            cb(
                if spec_is_pro(c.pro_expires_at, now) {
                    raw_text(tr, lang, "make_free"@)
                } else {
                    raw_text(tr, lang, "make_pro"@)
                },
                "changeplan_"@ + id,
            ),
        ],
        seq![cb(raw_text(tr, lang, "client_bots_btn"@), "clientbots_"@ + id)],
        seq![cb(raw_text(tr, lang, "back_btn"@), "clients_page_0"@)],
    ]
}

fn one_button(text: &str, data: String) -> (res: Vec<Button>)
    ensures
        row_view(res@) == seq![cb(text@, data@)],
{
    let mut row: Vec<Button> = Vec::new();
    row.push(callback_button(text, data));
    assert(row_view(row@) =~= seq![cb(text@, data@)]);
    row
}

/// The owner's card of a client with `bots_count` bots, at time `now`:
/// its account details and its buttons.
pub fn build_client_details(
    l10n: &L10n,
    lang: Locale,
    client: &Client,
    bots_count: usize,
    now: i64,
) -> (res: (String, Vec<Vec<Button>>))
    ensures
        res.0@ == client_details_text(
            l10n@,
            lang,
            client.tg_user_id as int,
            card_plan(*client, now),
            card_expiry(*client),
            client.banned,
            bots_count as nat,
        ),
        keyboard_view(res.1@) == client_card_keyboard(l10n@, lang, *client, now),
{
    let pro = is_pro(client.pro_expires_at, now);
    let plan = if pro {
        "pro"
    } else {
        "free"
    };
    proof {
        reveal_strlit("pro");
        reveal_strlit("free");
    }
    let expires: Option<String> = match client.pro_expires_at {
        Some(ts) => format_date(ts),
        None => None,
    };
    let text = match &expires {
        Some(d) => l10n.client_details(lang, client.tg_user_id, plan, Some(d.as_str()), client.banned, bots_count),
        None => l10n.client_details(lang, client.tg_user_id, plan, None, client.banned, bots_count),
    };
    let ban_text = if client.banned {
        l10n.unban_client_btn(lang)
    } else {
        l10n.ban_client_btn(lang)
    };
    let plan_text = if pro {
        l10n.make_free(lang)
    } else {
        l10n.make_pro(lang)
    };
    let mut keyboard: Vec<Vec<Button>> = Vec::new();
    keyboard.push(one_button(ban_text, id_data("banclient_", client.tg_user_id)));
    keyboard.push(one_button(plan_text, id_data("changeplan_", client.tg_user_id)));
    keyboard.push(one_button(l10n.client_bots_btn(lang), id_data("clientbots_", client.tg_user_id)));
    keyboard.push(one_button(l10n.back_btn(lang), String::from_str("clients_page_0")));
    assert(keyboard_view(keyboard@) =~= client_card_keyboard(l10n@, lang, *client, now));
    (text, keyboard)
}

/// The label of a bot in a client's list: active or not, name and id.
pub open spec fn bot_label(b: BotConfig) -> Seq<char> {
    (if b.active {
        "✅"@
    } else {
        "❌"@
    }) + " @"@ + b.bot_username@ + " (ID: "@ + int_decimal(b.id as int) + ")"@
}

/// One button per bot, opening its card.
pub open spec fn bot_rows(bs: Seq<BotConfig>) -> Seq<Seq<ButtonView>> {
    bs.map_values(|b: BotConfig| seq![cb(bot_label(b), "botinfo_"@ + int_decimal(b.id as int))])
}

/// The page of a client's bots asked for as page `page`: its title and
/// buttons. Without bots, a message saying so and a way back.
pub open spec fn client_bots_view(
    tr: TranslationsView,
    lang: Locale,
    tg_id: i64,
    bots: Seq<BotConfig>,
    page: i64,
) -> (Seq<char>, Seq<Seq<ButtonView>>) {
    let back = seq![cb(raw_text(tr, lang, "back_btn"@), "client_"@ + int_decimal(tg_id as int))];
    if bots.len() == 0 {
        (raw_text(tr, lang, "no_bots_msg"@), seq![back])
    } else {
        let w = window_of(bots.len() as i64, page, BOTS_PER_PAGE);
        (
            raw_text(tr, lang, "client_bots_title"@),
            with_row(
                bot_rows(bots.subrange(w.start as int, w.end as int)),
                nav_row(
                    "clientbots_page_"@ + int_decimal(tg_id as int) + "_"@,
                    w.current as int,
                    w.total_pages as int,
                ),
            ).push(back),
        )
    }
}

fn bot_label_of(b: &BotConfig) -> (res: String)
    ensures
        res@ == bot_label(*b),
{
    let mut v: Vec<char> = Vec::new();
    if b.active {
        push_str(&mut v, "✅");
    } else {
        push_str(&mut v, "❌");
    }
    push_str(&mut v, " @");
    push_str(&mut v, b.bot_username.as_str());
    push_str(&mut v, " (ID: ");
    push_i64(&mut v, b.id as i64);
    push_str(&mut v, ")");
    string_of(v.as_slice())
}

/// Page `page` of the bots of client `tg_id`, for the owner.
pub fn build_client_bots<'a>(
    l10n: &'a L10n,
    lang: Locale,
    tg_id: i64,
    bots: &[BotConfig],
    page: i64,
) -> (res: (&'a str, Vec<Vec<Button>>))
    requires
        bots.len() + BOTS_PER_PAGE <= i64::MAX,
    ensures
        (res.0@, keyboard_view(res.1@)) == client_bots_view(l10n@, lang, tg_id, bots@, page),
{
    let back = one_button(l10n.back_btn(lang), id_data("client_", tg_id));
    if bots.len() == 0 {
        let mut keyboard: Vec<Vec<Button>> = Vec::new();
        keyboard.push(back);
        assert(keyboard_view(keyboard@) =~= seq![row_view(back@)]);
        return (l10n.no_bots_msg(lang), keyboard);
    }
    let total = bots.len() as i64;
    let w = page_window(total, page, BOTS_PER_PAGE);
    let start = w.start as usize;
    let end = w.end as usize;
    let mut keyboard: Vec<Vec<Button>> = Vec::new();
    let mut i: usize = start;
    while i < end
        invariant
            start <= i <= end <= bots.len(),
            keyboard_view(keyboard@) == bot_rows(bots@.subrange(start as int, i as int)),
        decreases end - i,
    {
        let b = &bots[i];
        let ghost before = keyboard@;
        let row = one_button(bot_label_of(b).as_str(), id_data("botinfo_", b.id as i64));
        keyboard.push(row);
        assert(keyboard_view(keyboard@) =~= keyboard_view(before).push(row_view(row@)));
        assert(bot_rows(bots@.subrange(start as int, i + 1)) =~= bot_rows(
            bots@.subrange(start as int, i as int),
        ).push(row_view(row@)));
        i = i + 1;
    }
    let mut prefix: Vec<char> = Vec::new();
    push_str(&mut prefix, "clientbots_page_");
    push_i64(&mut prefix, tg_id);
    push_str(&mut prefix, "_");
    let prefix = string_of(prefix.as_slice());
    let nav = build_nav_row(prefix.as_str(), w.current, w.total_pages);
    if nav.len() > 0 {
        let ghost before = keyboard@;
        keyboard.push(nav);
        assert(keyboard_view(keyboard@) =~= keyboard_view(before).push(row_view(nav@)));
    }
    let ghost before = keyboard@;
    keyboard.push(back);
    assert(keyboard_view(keyboard@) =~= keyboard_view(before).push(row_view(back@)));
    (l10n.client_bots_title(lang), keyboard)
}

/// How a bot's channel is shown on its card: by username, else by id,
/// else as not configured.
pub open spec fn channel_display(tr: TranslationsView, lang: Locale, b: BotConfig) -> Seq<char> {
    match b.channel_username {
        Some(u) => u@,
        None => if b.channel_id != 0 {
            "ID: "@ + int_decimal(b.channel_id as int)
        } else {
            raw_text(tr, lang, "channel_not_configured"@)
        },
    }
}

/// The data of the "back" button of a bot's card: "clientbots_", the id of
/// its client (0 when unknown) and "_0". No callback reads this data (it
/// is neither a client id alone nor a "clientbots_page_" page), so the
/// button is answered as an unknown one and leaves the card as it is.
pub open spec fn bot_card_back(b: BotConfig) -> Seq<char> {
    "clientbots_"@ + int_decimal(
        match b.client_tg_id {
            Some(t) => t as int,
            None => 0,
        },
    ) + "_0"@
}

/// The owner's card of a bot: its name, channel and state, and a "back" button.
pub fn build_bot_info(l10n: &L10n, lang: Locale, b: &BotConfig) -> (res: (String, Vec<Vec<Button>>))
    ensures
        res.0@ == t_text(
            l10n@,
            lang,
            "bot_info"@,
            bot_info_args(l10n@, lang, b.bot_username@, channel_display(l10n@, lang, *b), b.active),
        ),
        keyboard_view(res.1@) == seq![seq![cb(raw_text(l10n@, lang, "back_btn"@), bot_card_back(*b))]],
{
    let channel: String = match &b.channel_username {
        Some(u) => u.clone(),
        None => if b.channel_id != 0 {
            id_data("ID: ", b.channel_id)
        } else {
            String::from_str(l10n.channel_not_configured(lang))
        },
    };
    let text = l10n.bot_info_text(lang, b.bot_username.as_str(), channel.as_str(), b.active);
    let client: i64 = match b.client_tg_id {
        Some(t) => t,
        None => 0,
    };
    let mut data: Vec<char> = Vec::new();
    push_str(&mut data, "clientbots_");
    push_i64(&mut data, client);
    push_str(&mut data, "_0");
    let mut keyboard: Vec<Vec<Button>> = Vec::new();
    keyboard.push(one_button(l10n.back_btn(lang), string_of(data.as_slice())));
    assert(keyboard_view(keyboard@) =~= seq![seq![cb(raw_text(l10n@, lang, "back_btn"@), bot_card_back(*b))]]);
    (text, keyboard)
}

/// The buttons under the master bot's welcome: add a bot, list one's bots,
/// the paid plan (active, or to buy), and the instructions.
pub open spec fn start_keyboard(is_pro: bool, instruction_url: Seq<char>) -> Seq<Seq<ButtonView>> {
    seq![
        seq![cb("➕ Добавить бота"@, "add_bot"@), cb("🤖 Мои боты"@, "my_bots"@)],
        if is_pro {
            seq![cb("✅ Pro подписка активна"@, "pro_active_info"@)]
        } else {
            seq![cb("⭐ Купить Pro (100 Stars)"@, "buy_pro"@)]
        },
        seq![ButtonView { text: "📚 Инструкция"@, action: ButtonActionView::Url(instruction_url) }],
    ]
}

/// The master bot's answer to /start: the welcome and its buttons, for a
/// client with or without the paid plan.
pub fn build_start_menu(is_pro: bool, instruction_url: &str) -> (res: (&'static str, Vec<Vec<Button>>))
    ensures
        res.0@ == "Добро пожаловать в конструктор предложек!\n\nЗдесь вы можете создать своего бота для анонимных предложений и привязать его к вашему Telegram-каналу.\n\nПриобретите Pro-подписку для снятия ограничений на модераторов и отключения вотермарок."@,
        keyboard_view(res.1@) == start_keyboard(is_pro, instruction_url@),
{
    let mut first: Vec<Button> = Vec::new();
    first.push(callback_button("➕ Добавить бота", String::from_str("add_bot")));
    first.push(callback_button("🤖 Мои боты", String::from_str("my_bots")));
    let mut keyboard: Vec<Vec<Button>> = Vec::new();
    keyboard.push(first);
    if is_pro {
        keyboard.push(one_button("✅ Pro подписка активна", String::from_str("pro_active_info")));
    } else {
        keyboard.push(one_button("⭐ Купить Pro (100 Stars)", String::from_str("buy_pro")));
    }
    let mut last: Vec<Button> = Vec::new();
    last.push(url_button("📚 Инструкция", String::from_str(instruction_url)));
    keyboard.push(last);
    assert(row_view(keyboard@[0]@) =~= seq![cb("➕ Добавить бота"@, "add_bot"@), cb("🤖 Мои боты"@, "my_bots"@)]);
    assert(row_view(keyboard@[2]@) =~= seq![
        ButtonView { text: "📚 Инструкция"@, action: ButtonActionView::Url(instruction_url@) },
    ]);
    assert(keyboard_view(keyboard@) =~= start_keyboard(is_pro, instruction_url@));
    (
        "Добро пожаловать в конструктор предложек!\n\nЗдесь вы можете создать своего бота для анонимных предложений и привязать его к вашему Telegram-каналу.\n\nПриобретите Pro-подписку для снятия ограничений на модераторов и отключения вотермарок.",
        keyboard,
    )
}

/// The label of the button that disconnects one of a client's bots.
pub open spec fn unbind_label(b: BotConfig) -> Seq<char> {
    "🗑 Отвязать @"@ + b.bot_username@ + " (ID: "@ + int_decimal(b.id as int) + ")"@
}

/// One button per bot of the client, disconnecting it.
pub open spec fn unbind_rows(bs: Seq<BotConfig>) -> Seq<Seq<ButtonView>> {
    bs.map_values(|b: BotConfig| seq![cb(unbind_label(b), "unbind_"@ + int_decimal(b.id as int))])
}

/// A client's list of its active bots: without bots, a message saying so
/// and no buttons; else a title and one button per bot.
pub fn build_my_bots(bots: &[BotConfig]) -> (res: (&'static str, Vec<Vec<Button>>))
    ensures
        bots.len() == 0 ==> res.0@ == "У вас пока нет активных ботов. Нажмите «Добавить бота», чтобы создать первый."@
            && res.1@.len() == 0,
        bots.len() > 0 ==> res.0@ == "🤖 <b>Ваши активные боты:</b>\n\nНажмите на кнопку, чтобы отвязать бота."@
            && keyboard_view(res.1@) == unbind_rows(bots@),
{
    let mut keyboard: Vec<Vec<Button>> = Vec::new();
    if bots.len() == 0 {
        return (
            "У вас пока нет активных ботов. Нажмите «Добавить бота», чтобы создать первый.",
            keyboard,
        );
    }
    let mut i: usize = 0;
    while i < bots.len()
        invariant
            i <= bots.len(),
            keyboard_view(keyboard@) == unbind_rows(bots@.subrange(0, i as int)),
        decreases bots.len() - i,
    {
        let b = &bots[i];
        let mut label: Vec<char> = Vec::new();
        push_str(&mut label, "🗑 Отвязать @");
        push_str(&mut label, b.bot_username.as_str());
        push_str(&mut label, " (ID: ");
        push_i64(&mut label, b.id as i64);
        push_str(&mut label, ")");
        let label = string_of(label.as_slice());
        let ghost before = keyboard@;
        let row = one_button(label.as_str(), id_data("unbind_", b.id as i64));
        keyboard.push(row);
        assert(keyboard_view(keyboard@) =~= keyboard_view(before).push(row_view(row@)));
        assert(unbind_rows(bots@.subrange(0, i + 1)) =~= unbind_rows(bots@.subrange(0, i as int)).push(
            row_view(row@),
        ));
        i = i + 1;
    }
    assert(bots@.subrange(0, i as int) =~= bots@);
    ("🤖 <b>Ваши активные боты:</b>\n\nНажмите на кнопку, чтобы отвязать бота.", keyboard)
}

/// Whether bot `bot_id` is among a client's bots: a client may disconnect
/// only its own bots.
pub fn owns_bot(bots: &[BotConfig], bot_id: i32) -> (r: bool)
    ensures
        r == exists|i: int| 0 <= i < bots.len() && #[trigger] bots@[i].id == bot_id,
{
    let mut i: usize = 0;
    while i < bots.len()
        invariant
            i <= bots.len(),
            forall|j: int| 0 <= j < i ==> #[trigger] bots@[j].id != bot_id,
        decreases bots.len() - i,
    {
        if bots[i].id == bot_id {
            return true;
        }
        i = i + 1;
    }
    false
}

/// The owner's statistics: clients, active bots, and clients on each plan.
pub open spec fn stats_text(clients: nat, bots: nat, pro: int, free: int) -> Seq<char> {
    "📊 Статистика:\n\nВсего клиентов: "@ + nat_decimal(clients) + "\nАктивных ботов: "@ + nat_decimal(bots)
        + "\n\nPro-клиентов: "@ + int_decimal(pro) + "\nFree-клиентов: "@ + int_decimal(free)
}

/// The text of the owner's /stats.
pub fn build_stats(clients: usize, bots: usize, pro: i64, free: i64) -> (res: String)
    ensures
        res@ == stats_text(clients as nat, bots as nat, pro as int, free as int),
{
    let mut v: Vec<char> = Vec::new();
    push_str(&mut v, "📊 Статистика:\n\nВсего клиентов: ");
    push_u64(&mut v, clients as u64);
    push_str(&mut v, "\nАктивных ботов: ");
    push_u64(&mut v, bots as u64);
    push_str(&mut v, "\n\nPro-клиентов: ");
    push_i64(&mut v, pro);
    push_str(&mut v, "\nFree-клиентов: ");
    push_i64(&mut v, free);
    string_of(v.as_slice())
}

/// The owner's answer to `/setplan <id> <plan>`.
pub fn set_plan_reply(tg_id: i64, plan: &str) -> (res: String)
    ensures
        res@ == "✅ План для "@ + int_decimal(tg_id as int) + " изменен на "@ + plan@ + "."@,
{
    let mut v: Vec<char> = Vec::new();
    push_str(&mut v, "✅ План для ");
    push_i64(&mut v, tg_id);
    push_str(&mut v, " изменен на ");
    push_str(&mut v, plan);
    push_str(&mut v, ".");
    string_of(v.as_slice())
}

/// The owner's answer to `/banclient <id>`.
pub fn ban_client_reply(tg_id: i64) -> (res: String)
    ensures
        res@ == "🚫 Клиент "@ + int_decimal(tg_id as int) + " забанен. Боты остановлены."@,
{
    let mut v: Vec<char> = Vec::new();
    push_str(&mut v, "🚫 Клиент ");
    push_i64(&mut v, tg_id);
    push_str(&mut v, " забанен. Боты остановлены.");
    string_of(v.as_slice())
}

/// The answer once a client's bot `username` is connected and started.
pub fn bot_linked_reply(username: &str) -> (res: String)
    ensures
        res@ == "✅ Бот @"@ + username@
            + " успешно привязан!\n\nЯ запустил вашего бота. Перейдите в его личные сообщения (@"@ + username@
            + ") и отправьте /start для первоначальной настройки (выбор языка и привязка канала)."@,
{
    let mut v: Vec<char> = Vec::new();
    push_str(&mut v, "✅ Бот @");
    push_str(&mut v, username);
    push_str(
        &mut v,
        " успешно привязан!\n\nЯ запустил вашего бота. Перейдите в его личные сообщения (@",
    );
    push_str(&mut v, username);
    push_str(&mut v, ") и отправьте /start для первоначальной настройки (выбор языка и привязка канала).");
    string_of(v.as_slice())
}

/// Whether a payment is the one-month paid plan.
pub fn is_pro_payment(payload: &str) -> (r: bool)
    ensures
        r == (payload@ == "pro_sub_1m"@),
{
    str_eq(payload, "pro_sub_1m")
}

} // verus!
