use posterbot_constructor::keyboard::{callback_button, url_button, Button};
use posterbot_constructor::locales::{L10n, Locale, Translations};
use posterbot_constructor::models::{BotConfig, Client};
use posterbot_constructor::owner::{
    ban_client_reply, bot_linked_reply, build_bot_info, build_client_bots, build_client_details,
    build_clients_page, build_my_bots, build_start_menu, build_stats, clients_window,
    is_pro_payment, owns_bot, set_plan_reply,
};

fn l10n() -> L10n {
    let mut tr = Translations::new();
    tr.insert(
        Locale::En,
        "client_details",
        "{id_label} {tg_id}|{plan_label} {plan}|{status_label} {status}|{bots_label} {bots}",
    );
    tr.insert(Locale::En, "client_plan_pro_until", "Pro until {date}");
    tr.insert(Locale::En, "bot_info", "{username_label} @{username}|{channel_label} {channel}|{status}");
    L10n::new(tr)
}

fn btn(t: &str, d: &str) -> Button {
    callback_button(t, d.to_string())
}

fn client(tg: i64, pro_until: Option<i64>, banned: bool) -> Client {
    Client { id: 1, tg_user_id: tg, plan: "free".into(), pro_expires_at: pro_until, banned }
}

fn bot(id: i32, name: &str, active: bool) -> BotConfig {
    BotConfig {
        id,
        client_id: 1,
        token: "t".into(),
        bot_username: name.into(),
        channel_id: 0,
        channel_username: None,
        lang: "en".into(),
        active,
        setup_complete: true,
        setup_code: None,
        client_tg_id: Some(77),
    }
}

#[test]
fn no_clients_no_page() {
    assert!(clients_window(0, 3).is_none());
    let w = clients_window(11, 7).unwrap();
    assert_eq!((w.current, w.total_pages, w.start, w.end), (2, 3, 10, 11));
}

#[test]
fn the_client_list_shows_state_plan_and_arrows() {
    let l = l10n();
    let clients = [client(5, Some(2_000), false), client(6, Some(500), true)];
    let (title, kb) = build_clients_page(&l, Locale::En, &clients, 1_000, 1, 3);
    assert_eq!(title, "clients_list_title");
    assert_eq!(
        kb,
        vec![
            vec![btn("✅ Pro (ID: 5) - 5", "client_5")],
            vec![btn("🚫 Free (ID: 6) - 6", "client_6")],
            vec![btn("⬅️", "clients_page_0"), btn("➡️", "clients_page_2")],
        ]
    );
    let (_, kb) = build_clients_page(&l, Locale::En, &clients, 1_000, 0, 1);
    assert_eq!(kb.len(), 2);
}

#[test]
fn a_client_card_lists_details_and_actions() {
    let l = l10n();
    let (text, kb) = build_client_details(&l, Locale::En, &client(5, Some(1_700_000_000), false), 2, 0);
    assert_eq!(
        text,
        "field_tg_id 5|field_plan Pro until 14.11.2023|field_status client_status_active|field_bots 2"
    );
    assert_eq!(
        kb,
        vec![
            vec![btn("ban_client_btn", "banclient_5")],
            vec![btn("make_free", "changeplan_5")],
            vec![btn("client_bots_btn", "clientbots_5")],
            vec![btn("back_btn", "clients_page_0")],
        ]
    );
    let (text, kb) = build_client_details(&l, Locale::En, &client(5, Some(10), true), 0, 20);
    assert_eq!(text, "field_tg_id 5|field_plan client_plan_free|field_status client_status_banned|field_bots 0");
    assert_eq!(kb[0], vec![btn("unban_client_btn", "banclient_5")]);
    assert_eq!(kb[1], vec![btn("make_pro", "changeplan_5")]);
}

#[test]
fn a_clients_bots_come_five_to_a_page() {
    let l = l10n();
    let bots: Vec<BotConfig> = (1..=7).map(|i| bot(i, &format!("b{i}"), i % 2 == 1)).collect();
    let (title, kb) = build_client_bots(&l, Locale::En, 77, &bots, 9);
    assert_eq!(title, "client_bots_title");
    assert_eq!(
        kb,
        vec![
            vec![btn("❌ @b6 (ID: 6)", "botinfo_6")],
            vec![btn("✅ @b7 (ID: 7)", "botinfo_7")],
            vec![btn("⬅️", "clientbots_page_77_0")],
            vec![btn("back_btn", "client_77")],
        ]
    );
    let (_, kb) = build_client_bots(&l, Locale::En, 77, &bots, 0);
    assert_eq!(kb.len(), 7);
    assert_eq!(kb[1], vec![btn("❌ @b2 (ID: 2)", "botinfo_2")]);
    assert_eq!(kb[5], vec![btn("➡️", "clientbots_page_77_1")]);
    let (text, kb) = build_client_bots(&l, Locale::En, 77, &[], 0);
    assert_eq!(text, "no_bots_msg");
    assert_eq!(kb, vec![vec![btn("back_btn", "client_77")]]);
}

#[test]
fn a_bot_card_names_its_channel() {
    let l = l10n();
    let mut b = bot(3, "mybot", true);
    let (text, kb) = build_bot_info(&l, Locale::En, &b);
    assert_eq!(text, "field_username @mybot|field_channel channel_not_configured|bot_status_active");
    assert_eq!(kb, vec![vec![btn("back_btn", "clientbots_77_0")]]);
    b.channel_id = -1001;
    b.active = false;
    b.client_tg_id = None;
    let (text, kb) = build_bot_info(&l, Locale::En, &b);
    assert_eq!(text, "field_username @mybot|field_channel ID: -1001|bot_status_inactive");
    assert_eq!(kb, vec![vec![btn("back_btn", "clientbots_0_0")]]);
    b.channel_username = Some("@chan".into());
    let (text, _) = build_bot_info(&l, Locale::En, &b);
    assert_eq!(text, "field_username @mybot|field_channel @chan|bot_status_inactive");
}

#[test]
fn the_welcome_offers_the_plan_the_client_lacks() {
    let (text, kb) = build_start_menu(false, "https://telegra.ph/");
    assert!(text.starts_with("Добро пожаловать в конструктор предложек!"));
    assert_eq!(
        kb,
        vec![
            vec![btn("➕ Добавить бота", "add_bot"), btn("🤖 Мои боты", "my_bots")],
            vec![btn("⭐ Купить Pro (100 Stars)", "buy_pro")],
            vec![url_button("📚 Инструкция", "https://telegra.ph/".to_string())],
        ]
    );
    let (_, kb) = build_start_menu(true, "u");
    assert_eq!(kb[1], vec![btn("✅ Pro подписка активна", "pro_active_info")]);
}

#[test]
fn a_client_lists_and_unbinds_its_bots() {
    let (text, kb) = build_my_bots(&[]);
    assert!(text.starts_with("У вас пока нет активных ботов."));
    assert!(kb.is_empty());
    let bots = [bot(4, "one", true), bot(9, "two", true)];
    let (text, kb) = build_my_bots(&bots);
    assert_eq!(text, "🤖 <b>Ваши активные боты:</b>\n\nНажмите на кнопку, чтобы отвязать бота.");
    assert_eq!(
        kb,
        vec![
            vec![btn("🗑 Отвязать @one (ID: 4)", "unbind_4")],
            vec![btn("🗑 Отвязать @two (ID: 9)", "unbind_9")],
        ]
    );
    assert!(owns_bot(&bots, 9));
    assert!(!owns_bot(&bots, 5));
}

#[test]
fn owner_texts() {
    assert_eq!(
        build_stats(10, 4, 3, 6),
        "📊 Статистика:\n\nВсего клиентов: 10\nАктивных ботов: 4\n\nPro-клиентов: 3\nFree-клиентов: 6"
    );
    assert_eq!(set_plan_reply(12, "pro"), "✅ План для 12 изменен на pro.");
    assert_eq!(ban_client_reply(-3), "🚫 Клиент -3 забанен. Боты остановлены.");
    assert!(bot_linked_reply("xbot").starts_with("✅ Бот @xbot успешно привязан!"));
    assert!(bot_linked_reply("xbot").contains("(@xbot)"));
    assert!(is_pro_payment("pro_sub_1m"));
    assert!(!is_pro_payment("pro_sub_2m"));
}
