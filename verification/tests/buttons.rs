use posterbot_constructor::callbacks::{parse_master_callback, parse_worker_callback, MasterCallback, WorkerCallback};
use posterbot_constructor::keyboard::ButtonAction;
use posterbot_constructor::locales::{L10n, Locale, Translations};
use posterbot_constructor::models::Client;
use posterbot_constructor::owner::{build_client_details, build_clients_page};
use posterbot_constructor::worker_flow::language_keyboard;

fn data(a: &ButtonAction) -> &str {
    match a {
        ButtonAction::Callback(d) => d,
        ButtonAction::Url(_) => panic!("a link"),
    }
}

#[test]
fn owner_buttons_read_back_as_their_requests() {
    let l = L10n::new(Translations::new());
    let c = Client { id: 1, tg_user_id: 42, plan: "free".into(), pro_expires_at: None, banned: false };
    let (_, kb) = build_clients_page(&l, Locale::En, &[c.clone()], 0, 1, 3);
    assert_eq!(parse_master_callback(data(&kb[0][0].action)), MasterCallback::Client(42));
    assert_eq!(parse_master_callback(data(&kb[1][0].action)), MasterCallback::ClientsPage(0));
    assert_eq!(parse_master_callback(data(&kb[1][1].action)), MasterCallback::ClientsPage(2));
    let (_, kb) = build_client_details(&l, Locale::En, &c, 0, 0);
    let asked: Vec<MasterCallback> = kb.iter().map(|row| parse_master_callback(data(&row[0].action))).collect();
    assert_eq!(
        asked,
        vec![
            MasterCallback::BanClient(42),
            MasterCallback::ChangePlan(42),
            MasterCallback::ClientBots(42),
            MasterCallback::ClientsPage(0),
        ]
    );
}

#[test]
fn language_buttons_choose_the_language() {
    let kb = language_keyboard();
    assert_eq!(parse_worker_callback(data(&kb[0][0].action)), WorkerCallback::SetupLanguage(Locale::Ru));
    assert_eq!(parse_worker_callback(data(&kb[0][1].action)), WorkerCallback::SetupLanguage(Locale::En));
}
