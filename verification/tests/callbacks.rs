use posterbot_constructor::callbacks::{
    parse_master_callback, parse_worker_callback, MasterCallback, WorkerCallback,
};
use posterbot_constructor::locales::Locale;

#[test]
fn worker_buttons_are_read() {
    assert_eq!(parse_worker_callback("setup_lang_ru"), WorkerCallback::SetupLanguage(Locale::Ru));
    assert_eq!(parse_worker_callback("setup_lang_en"), WorkerCallback::SetupLanguage(Locale::En));
    assert_eq!(parse_worker_callback("setup_lang_xx"), WorkerCallback::SetupLanguage(Locale::En));
    assert_eq!(
        parse_worker_callback("revoke_invite_AB12CD34"),
        WorkerCallback::RevokeInvite("AB12CD34".to_string())
    );
    assert_eq!(parse_worker_callback("admin_manage_42"), WorkerCallback::ManageAdmin(42));
    assert_eq!(parse_worker_callback("admin_manage_x"), WorkerCallback::ManageAdmin(0));
    assert_eq!(parse_worker_callback("freeze_admin_7"), WorkerCallback::FreezeAdmin(7));
    assert_eq!(parse_worker_callback("unfreeze_admin_7"), WorkerCallback::UnfreezeAdmin(7));
    assert_eq!(parse_worker_callback("rmadmin_9"), WorkerCallback::RemoveAdmin(9));
    assert_eq!(parse_worker_callback("confirm_rmadmin_9"), WorkerCallback::ConfirmRemoveAdmin(9));
    assert_eq!(parse_worker_callback("cancel_rmadmin"), WorkerCallback::ShowAdmins);
    assert_eq!(parse_worker_callback("back_to_admins"), WorkerCallback::ShowAdmins);
    assert_eq!(parse_worker_callback("next"), WorkerCallback::Next);
    assert_eq!(parse_worker_callback("approve_15"), WorkerCallback::Approve(15));
    assert_eq!(parse_worker_callback("reject_-3"), WorkerCallback::Reject(-3));
    assert_eq!(parse_worker_callback("reason_8"), WorkerCallback::Reason(8));
    assert_eq!(parse_worker_callback("ban_reason_8"), WorkerCallback::BanReason(8));
    assert_eq!(parse_worker_callback("approve_abc"), WorkerCallback::InvalidId);
    assert_eq!(parse_worker_callback("something"), WorkerCallback::Unknown);
}

#[test]
fn worker_button_data_reads_back() {
    let all = vec![
        WorkerCallback::SetupLanguage(Locale::Ru),
        WorkerCallback::SetupLanguage(Locale::En),
        WorkerCallback::RevokeInvite("CODE".to_string()),
        WorkerCallback::ManageAdmin(-5),
        WorkerCallback::FreezeAdmin(1),
        WorkerCallback::UnfreezeAdmin(2),
        WorkerCallback::RemoveAdmin(3),
        WorkerCallback::ConfirmRemoveAdmin(4),
        WorkerCallback::ShowAdmins,
        WorkerCallback::Next,
        WorkerCallback::Approve(i64::MAX),
        WorkerCallback::Reject(i64::MIN),
        WorkerCallback::Reason(0),
        WorkerCallback::BanReason(77),
    ];
    for cb in all {
        assert_eq!(parse_worker_callback(&cb.data()), cb);
    }
    assert_eq!(WorkerCallback::Approve(15).data(), "approve_15");
    assert_eq!(WorkerCallback::ShowAdmins.data(), "back_to_admins");
    assert_eq!(WorkerCallback::Unknown.data(), "");
}

#[test]
fn only_moderator_management_is_owner_only() {
    assert!(WorkerCallback::ShowAdmins.is_admin_management());
    assert!(WorkerCallback::RevokeInvite("x".into()).is_admin_management());
    assert!(!WorkerCallback::Approve(1).is_admin_management());
    assert!(!WorkerCallback::SetupLanguage(Locale::Ru).is_admin_management());
}

#[test]
fn master_buttons_are_read() {
    assert_eq!(parse_master_callback("add_bot"), MasterCallback::AddBot);
    assert_eq!(parse_master_callback("my_bots"), MasterCallback::MyBots);
    assert_eq!(parse_master_callback("unbind_12"), MasterCallback::Unbind(12));
    assert_eq!(parse_master_callback("unbind_x"), MasterCallback::Unknown);
    assert_eq!(parse_master_callback("buy_pro"), MasterCallback::BuyPro);
    assert_eq!(parse_master_callback("pro_active_info"), MasterCallback::ProActiveInfo);
    assert_eq!(parse_master_callback("clients_page_3"), MasterCallback::ClientsPage(3));
    assert_eq!(parse_master_callback("clients_page_zz"), MasterCallback::ClientsPage(0));
    assert_eq!(parse_master_callback("client_555"), MasterCallback::Client(555));
    assert_eq!(parse_master_callback("banclient_555"), MasterCallback::BanClient(555));
    assert_eq!(parse_master_callback("changeplan_555"), MasterCallback::ChangePlan(555));
    assert_eq!(parse_master_callback("clientbots_555"), MasterCallback::ClientBots(555));
    assert_eq!(
        parse_master_callback("clientbots_page_555_2"),
        MasterCallback::ClientBotsPage(555, 2)
    );
    assert_eq!(parse_master_callback("botinfo_9"), MasterCallback::BotInfo(9));
    assert_eq!(parse_master_callback("nothing"), MasterCallback::Unknown);
}

#[test]
fn bot_card_back_button_is_not_understood() {
    // The way back from a bot's card carries "clientbots_<client>_0", which
    // no request reads.
    assert_eq!(parse_master_callback("clientbots_555_0"), MasterCallback::Unknown);
}

#[test]
fn master_button_data_reads_back() {
    let all = [
        MasterCallback::AddBot,
        MasterCallback::MyBots,
        MasterCallback::Unbind(-1),
        MasterCallback::BuyPro,
        MasterCallback::ProActiveInfo,
        MasterCallback::ClientsPage(i64::MIN),
        MasterCallback::Client(7),
        MasterCallback::BanClient(7),
        MasterCallback::ChangePlan(7),
        MasterCallback::ClientBots(7),
        MasterCallback::ClientBotsPage(-7, 3),
        MasterCallback::BotInfo(i32::MAX),
    ];
    for cb in all {
        assert_eq!(parse_master_callback(&cb.data()), cb);
    }
    assert_eq!(MasterCallback::ClientBotsPage(5, 1).data(), "clientbots_page_5_1");
    assert!(MasterCallback::Client(1).is_owner_only());
    assert!(!MasterCallback::BuyPro.is_owner_only());
}
