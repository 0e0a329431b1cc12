use posterbot_constructor::admins::{
    build_admin_manage_inline, build_admins_inline, build_ban_list, build_invite,
    build_remove_confirmation,
};
use posterbot_constructor::keyboard::{callback_button, Button};
use posterbot_constructor::locales::{L10n, Locale, Translations};
use posterbot_constructor::models::{Admin, BanRecord};

fn l10n() -> L10n {
    let mut tr = Translations::new();
    tr.insert(Locale::En, "admins_list_header", "Moderators of {owner_id}:\n");
    tr.insert(Locale::En, "admins_manage_hint", "Tap one.");
    tr.insert(Locale::En, "no_admins_to_remove", "None.");
    tr.insert(Locale::En, "admin_manage_title", "{name} ({id})");
    tr.insert(Locale::En, "confirm_remove_admin", "Remove {name} ({id})?");
    tr.insert(Locale::En, "admin_invite_link", "Link: {link}");
    tr.insert(Locale::En, "active_bans_header", "Bans:\n");
    tr.insert(Locale::En, "ban_record_entry", "{i}. {ban_id} {reason} {date}\n");
    L10n::new(tr)
}

fn admin(user_id: i64, name: &str, frozen: bool) -> Admin {
    Admin { id: 1, bot_id: 1, user_id, user_name: name.to_string(), frozen }
}

fn btn(t: &str, d: &str) -> Button {
    callback_button(t, d.to_string())
}

#[test]
fn the_list_leaves_out_the_owner() {
    let l = l10n();
    let admins = [admin(100, "Owner", false), admin(5, "ann", false), admin(6, "bob", true)];
    let (text, kb) = build_admins_inline(&l, Locale::En, &admins, 100);
    assert_eq!(text, "Moderators of 100:\nTap one.");
    assert_eq!(
        kb,
        vec![
            vec![btn("👤 ann (ID: 5)", "admin_manage_5")],
            vec![btn("❄️ bob (ID: 6)", "admin_manage_6")],
        ]
    );
    let (text, kb) = build_admins_inline(&l, Locale::En, &[admin(100, "Owner", false)], 100);
    assert_eq!(text, "Moderators of 100:\nNone.");
    assert!(kb.is_empty());
}

#[test]
fn a_card_freezes_or_unfreezes() {
    let l = l10n();
    let (text, kb) = build_admin_manage_inline(&l, Locale::En, &admin(5, "ann", false));
    assert_eq!(text, "ann (5)");
    assert_eq!(
        kb,
        vec![
            vec![btn("freeze_btn", "freeze_admin_5")],
            vec![btn("remove_btn", "rmadmin_5")],
            vec![btn("back_btn", "back_to_admins")],
        ]
    );
    let (_, kb) = build_admin_manage_inline(&l, Locale::En, &admin(6, "bob", true));
    assert_eq!(kb[0], vec![btn("unfreeze_btn", "unfreeze_admin_6")]);
}

#[test]
fn removal_is_confirmed() {
    let l = l10n();
    let (text, kb) = build_remove_confirmation(&l, Locale::En, &admin(5, "ann", false));
    assert_eq!(text, "Remove ann (5)?");
    assert_eq!(
        kb,
        vec![vec![btn("confirm_yes", "confirm_rmadmin_5")], vec![btn("confirm_no", "cancel_rmadmin")]]
    );
}

#[test]
fn invitations_link_to_the_bot() {
    let l = l10n();
    let (text, kb) = build_invite(&l, Locale::En, "my_bot", "AB12CD34");
    assert_eq!(text, "Link: https://t.me/my_bot?start=admin_AB12CD34");
    assert_eq!(kb, vec![vec![btn("revoke_invite_btn", "revoke_invite_AB12CD34")]]);
}

#[test]
fn bans_are_numbered_from_one() {
    let l = l10n();
    let records = [
        BanRecord { ban_id: "BAN-1".into(), user_hash: "h".into(), reason: "spam".into(), created_at: 0 },
        BanRecord { ban_id: "BAN-2".into(), user_hash: "h".into(), reason: "rude".into(), created_at: 60 },
    ];
    assert_eq!(
        build_ban_list(&l, Locale::En, &records),
        "Bans:\n1. BAN-1 spam 01.01.1970 00:00\n2. BAN-2 rude 01.01.1970 00:01\n"
    );
    assert_eq!(build_ban_list(&l, Locale::Ru, &[]), "Bans:\n");
}
