use posterbot_constructor::callbacks::WorkerCallback;
use posterbot_constructor::conversations::InputKind;
use posterbot_constructor::keyboard::{callback_button, Button};
use posterbot_constructor::locales::{L10n, Locale, Translations};
use posterbot_constructor::models::Admin;
use posterbot_constructor::worker_flow::{
    accepted_reply, add_replies_target, admin_joined_messages, admin_name, channel_name,
    connect_instructions, display_name, find_admin, gate_callback, has_content, is_authorized,
    language_keyboard, may_change_admin, moderator_access, pardon_arg, publish_notice,
    reason_or_default, refusal, route_message, setup_reply, start_reply, with_reply_link, Access,
    AddRepliesTarget, CallbackGate, ContentKinds, PublishOutcome, Route,
};

fn l10n() -> L10n {
    let mut tr = Translations::new();
    tr.insert(Locale::En, "setup_enter_channel", "Connect your channel.");
    tr.insert(Locale::En, "reply_link_text", "Reply");
    tr.insert(Locale::Ru, "reply_link_text", "Ответить");
    tr.insert(Locale::En, "admin_added", "{name} joined.");
    tr.insert(Locale::En, "admin_added_frozen", "{name} joined frozen.");
    L10n::new(tr)
}

fn btn(t: &str, d: &str) -> Button {
    callback_button(t, d.to_string())
}

fn admin(user_id: i64, name: &str) -> Admin {
    Admin { id: 1, bot_id: 1, user_id, user_name: name.to_string(), frozen: false }
}

#[test]
fn the_owner_and_moderators_are_authorized() {
    assert!(is_authorized(1, 1, false));
    assert!(is_authorized(2, 1, true));
    assert!(!is_authorized(2, 1, false));
}

#[test]
fn frozen_moderators_are_refused_first() {
    assert_eq!(moderator_access(Some(true), true), Access::Frozen);
    assert_eq!(moderator_access(Some(true), false), Access::Frozen);
    assert_eq!(moderator_access(Some(false), false), Access::Denied);
    assert_eq!(moderator_access(None, false), Access::Denied);
    assert_eq!(moderator_access(None, true), Access::Allowed);
    let l = l10n();
    assert_eq!(refusal(&l, Locale::En, Access::Frozen), Some("mod_frozen_action"));
    assert_eq!(refusal(&l, Locale::En, Access::Denied), Some("no_access"));
    assert_eq!(refusal(&l, Locale::En, Access::Allowed), None);
}

#[test]
fn button_presses_are_gated() {
    let lang = WorkerCallback::SetupLanguage(Locale::Ru);
    assert_eq!(gate_callback(&lang, 1, 1, Some(true), false), CallbackGate::ChooseLanguage(Locale::Ru));
    assert_eq!(gate_callback(&lang, 2, 1, None, true), CallbackGate::Ignore);
    let next = WorkerCallback::Next;
    assert_eq!(gate_callback(&next, 2, 1, Some(true), true), CallbackGate::Frozen);
    assert_eq!(gate_callback(&next, 2, 1, None, false), CallbackGate::Denied);
    assert_eq!(gate_callback(&next, 2, 1, Some(false), true), CallbackGate::Proceed);
    let manage = WorkerCallback::ManageAdmin(5);
    assert_eq!(gate_callback(&manage, 2, 1, Some(false), true), CallbackGate::OwnerOnly);
    assert_eq!(gate_callback(&manage, 1, 1, None, false), CallbackGate::Proceed);
}

#[test]
fn moderators_other_than_the_owner_can_be_changed() {
    assert!(may_change_admin(5, 1));
    assert!(!may_change_admin(1, 1));
    assert!(!may_change_admin(0, 1));
    assert!(!may_change_admin(-5, 1));
}

#[test]
fn moderators_are_found_by_user_id() {
    let admins = [admin(5, "a"), admin(6, "b"), admin(5, "c")];
    assert_eq!(find_admin(&admins, 5), Some(0));
    assert_eq!(find_admin(&admins, 6), Some(1));
    assert_eq!(find_admin(&admins, 7), None);
    assert_eq!(admin_name(&admins, 6, 1), "b");
    assert_eq!(admin_name(&admins, 1, 1), "Owner");
    assert_eq!(admin_name(&admins, 9, 1), "user_9");
}

#[test]
fn start_greets_by_role() {
    let l = l10n();
    assert_eq!(start_reply(&l, Locale::En, true, 1, 1, false, None), "user_banned");
    assert_eq!(start_reply(&l, Locale::En, false, 1, 1, false, None), "owner_panel");
    assert_eq!(start_reply(&l, Locale::En, false, 2, 1, true, Some(true)), "mod_frozen_panel");
    assert_eq!(start_reply(&l, Locale::En, false, 2, 1, true, Some(false)), "mod_panel");
    assert_eq!(start_reply(&l, Locale::En, false, 2, 1, false, None), "welcome");
}

#[test]
fn messages_are_routed() {
    assert_eq!(route_message(false, 2, 1, Some("/start"), None), Route::Ignore);
    assert_eq!(route_message(false, 1, 1, Some("hi"), None), Route::Setup);
    assert_eq!(route_message(true, 2, 1, Some("/proposals"), Some(InputKind::Reason)), Route::Command);
    assert_eq!(route_message(true, 2, 1, Some("text"), Some(InputKind::Answer)), Route::ReplyContent);
    assert_eq!(route_message(true, 2, 1, None, Some(InputKind::Reason)), Route::Reason);
    assert_eq!(route_message(true, 2, 1, Some("x"), Some(InputKind::BanReason)), Route::BanReason);
    assert_eq!(route_message(true, 2, 1, Some("x"), None), Route::Proposal);
    assert_eq!(route_message(true, 2, 1, None, None), Route::Proposal);
}

#[test]
fn setup_asks_for_the_language_then_for_the_channel() {
    let l = l10n();
    let langs = vec![vec![btn("🇷🇺 Русский", "setup_lang_ru"), btn("🇬🇧 English", "setup_lang_en")]];
    assert_eq!(language_keyboard(), langs);
    let (text, kb) = setup_reply(&l, Locale::En, "/start", Some("AB12"));
    assert!(text.starts_with("👋 Давайте настроим вашего бота!"));
    assert_eq!(kb, langs);
    let (text, kb) = setup_reply(&l, Locale::En, "hello", Some("AB12"));
    assert_eq!(text, "Connect your channel.\n\nОтправьте в ваш канал команду:\n<code>/connect AB12</code>");
    assert!(kb.is_empty());
    assert_eq!(text, connect_instructions(&l, Locale::En, "AB12"));
    let (text, kb) = setup_reply(&l, Locale::En, "hello", None);
    assert_eq!(text, "👋 Please select your language:\n\nПожалуйста, выберите язык:");
    assert_eq!(kb, langs);
    assert_eq!(channel_name(Some("News")), "News");
    assert_eq!(channel_name(None), "Канал");
}

#[test]
fn addreplies_reads_a_post_link() {
    assert_eq!(add_replies_target("   "), AddRepliesTarget::Usage);
    assert_eq!(add_replies_target(" https://t.me/chan/12 "), AddRepliesTarget::Post(12));
    assert_eq!(add_replies_target("https://t.me/chan/0"), AddRepliesTarget::InvalidLink);
    assert_eq!(add_replies_target("https://t.me/chan"), AddRepliesTarget::InvalidLink);
}

#[test]
fn the_reply_link_is_added_once() {
    let l = l10n();
    assert_eq!(
        with_reply_link(&l, Locale::Ru, "Post", "my_bot", 12),
        Some("Post\n<a href=\"https://t.me/my_bot?start=reply_12\">Ответить</a>".to_string())
    );
    let once = with_reply_link(&l, Locale::En, "", "b", 1).unwrap();
    assert_eq!(once, "\n<a href=\"https://t.me/b?start=reply_1\">Reply</a>");
    assert_eq!(with_reply_link(&l, Locale::En, &once, "b", 1), None);
}

#[test]
fn small_decisions() {
    assert_eq!(pardon_arg("  BAN-12AB34 "), Some("BAN-12AB34".to_string()));
    assert_eq!(pardon_arg(" \t "), None);
    assert_eq!(reason_or_default(Some("spam")), "spam");
    assert_eq!(reason_or_default(None), "No reason provided");
    assert_eq!(display_name(Some("ann"), Some("Ann"), 5), "ann");
    assert_eq!(display_name(None, Some("Ann"), 5), "Ann");
    assert_eq!(display_name(None, None, 5), "user_5");
    let l = l10n();
    assert_eq!(accepted_reply(&l, Locale::En, true), "reply_accepted");
    assert_eq!(accepted_reply(&l, Locale::En, false), "proposal_accepted");
    assert_eq!(
        admin_joined_messages(&l, Locale::En, true, "ann"),
        ("admin_added_frozen_notification", "ann joined frozen.".to_string())
    );
    assert_eq!(
        admin_joined_messages(&l, Locale::En, false, "ann"),
        ("admin_added_notification", "ann joined.".to_string())
    );
    assert_eq!(publish_notice(&l, Locale::En, PublishOutcome::Posted(3)), "published");
    assert_eq!(publish_notice(&l, Locale::En, PublishOutcome::PostedWithoutId), "published_no_id");
    assert_eq!(publish_notice(&l, Locale::En, PublishOutcome::Failed), "failed_publish");
    let none = ContentKinds {
        text: false,
        photo: false,
        document: false,
        video: false,
        video_note: false,
        audio: false,
        voice: false,
        sticker: false,
    };
    assert!(!has_content(&none));
    assert!(has_content(&ContentKinds { sticker: true, ..none }));
}
