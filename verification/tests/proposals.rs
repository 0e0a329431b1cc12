use posterbot_constructor::keyboard::{callback_button, Button};
use posterbot_constructor::locales::{L10n, Locale, Translations};
use posterbot_constructor::models::{Admin, Proposal, ProposalMessage};
use posterbot_constructor::proposals::{
    notification_recipients, prepare_proposal, prepare_reply, proposal_card, reject_menu,
    reply_target, ReplyTarget,
};

fn l10n() -> L10n {
    let mut tr = Translations::new();
    tr.insert(Locale::En, "proposal_items_count", "{count} item(s)");
    tr.insert(Locale::En, "proposal_action_header", "#{id} from {date}");
    tr.insert(Locale::En, "approve_btn", "Approve");
    tr.insert(Locale::Ru, "reject_btn", "Отклонить");
    L10n::new(tr)
}

fn btn(t: &str, d: &str) -> Button {
    callback_button(t, d.to_string())
}

#[test]
fn a_link_to_the_channel_makes_an_answer() {
    let p = prepare_proposal(
        5,
        9,
        77,
        "text".to_string(),
        String::new(),
        "Look https://t.me/mychan/15 here".to_string(),
        None,
        0,
        Some("mychan"),
    );
    assert_eq!(p.message_text, "Look  here");
    assert_eq!(p.parent_message_id, Some(15));
    assert_eq!((p.chat_id, p.telegram_message_id, p.sender_id), (5, 9, 77));
    assert!(p.proposal_group_id.starts_with("single_"));
    assert_eq!(p.proposal_group_id.len(), 43);
}

#[test]
fn a_bare_link_leaves_a_blank_kept_as_a_space() {
    let p = prepare_proposal(
        1,
        2,
        3,
        "text".to_string(),
        String::new(),
        "https://t.me/mychan/15".to_string(),
        Some("album".to_string()),
        0,
        Some("mychan"),
    );
    assert_eq!(p.message_text, " ");
    assert_eq!(p.parent_message_id, Some(15));
    assert_eq!(p.proposal_group_id, "album");
}

#[test]
fn media_keep_their_caption_and_other_links() {
    let p = prepare_proposal(
        1,
        2,
        3,
        "photo".to_string(),
        "file".to_string(),
        "https://t.me/other/3".to_string(),
        None,
        0,
        Some("mychan"),
    );
    assert_eq!(p.message_text, "https://t.me/other/3");
    assert_eq!(p.parent_message_id, None);
    let p = prepare_proposal(1, 2, 3, "photo".into(), "f".into(), String::new(), None, 0, None);
    assert_eq!(p.message_text, "");
}

#[test]
fn answers_keep_their_text() {
    let p = prepare_reply(1, 2, 3, "text".into(), String::new(), "  hi  ".into(), None, 40);
    assert_eq!(p.message_text, "  hi  ");
    assert_eq!(p.parent_message_id, Some(40));
    assert!(p.proposal_group_id.starts_with("single_"));
}

#[test]
fn only_active_moderators_are_notified() {
    let a = |id: i64, frozen: bool| Admin {
        id: 0,
        bot_id: 1,
        user_id: id,
        user_name: String::new(),
        frozen,
    };
    assert_eq!(notification_recipients(&[a(1, false), a(2, true), a(3, false)]), vec![1, 3]);
    assert!(notification_recipients(&[]).is_empty());
}

#[test]
fn answers_reply_to_their_post() {
    assert_eq!(reply_target(None), ReplyTarget::NoReply);
    assert_eq!(reply_target(Some(-15)), ReplyTarget::Post(15));
    assert_eq!(reply_target(Some(8)), ReplyTarget::StoredMessage(8));
    assert_eq!(reply_target(Some(0)), ReplyTarget::StoredMessage(0));
    assert_eq!(reply_target(Some(-(i32::MAX as i64))), ReplyTarget::Post(i32::MAX));
    assert_eq!(reply_target(Some(-(1i64 << 32) - 7)), ReplyTarget::Post(7));
}

fn message(id: u64, created_at: i64) -> ProposalMessage {
    ProposalMessage {
        id,
        sender_id: 9,
        message_text: "t".into(),
        media_type: "text".into(),
        media_file_id: String::new(),
        media_group_id: None,
        proposal_group_id: "g".into(),
        parent_message_id: None,
        created_at,
    }
}

#[test]
fn a_proposal_card_shows_count_header_and_buttons() {
    let l = l10n();
    let p = Proposal { group_id: "g".into(), messages: vec![message(12, 0), message(13, 5)] };
    let card = proposal_card(&l, Locale::En, &p);
    assert_eq!(card.count_text, "2 item(s)");
    assert_eq!(card.header_text, "#12 from 01.01.1970 00:00");
    assert_eq!(
        card.keyboard,
        vec![vec![btn("Approve", "approve_12"), btn("Отклонить", "reject_12")]]
    );
}

#[test]
fn the_reject_menu_offers_reason_next_and_ban() {
    let l = l10n();
    let (text, kb) = reject_menu(&l, Locale::Ru, 31);
    assert_eq!(text, "choose_action");
    assert_eq!(
        kb,
        vec![vec![btn("reason_btn", "reason_31"), btn("next_btn", "next"), btn("ban_btn", "ban_reason_31")]]
    );
}
