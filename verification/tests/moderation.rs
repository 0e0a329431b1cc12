use posterbot_constructor::conversations::{InputKind, PendingInput};
use posterbot_constructor::master_flow::Onboarding;
use posterbot_constructor::models::IncomingProposal;
use posterbot_constructor::moderation::{Moderation, ReasonStep};
use posterbot_constructor::worker_flow::PublishOutcome;

fn incoming(chat_id: i64, msg_id: i32, sender: i64, group: &str) -> IncomingProposal {
    IncomingProposal {
        chat_id,
        telegram_message_id: msg_id,
        sender_id: sender,
        message_text: "hello".into(),
        media_type: "text".into(),
        media_file_id: String::new(),
        media_group_id: None,
        proposal_group_id: group.to_string(),
        parent_message_id: None,
    }
}

#[test]
fn an_answer_mode_ends_with_the_answer() {
    let mut m = Moderation::new();
    m.expect_answer(7, 15);
    assert_eq!(
        m.pending_input(7),
        Some(PendingInput { kind: InputKind::Answer, target: 15, proposal_id: 0 })
    );
    assert!(m.submit_answer(7, incoming(7, 1, 7, "single_a"), 0));
    assert_eq!(m.pending_input(7), None);
    m.expect_answer(7, 16);
    // The same message again is refused and the question stays.
    assert!(!m.submit_answer(7, incoming(7, 1, 7, "single_a"), 0));
    assert!(m.pending_input(7).is_some());
}

#[test]
fn approving_hands_out_the_reserved_proposal_once() {
    let mut m = Moderation::new();
    assert!(m.submit(incoming(1, 1, 50, "single_a"), 0));
    let p = m.next(0).unwrap();
    let id = p.first().id as i64;
    assert!(m.approve(-1).is_none());
    let approved = m.approve(id).unwrap();
    assert_eq!(approved.group_id, "single_a");
    assert!(m.approve(id).is_none());
    assert!(!m.after_publish(approved, PublishOutcome::Failed));
    assert_eq!(m.next(0).unwrap().first().id as i64, id);
}

#[test]
fn a_reason_reaches_the_sender_once() {
    let mut m = Moderation::new();
    m.submit(incoming(1, 1, 50, "single_a"), 0);
    let id = m.next(0).unwrap().first().id as i64;
    assert!(!m.reject(id + 1));
    assert!(m.reject(id));
    assert!(!m.reject(id));
    assert_eq!(m.ask_reason(9, id + 1, false), None);
    assert_eq!(m.ask_reason(9, id, false), Some(50));
    assert!(matches!(m.take_reason(9), ReasonStep::Send(50)));
    assert!(matches!(m.take_reason(9), ReasonStep::NotAsked));
    assert_eq!(m.ask_reason(9, id, false), None);
}

#[test]
fn a_failed_ban_keeps_the_rejection_open() {
    let mut m = Moderation::new();
    m.submit(incoming(1, 1, 50, "single_a"), 0);
    let id = m.next(0).unwrap().first().id as i64;
    m.reject(id);
    assert_eq!(m.ask_reason(9, id, true), Some(50));
    let p = match m.take_reason(9) {
        ReasonStep::Ban(50, p) => p,
        other => panic!("{other:?}"),
    };
    // While the ban is pending the proposal is taken out.
    assert_eq!(m.ask_reason(8, id, false), None);
    m.ban_failed(p);
    assert_eq!(
        m.pending_input(9),
        Some(PendingInput { kind: InputKind::BanReason, target: 50, proposal_id: id as u64 })
    );
    assert!(matches!(m.take_reason(9), ReasonStep::Ban(50, _)));
    m.ban_stored(9);
    assert_eq!(m.pending_input(9), None);
}

#[test]
fn a_closed_rejection_is_gone() {
    let mut m = Moderation::new();
    m.submit(incoming(1, 1, 50, "single_a"), 0);
    let id = m.next(0).unwrap().first().id as i64;
    m.reject(id);
    m.ask_reason(9, id, false);
    m.ask_reason(8, id, false);
    assert!(matches!(m.take_reason(8), ReasonStep::Send(50)));
    assert!(matches!(m.take_reason(9), ReasonStep::Gone));
    assert_eq!(m.pending_input(9), None);
}

#[test]
fn a_token_is_read_only_when_asked_for() {
    let mut o = Onboarding::new();
    assert_eq!(o.token_in(5, "123:abc"), None);
    o.ask_token(5);
    assert_eq!(o.token_in(5, " 123:abc "), Some("123:abc".to_string()));
    assert_eq!(o.token_in(6, "123:abc"), None);
    o.finish(5);
    assert_eq!(o.token_in(5, "123:abc"), None);
}

#[test]
fn only_a_known_post_moves_on() {
    let mut m = Moderation::new();
    m.submit(incoming(1, 1, 50, "single_a"), 0);
    m.submit(incoming(1, 2, 51, "single_b"), 0);
    let a = m.next(0).unwrap();
    let a = m.approve(a.first().id as i64).unwrap();
    assert!(m.after_publish(a, PublishOutcome::Posted(77)));
    let b = m.next(0).unwrap();
    let b = m.approve(b.first().id as i64).unwrap();
    assert!(!m.after_publish(b, PublishOutcome::PostedWithoutId));
    assert!(m.next(0).is_none());
}
