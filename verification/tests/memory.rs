use posterbot_constructor::memory::ProposalStore;
use posterbot_constructor::models::IncomingProposal;

fn make_proposal(chat_id: i64, msg_id: i32, group_id: &str) -> IncomingProposal {
    IncomingProposal {
        chat_id,
        telegram_message_id: msg_id,
        sender_id: 123,
        message_text: "test text".into(),
        media_type: "photo".into(),
        media_file_id: "file_123".into(),
        media_group_id: if group_id.starts_with("mg_") {
            Some(group_id.to_string())
        } else {
            None
        },
        proposal_group_id: group_id.to_string(),
        parent_message_id: None,
    }
}

#[test]
fn test_push_and_pop_single() {
    let mut store = ProposalStore::new();
    let p = make_proposal(1, 10, "single_1");

    assert!(store.push(p, 0));

    let popped = store.pop_next(0).unwrap();
    assert_eq!(popped.group_id, "single_1");
    assert_eq!(popped.messages.len(), 1);
}

#[test]
fn test_deduplication() {
    let mut store = ProposalStore::new();
    let p1 = make_proposal(1, 10, "single_1");
    let p2 = make_proposal(1, 10, "single_1");

    assert!(store.push(p1, 0));
    assert!(!store.push(p2, 0));

    let popped = store.pop_next(0).unwrap();
    assert_eq!(popped.messages.len(), 1);
}

#[test]
fn test_media_group_aggregation() {
    let mut store = ProposalStore::new();
    let p1 = make_proposal(1, 10, "mg_album_1");
    let p2 = make_proposal(1, 11, "mg_album_1");
    let p3 = make_proposal(1, 12, "mg_album_1");

    store.push(p1, 0);
    store.push(p2, 0);
    store.push(p3, 0);

    let popped = store.pop_next(0).unwrap();
    assert_eq!(popped.group_id, "mg_album_1");
    assert_eq!(popped.messages.len(), 3);
}

#[test]
fn test_reject_and_restore() {
    let mut store = ProposalStore::new();
    store.push(make_proposal(1, 10, "single_1"), 0);

    let popped = store.pop_next(0).unwrap();
    let id = popped.first().id;

    let rejected = store.reject(id);
    assert!(rejected.is_some());

    assert!(store.pop_next(0).is_none());

    let restored = store.return_to_pending(id);
    assert!(restored.is_some());

    let repopped = store.pop_next(0).unwrap();
    assert_eq!(repopped.first().id, id);
}

#[test]
fn expired_reservation_returns_to_queue() {
    let mut store = ProposalStore::new();
    store.push(make_proposal(1, 10, "single_a"), 0);
    store.push(make_proposal(1, 11, "single_b"), 0);
    let a = store.pop_next(1_000).unwrap();
    assert_eq!(a.group_id, "single_a");
    // Within the reservation time: the next one is b.
    let b = store.pop_next(1_000 + 600_000).unwrap();
    assert_eq!(b.group_id, "single_b");
    // a's reservation (made at 1000) has now expired; b's has not.
    let again = store.pop_next(1_000 + 600_001).unwrap();
    assert_eq!(again.group_id, "single_a");
    assert!(store.take_active(b.first().id).is_some());
    assert!(store.take_active(b.first().id).is_none());
}

#[test]
fn rejected_sender_and_discard() {
    let mut store = ProposalStore::new();
    store.push(make_proposal(5, 1, "single_x"), 0);
    let p = store.pop_next(0).unwrap();
    let id = p.first().id;
    assert_eq!(id, 1);
    assert_eq!(store.rejected_sender(id), None);
    store.reject(id).unwrap();
    assert_eq!(store.rejected_sender(id), Some(123));
    let taken = store.take_rejected(id).unwrap();
    assert_eq!(store.rejected_sender(id), None);
    store.restore_rejected(taken);
    assert_eq!(store.rejected_sender(id), Some(123));
    store.discard_rejected(id);
    assert!(store.return_to_pending(id).is_none());
    store.requeue(p);
    assert_eq!(store.pop_next(0).unwrap().first().id, id);
}

#[test]
fn showing_proposals_loses_none() {
    let mut store = ProposalStore::new();
    store.push(make_proposal(1, 10, "single_a"), 0);
    store.push(make_proposal(1, 11, "single_b"), 0);
    store.push(make_proposal(1, 12, "single_c"), 0);
    let a = store.pop_next(0).unwrap();
    let b = store.pop_next(0).unwrap();
    // Both reservations expire; they go back behind c, oldest first.
    let c = store.pop_next(700_000).unwrap();
    let a2 = store.pop_next(700_000).unwrap();
    let b2 = store.pop_next(700_000).unwrap();
    assert_eq!(c.group_id, "single_c");
    assert_eq!(a2.first().id, a.first().id);
    assert_eq!(b2.first().id, b.first().id);
    assert!(store.pop_next(700_000).is_none());
    // Each of the three is reserved exactly once.
    assert!(store.take_active(a.first().id).is_some());
    assert!(store.take_active(b.first().id).is_some());
    assert!(store.take_active(c.first().id).is_some());
    assert!(store.take_active(a.first().id).is_none());
}

#[test]
fn an_id_is_free_once_its_proposal_is_taken() {
    let mut store = ProposalStore::new();
    assert!(store.ids_left());
    assert!(!store.is_free(1));
    store.push(make_proposal(1, 10, "single_a"), 0);
    assert!(!store.is_free(1));
    let a = store.pop_next(0).unwrap();
    let id = a.first().id;
    assert!(!store.is_free(id));
    let taken = store.take_active(id).unwrap();
    assert!(store.is_free(id));
    store.requeue(taken);
    assert!(!store.is_free(id));
    assert!(!store.is_free(id + 1));
}

#[test]
fn the_same_message_number_in_another_chat_is_taken() {
    let mut store = ProposalStore::new();
    assert!(store.push(make_proposal(1, 10, "single_a"), 0));
    assert!(store.push(make_proposal(2, 10, "single_b"), 0));
    assert!(store.push(make_proposal(-1, 10, "single_c"), 0));
    assert!(store.push(make_proposal(1, -10, "single_d"), 0));
    assert!(!store.push(make_proposal(2, 10, "single_e"), 0));
}
