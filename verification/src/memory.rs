//! The in-memory queue of proposals awaiting moderation.
//!
//! Incoming messages are deduplicated by (chat, message) and grouped by
//! proposal group (an album arrives as several messages). A proposal shown
//! to a moderator is reserved ("active") until it is decided, or until its
//! reservation expires and it goes back to the end of the queue. Rejected
//! proposals are kept until the moderator has sent (or skipped) a reason.

use vstd::prelude::*;
use vstd::multiset::Multiset;
use std::collections::{HashMap, HashSet, VecDeque};

use crate::models::{IncomingProposal, Proposal, ProposalMessage, ProposalView};

verus! {

/// How long a proposal shown to a moderator stays reserved, in milliseconds.
pub const ACTIVE_TTL_MS: u64 = 600000;

/// When more message keys than this are remembered, the memory of seen
/// messages is reset before the next message is taken.
pub const SEEN_LIMIT: usize = 50000;

// ----- lists of entries keyed by an id -----

/// The value of the first entry with key `k`.
pub open spec fn find_key<V>(s: Seq<(u64, V)>, k: u64) -> Option<V>
    decreases s.len(),
{
    if s.len() == 0 {
        None
    } else if s[0].0 == k {
        Some(s[0].1)
    } else {
        find_key(s.drop_first(), k)
    }
}

/// The entries without the first entry with key `k`.
pub open spec fn remove_key<V>(s: Seq<(u64, V)>, k: u64) -> Seq<(u64, V)>
    decreases s.len(),
{
    if s.len() == 0 {
        s
    } else if s[0].0 == k {
        s.drop_first()
    } else {
        seq![s[0]] + remove_key(s.drop_first(), k)
    }
}

/// The entries with `k` mapped to `v`: any entry of `k` is dropped and the
/// new one goes last.
pub open spec fn put_key<V>(s: Seq<(u64, V)>, k: u64, v: V) -> Seq<(u64, V)> {
    remove_key(s, k).push((k, v))
}

/// No key occurs twice.
pub open spec fn distinct_keys<V>(s: Seq<(u64, V)>) -> bool {
    forall|i: int, j: int| 0 <= i < j < s.len() ==> s[i].0 != s[j].0
}

proof fn lemma_key_at<V>(s: Seq<(u64, V)>, i: int, k: u64)
    requires
        0 <= i < s.len(),
        s[i].0 == k,
        forall|j: int| 0 <= j < i ==> s[j].0 != k,
    ensures
        find_key(s, k) == Some(s[i].1),
        remove_key(s, k) == s.remove(i),
    decreases i,
{
    if i > 0 {
        lemma_key_at(s.drop_first(), i - 1, k);
        assert(seq![s[0]] + s.drop_first().remove(i - 1) =~= s.remove(i));
    } else {
        assert(s.drop_first() =~= s.remove(0));
    }
}

proof fn lemma_key_absent<V>(s: Seq<(u64, V)>, k: u64)
    requires
        forall|j: int| 0 <= j < s.len() ==> s[j].0 != k,
    ensures
        find_key(s, k) is None,
        remove_key(s, k) == s,
    decreases s.len(),
{
    if s.len() > 0 {
        lemma_key_absent(s.drop_first(), k);
        assert(seq![s[0]] + s.drop_first() =~= s);
    }
}

/// Removing a key keeps the other keys distinct, drops the key, and keeps
/// only entries that were there.
proof fn lemma_remove_key<V>(s: Seq<(u64, V)>, k: u64)
    requires
        distinct_keys(s),
    ensures
        distinct_keys(remove_key(s, k)),
        forall|j: int| 0 <= j < remove_key(s, k).len() ==> remove_key(s, k)[j].0 != k,
        forall|j: int|
            0 <= j < remove_key(s, k).len() ==> s.contains(#[trigger] remove_key(s, k)[j]),
{
    if exists|i: int| 0 <= i < s.len() && s[i].0 == k {
        let i = choose|i: int| 0 <= i < s.len() && s[i].0 == k;
        lemma_key_at(s, i, k);
        let r = s.remove(i);
        assert forall|j: int| 0 <= j < r.len() implies s.contains(#[trigger] r[j]) by {
            if j < i {
                assert(r[j] == s[j]);
            } else {
                assert(r[j] == s[j + 1]);
            }
        }
    } else {
        lemma_key_absent(s, k);
        assert forall|j: int| 0 <= j < s.len() implies s.contains(#[trigger] s[j]) by {}
    }
}

/// Putting a key keeps keys distinct; each entry is the new one or an old
/// one.
proof fn lemma_put_key<V>(s: Seq<(u64, V)>, k: u64, v: V)
    requires
        distinct_keys(s),
    ensures
        distinct_keys(put_key(s, k, v)),
        forall|j: int|
            0 <= j < put_key(s, k, v).len() ==> #[trigger] put_key(s, k, v)[j] == (k, v) || s.contains(
                put_key(s, k, v)[j],
            ),
        find_key(put_key(s, k, v), k) == Some(v),
{
    lemma_remove_key(s, k);
    let r = remove_key(s, k);
    let p = r.push((k, v));
    assert forall|j: int| 0 <= j < p.len() implies #[trigger] p[j] == (k, v) || s.contains(p[j]) by {
        if j < r.len() {
            assert(p[j] == r[j]);
        }
    }
    lemma_key_at(p, r.len() as int, k);
}

proof fn lemma_find_none<V>(s: Seq<(u64, V)>, k: u64)
    requires
        find_key(s, k) is None,
    ensures
        remove_key(s, k) == s,
    decreases s.len(),
{
    if s.len() > 0 {
        lemma_find_none(s.drop_first(), k);
        assert(seq![s[0]] + s.drop_first() =~= s);
    }
}

fn index_of_key<V>(v: &Vec<(u64, V)>, k: u64) -> (res: Option<usize>)
    ensures
        match res {
            Some(i) => i < v.len() && v@[i as int].0 == k && forall|j: int| 0 <= j < i ==> v@[j].0 != k,
            None => forall|j: int| 0 <= j < v.len() ==> v@[j].0 != k,
        },
{
    let mut i: usize = 0;
    while i < v.len()
        invariant
            i <= v.len(),
            forall|j: int| 0 <= j < i ==> v@[j].0 != k,
        decreases v.len() - i,
    {
        if v[i].0 == k {
            return Some(i);
        }
        i = i + 1;
    }
    None
}

// ----- the store -----

/// Whether a reservation made at `at` has expired at `now` (milliseconds
/// of a monotonic clock; a clock reading before `at` counts as no time).
pub open spec fn is_stale(at: u64, now: u64) -> bool {
    now > at && now - at > ACTIVE_TTL_MS
}

/// A reserved proposal with the time it was reserved, filed under an id.
pub type ActiveView = Seq<(u64, (ProposalView, u64))>;

/// The reservations that have not expired at `now`, in order.
pub open spec fn fresh_entries(s: ActiveView, now: u64) -> ActiveView
    decreases s.len(),
{
    if s.len() == 0 {
        s
    } else if is_stale(s[0].1.1, now) {
        fresh_entries(s.drop_first(), now)
    } else {
        seq![s[0]] + fresh_entries(s.drop_first(), now)
    }
}

/// The proposals whose reservation has expired at `now`, in order.
pub open spec fn stale_proposals(s: ActiveView, now: u64) -> Seq<ProposalView>
    decreases s.len(),
{
    if s.len() == 0 {
        Seq::empty()
    } else if is_stale(s[0].1.1, now) {
        seq![s[0].1.0] + stale_proposals(s.drop_first(), now)
    } else {
        stale_proposals(s.drop_first(), now)
    }
}

/// A proposal that can be shown: it has a first message.
pub open spec fn proposal_ok(p: ProposalView) -> bool {
    p.messages.len() > 0
}

/// A proposal filed under the id of its first message.
pub open spec fn filed_under(k: u64, p: ProposalView) -> bool {
    proposal_ok(p) && p.messages[0].id == k
}

/// The state of the queue as values.
#[verifier::ext_equal]
pub struct StoreView {
    /// The id the next message will get.
    pub next_id: u64,
    /// Proposals waiting to be shown, first in line first.
    pub pending: Seq<ProposalView>,
    /// Proposals shown to a moderator and not yet decided.
    pub active: ActiveView,
    /// Rejected proposals whose rejection is not yet closed.
    pub rejected: Map<u64, ProposalView>,
    /// The (chat, message) keys taken since the last reset, each as
    /// `seen_key` writes it.
    pub seen: Set<i128>,
}

/// The ids the waiting proposals are filed under (the ids of their first
/// messages), first in line first.
pub open spec fn waiting_ids(pending: Seq<ProposalView>) -> Seq<u64> {
    pending.map_values(|p: ProposalView| p.messages[0].id)
}

impl StoreView {
    /// Each id is held by one proposal at most, waiting, reserved or
    /// rejected, and every id held was given out before `next_id`.
    pub open spec fn ids_apart(self) -> bool {
        let w = waiting_ids(self.pending);
        &&& forall|i: int, j: int| 0 <= i < j < w.len() ==> w[i] != w[j]
        &&& forall|i: int, j: int|
            0 <= i < w.len() && 0 <= j < self.active.len() ==> w[i] != self.active[j].0
        &&& forall|i: int| 0 <= i < w.len() ==> !self.rejected.contains_key(w[i]) && w[i] < self.next_id
        &&& forall|j: int|
            0 <= j < self.active.len() ==> !self.rejected.contains_key(self.active[j].0)
                && self.active[j].0 < self.next_id
        &&& forall|k: u64| self.rejected.contains_key(k) ==> k < self.next_id
    }

    /// Whether `id` was given out already and no proposal holds it now.
    pub open spec fn id_free(self, id: u64) -> bool {
        &&& id < self.next_id
        &&& forall|i: int| 0 <= i < self.pending.len() ==> waiting_ids(self.pending)[i] != id
        &&& forall|j: int| 0 <= j < self.active.len() ==> self.active[j].0 != id
        &&& !self.rejected.contains_key(id)
    }

    /// Reserved and rejected proposals are filed under the id of their
    /// first message, once each; no id is held by two proposals; every
    /// proposal has a first message.
    pub open spec fn wf(self) -> bool {
        &&& distinct_keys(self.active)
        &&& self.ids_apart()
        &&& forall|i: int| 0 <= i < self.pending.len() ==> proposal_ok(#[trigger] self.pending[i])
        &&& forall|i: int|
            0 <= i < self.active.len() ==> filed_under(
                #[trigger] self.active[i].0,
                self.active[i].1.0,
            )
        &&& forall|k: u64| #[trigger] self.rejected.contains_key(k) ==> filed_under(k, self.rejected[k])
    }
}

/// The queued form of an incoming message.
pub open spec fn queued_message(msg: IncomingProposal, id: u64, created_at: i64) -> ProposalMessage {
    ProposalMessage {
        id,
        sender_id: msg.sender_id,
        message_text: msg.message_text,
        media_type: msg.media_type,
        media_file_id: msg.media_file_id,
        media_group_id: msg.media_group_id,
        proposal_group_id: msg.proposal_group_id,
        parent_message_id: msg.parent_message_id,
        created_at,
    }
}

/// The queue with `m` added to the first waiting proposal of its group, or
/// as a new proposal at the end when none of its group waits.
pub open spec fn add_to_group(pending: Seq<ProposalView>, m: ProposalMessage) -> Seq<ProposalView>
    decreases pending.len(),
{
    if pending.len() == 0 {
        seq![ProposalView { group_id: m.proposal_group_id@, messages: seq![m] }]
    } else if pending[0].group_id == m.proposal_group_id@ {
        pending.update(
            0,
            ProposalView { group_id: pending[0].group_id, messages: pending[0].messages.push(m) },
        )
    } else {
        seq![pending[0]] + add_to_group(pending.drop_first(), m)
    }
}

/// The id after `id`, wrapping around at the top of `u64`.
pub open spec fn next_id_after(id: u64) -> u64 {
    if id == u64::MAX {
        0
    } else {
        (id + 1) as u64
    }
}

/// The key a (chat, message) pair is remembered under: one integer, a
/// different one for each pair.
pub open spec fn seen_key(chat_id: i64, message_id: i32) -> i128 {
    (chat_id * 4294967296 + (message_id + 2147483648)) as i128
}

/// Different (chat, message) pairs are remembered under different keys.
pub proof fn lemma_seen_key_distinct(c1: i64, m1: i32, c2: i64, m2: i32)
    requires
        c1 != c2 || m1 != m2,
    ensures
        seen_key(c1, m1) != seen_key(c2, m2),
{
    let a: int = m1 + 2147483648;
    let b: int = m2 + 2147483648;
    assert(0 <= a < 4294967296 && 0 <= b < 4294967296);
    if c1 != c2 {
        assert((c1 - c2) * 4294967296 != b - a) by (nonlinear_arith)
            requires
                c1 != c2,
                0 <= a < 4294967296,
                0 <= b < 4294967296,
        ;
    }
}

/// The seen keys as they are before a message is taken: reset when over
/// the limit.
pub open spec fn seen_before_push(seen: Set<i128>) -> Set<i128> {
    if seen.len() > SEEN_LIMIT {
        Set::empty()
    } else {
        seen
    }
}

/// What taking an incoming message does: a message already seen is
/// refused; otherwise it gets the next id and joins its group.
pub open spec fn push_effect(s: StoreView, msg: IncomingProposal, created_at: i64) -> (StoreView, bool) {
    let seen0 = seen_before_push(s.seen);
    let key = seen_key(msg.chat_id, msg.telegram_message_id);
    if seen0.contains(key) {
        (StoreView { seen: seen0, ..s }, false)
    } else {
        (
            StoreView {
                next_id: next_id_after(s.next_id),
                pending: add_to_group(s.pending, queued_message(msg, s.next_id, created_at)),
                seen: seen0.insert(key),
                ..s
            },
            true,
        )
    }
}

/// What showing the next proposal does at time `now`: expired reservations
/// go back to the end of the queue; then the first waiting proposal, if
/// any, is reserved under its id and returned.
pub open spec fn pop_effect(s: StoreView, now: u64) -> (StoreView, Option<ProposalView>) {
    let mid = s.pending + stale_proposals(s.active, now);
    let kept = fresh_entries(s.active, now);
    if mid.len() == 0 {
        (StoreView { pending: mid, active: kept, ..s }, None)
    } else {
        let p = mid[0];
        (
            StoreView {
                pending: mid.drop_first(),
                active: put_key(kept, p.messages[0].id, (p, now)),
                ..s
            },
            Some(p),
        )
    }
}

/// What deciding on a reserved proposal does: its reservation ends and it
/// is returned.
pub open spec fn take_active_effect(s: StoreView, id: u64) -> (StoreView, Option<ProposalView>) {
    (
        StoreView { active: remove_key(s.active, id), ..s },
        match find_key(s.active, id) {
            Some(e) => Some(e.0),
            None => None,
        },
    )
}

/// What rejecting a reserved proposal does: it moves to the rejected ones.
pub open spec fn reject_effect(s: StoreView, id: u64) -> (StoreView, Option<ProposalView>) {
    match find_key(s.active, id) {
        Some(e) => (
            StoreView {
                active: remove_key(s.active, id),
                rejected: s.rejected.insert(id, e.0),
                ..s
            },
            Some(e.0),
        ),
        None => (s, None),
    }
}

/// What putting a rejected proposal back in line does: it goes first.
pub open spec fn return_effect(s: StoreView, id: u64) -> (StoreView, Option<ProposalView>) {
    match s.rejected.get(id) {
        Some(p) => (
            StoreView { rejected: s.rejected.remove(id), pending: seq![p] + s.pending, ..s },
            Some(p),
        ),
        None => (s, None),
    }
}

/// An optional proposal as a value.
pub open spec fn opt_view(p: Option<Proposal>) -> Option<ProposalView> {
    match p {
        Some(q) => Some(q@),
        None => None,
    }
}

/// The queue of proposals of one worker bot.
///
/// Reservations are kept in the order they were made, one per id, so that
/// expired ones go back to the queue oldest first; the taken (chat,
/// message) keys are kept as a list that holds each key once.
pub struct ProposalStore {
    next_id: u64,
    pending: VecDeque<Proposal>,
    active: Vec<(u64, (Proposal, u64))>,
    rejected: HashMap<u64, Proposal>,
    seen: HashSet<i128>,
}

/// Waiting proposals as values.
pub open spec fn pending_view(v: Seq<Proposal>) -> Seq<ProposalView> {
    v.map_values(|p: Proposal| p@)
}

/// Reservations as values.
pub open spec fn active_view(v: Seq<(u64, (Proposal, u64))>) -> ActiveView {
    v.map_values(|e: (u64, (Proposal, u64))| (e.0, (e.1.0@, e.1.1)))
}

/// Rejected proposals as values.
pub open spec fn rejected_view(m: Map<u64, Proposal>) -> Map<u64, ProposalView> {
    m.map_values(|p: Proposal| p@)
}

impl View for ProposalStore {
    type V = StoreView;

    closed spec fn view(&self) -> StoreView {
        StoreView {
            next_id: self.next_id,
            pending: pending_view(self.pending@),
            active: active_view(self.active@),
            rejected: rejected_view(self.rejected@),
            seen: self.seen@,
        }
    }
}

fn take_active_entry(v: &mut Vec<(u64, (Proposal, u64))>, id: u64) -> (res: Option<(Proposal, u64)>)
    ensures
        active_view(final(v)@) == remove_key(active_view(old(v)@), id),
        match res {
            Some(e) => find_key(active_view(old(v)@), id) == Some((e.0@, e.1)),
            None => find_key(active_view(old(v)@), id) is None,
        },
{
    let ghost s = active_view(v@);
    match index_of_key(v, id) {
        Some(i) => {
            proof {
                lemma_key_at(s, i as int, id);
            }
            let (_, e) = v.remove(i);
            assert(active_view(v@) =~= s.remove(i as int));
            Some(e)
        },
        None => {
            proof {
                lemma_key_absent(s, id);
            }
            None
        },
    }
}

fn put_active_entry(v: &mut Vec<(u64, (Proposal, u64))>, id: u64, p: Proposal, at: u64)
    ensures
        active_view(final(v)@) == put_key(active_view(old(v)@), id, (p@, at)),
{
    let _ = take_active_entry(v, id);
    let ghost before = v@;
    v.push((id, (p, at)));
    assert(active_view(v@) =~= active_view(before).push((id, (p@, at))));
}

proof fn lemma_wf_remove_active(s: StoreView, id: u64)
    requires
        s.wf(),
    ensures
        (StoreView { active: remove_key(s.active, id), ..s }).wf(),
{
    lemma_remove_key(s.active, id);
    let r = remove_key(s.active, id);
    assert forall|i: int| 0 <= i < r.len() implies filed_under(#[trigger] r[i].0, r[i].1.0) by {
        let j = choose|j: int| 0 <= j < s.active.len() && s.active[j] == r[i];
        assert(filed_under(s.active[j].0, s.active[j].1.0));
    }
}

proof fn lemma_find_filed_active(s: ActiveView, id: u64)
    requires
        forall|i: int| 0 <= i < s.len() ==> filed_under(#[trigger] s[i].0, s[i].1.0),
        find_key(s, id) is Some,
    ensures
        filed_under(id, (find_key(s, id)->0).0),
    decreases s.len(),
{
    if s[0].0 != id {
        assert forall|i: int| 0 <= i < s.drop_first().len() implies filed_under(
            #[trigger] s.drop_first()[i].0,
            s.drop_first()[i].1.0,
        ) by {
            assert(s.drop_first()[i] == s[i + 1]);
        }
        lemma_find_filed_active(s.drop_first(), id);
    } else {
        assert(filed_under(s[0].0, s[0].1.0));
    }
}

proof fn lemma_fresh_entries(s: ActiveView, now: u64)
    ensures
        forall|j: int|
            0 <= j < fresh_entries(s, now).len() ==> s.contains(#[trigger] fresh_entries(s, now)[j]),
        distinct_keys(s) ==> distinct_keys(fresh_entries(s, now)),
    decreases s.len(),
{
    if s.len() > 0 {
        let rest = s.drop_first();
        lemma_fresh_entries(rest, now);
        let f = fresh_entries(rest, now);
        assert forall|j: int| 0 <= j < f.len() implies s.contains(#[trigger] f[j]) by {
            let i = choose|i: int| 0 <= i < rest.len() && rest[i] == f[j];
            assert(s[i + 1] == f[j]);
        }
        if !is_stale(s[0].1.1, now) {
            let g = seq![s[0]] + f;
            assert forall|j: int| 0 <= j < g.len() implies s.contains(#[trigger] g[j]) by {
                if j == 0 {
                    assert(s[0] == g[0]);
                } else {
                    assert(g[j] == f[j - 1]);
                }
            }
            if distinct_keys(s) {
                assert(distinct_keys(rest)) by {
                    assert forall|a: int, b: int| 0 <= a < b < rest.len() implies rest[a].0
                        != rest[b].0 by {
                        assert(rest[a] == s[a + 1] && rest[b] == s[b + 1]);
                    }
                }
                assert forall|a: int, b: int| 0 <= a < b < g.len() implies g[a].0 != g[b].0 by {
                    if a == 0 {
                        let i = choose|i: int| 0 <= i < rest.len() && rest[i] == f[b - 1];
                        assert(s[i + 1] == g[b]);
                    } else {
                        assert(g[a] == f[a - 1] && g[b] == f[b - 1]);
                    }
                }
            }
        } else if distinct_keys(s) {
            assert forall|a: int, b: int| 0 <= a < b < rest.len() implies rest[a].0 != rest[b].0 by {
                assert(rest[a] == s[a + 1] && rest[b] == s[b + 1]);
            }
        }
    }
}

proof fn lemma_stale_proposals(s: ActiveView, now: u64)
    requires
        forall|i: int| 0 <= i < s.len() ==> filed_under(#[trigger] s[i].0, s[i].1.0),
    ensures
        forall|j: int|
            0 <= j < stale_proposals(s, now).len() ==> proposal_ok(
                #[trigger] stale_proposals(s, now)[j],
            ),
    decreases s.len(),
{
    if s.len() > 0 {
        let rest = s.drop_first();
        assert forall|i: int| 0 <= i < rest.len() implies filed_under(
            #[trigger] rest[i].0,
            rest[i].1.0,
        ) by {
            assert(rest[i] == s[i + 1]);
        }
        lemma_stale_proposals(rest, now);
        assert(filed_under(s[0].0, s[0].1.0));
        let f = stale_proposals(rest, now);
        if is_stale(s[0].1.1, now) {
            let g = seq![s[0].1.0] + f;
            assert forall|j: int| 0 <= j < g.len() implies proposal_ok(#[trigger] g[j]) by {
                if j > 0 {
                    assert(g[j] == f[j - 1]);
                }
            }
        }
    }
}

proof fn lemma_add_to_group_at(s: Seq<ProposalView>, i: int, m: ProposalMessage)
    requires
        0 <= i < s.len(),
        s[i].group_id == m.proposal_group_id@,
        forall|j: int| 0 <= j < i ==> s[j].group_id != m.proposal_group_id@,
    ensures
        add_to_group(s, m) == s.update(
            i,
            ProposalView { group_id: s[i].group_id, messages: s[i].messages.push(m) },
        ),
    decreases i,
{
    if i > 0 {
        lemma_add_to_group_at(s.drop_first(), i - 1, m);
        assert(seq![s[0]] + s.drop_first().update(
            i - 1,
            ProposalView { group_id: s[i].group_id, messages: s[i].messages.push(m) },
        ) =~= s.update(i, ProposalView { group_id: s[i].group_id, messages: s[i].messages.push(m) }));
    }
}

proof fn lemma_add_to_group_new(s: Seq<ProposalView>, m: ProposalMessage)
    requires
        forall|j: int| 0 <= j < s.len() ==> s[j].group_id != m.proposal_group_id@,
    ensures
        add_to_group(s, m) == s.push(
            ProposalView { group_id: m.proposal_group_id@, messages: seq![m] },
        ),
    decreases s.len(),
{
    if s.len() > 0 {
        lemma_add_to_group_new(s.drop_first(), m);
        assert(seq![s[0]] + s.drop_first().push(
            ProposalView { group_id: m.proposal_group_id@, messages: seq![m] },
        ) =~= s.push(ProposalView { group_id: m.proposal_group_id@, messages: seq![m] }));
    }
}

fn add_to_group_exec(pending: &mut VecDeque<Proposal>, m: ProposalMessage)
    requires
        forall|i: int| 0 <= i < old(pending)@.len() ==> proposal_ok(#[trigger] old(pending)@[i]@),
    ensures
        pending_view(final(pending)@) == add_to_group(pending_view(old(pending)@), m),
        forall|i: int| 0 <= i < final(pending)@.len() ==> proposal_ok(#[trigger] final(pending)@[i]@),
{
    let ghost s = pending_view(pending@);
    let mut i: usize = 0;
    let mut found = false;
    while i < pending.len()
        invariant_except_break
            !found,
            i <= pending.len(),
            forall|j: int| 0 <= j < i ==> s[j].group_id != m.proposal_group_id@,
        invariant
            s == pending_view(pending@),
        ensures
            i <= pending.len(),
            forall|j: int| 0 <= j < i ==> s[j].group_id != m.proposal_group_id@,
            found ==> i < pending.len() && s[i as int].group_id == m.proposal_group_id@,
            !found ==> i == pending.len(),
        decreases pending.len() - i,
    {
        if pending[i].group_id == m.proposal_group_id {
            found = true;
            break;
        }
        i = i + 1;
    }
    if found {
        proof {
            lemma_add_to_group_at(s, i as int, m);
        }
        let mut p = match pending.remove(i) {
            Some(q) => q,
            None => return,
        };
        let ghost pv = p@;
        p.messages.push(m);
        pending.insert(i, p);
        assert(pending_view(pending@) =~= s.update(
            i as int,
            ProposalView { group_id: pv.group_id, messages: pv.messages.push(m) },
        ));
        assert forall|j: int| 0 <= j < pending@.len() implies proposal_ok(#[trigger] pending@[j]@) by {
            if j != i {
                assert(pending_view(pending@)[j] == s[j]);
            }
        }
    } else {
        proof {
            lemma_add_to_group_new(s, m);
        }
        let group_id = m.proposal_group_id.clone();
        let mut messages: Vec<ProposalMessage> = Vec::new();
        messages.push(m);
        pending.push_back(Proposal { group_id, messages });
        assert(pending_view(pending@) =~= s.push(
            ProposalView { group_id: m.proposal_group_id@, messages: seq![m] },
        ));
    }
}

impl ProposalStore {
    /// An empty queue; the first message will get id 1.
    pub fn new() -> (res: ProposalStore)
        ensures
            res@.wf(),
            res@.next_id == 1,
            res@.pending.len() == 0,
            res@.active.len() == 0,
            res@.rejected == Map::<u64, ProposalView>::empty(),
            res@.seen == Set::<i128>::empty(),
    {
        ProposalStore {
            next_id: 1,
            pending: VecDeque::new(),
            active: Vec::new(),
            rejected: HashMap::new(),
            seen: HashSet::new(),
        }
    }

    /// Takes an incoming message received at `created_at`. A message whose
    /// (chat, message) key was already taken is refused and `false` is
    /// returned; otherwise it gets the next id, joins the first waiting
    /// proposal of its group (or starts a new proposal at the end of the
    /// queue), and `true` is returned. The memory of taken keys is reset
    /// first when it holds more than `SEEN_LIMIT` keys.
    pub fn push(&mut self, msg: IncomingProposal, created_at: i64) -> (res: bool)
        requires
            old(self)@.wf(),
            old(self)@.next_id < u64::MAX,
        ensures
            final(self)@.wf(),
            final(self)@ == push_effect(old(self)@, msg, created_at).0,
            res == push_effect(old(self)@, msg, created_at).1,
    {
        broadcast use vstd::std_specs::hash::group_hash_axioms;

        let ghost s = self@;
        let ghost msg0 = msg;
        proof {
            lemma_apart_push(s, msg0, created_at);
        }
        if self.seen.len() > SEEN_LIMIT {
            self.seen.clear();
        }
        assert(self.seen@ =~= seen_before_push(s.seen));
        let key: i128 = (msg.chat_id as i128) * 4294967296 + ((msg.telegram_message_id as i128) + 2147483648);
        assert(key == seen_key(msg0.chat_id, msg0.telegram_message_id));
        if self.seen.contains(&key) {
            assert(self@ =~= push_effect(s, msg0, created_at).0);
            return false;
        }
        self.seen.insert(key);
        let id = self.next_id;
        self.next_id = if id == u64::MAX {
            0
        } else {
            id + 1
        };
        let entry = ProposalMessage {
            id,
            sender_id: msg.sender_id,
            message_text: msg.message_text,
            media_type: msg.media_type,
            media_file_id: msg.media_file_id,
            media_group_id: msg.media_group_id,
            proposal_group_id: msg.proposal_group_id,
            parent_message_id: msg.parent_message_id,
            created_at,
        };
        assert(entry == queued_message(msg0, id, created_at));
        assert forall|i: int| 0 <= i < self.pending@.len() implies proposal_ok(
            #[trigger] self.pending@[i]@,
        ) by {
            assert(s.pending[i] == self.pending@[i]@);
        }
        add_to_group_exec(&mut self.pending, entry);
        assert(self@ =~= push_effect(s, msg0, created_at).0);
        true
    }

    /// Shows the next proposal at time `now` (milliseconds of a monotonic
    /// clock): reservations older than `ACTIVE_TTL_MS` go back to the end of
    /// the queue, then the first waiting proposal is reserved and returned.
    pub fn pop_next(&mut self, now: u64) -> (res: Option<Proposal>)
        requires
            old(self)@.wf(),
        ensures
            final(self)@.wf(),
            final(self)@ == pop_effect(old(self)@, now).0,
            opt_view(res) == pop_effect(old(self)@, now).1,
    {
        let ghost s = self@;
        let ghost a = s.active;
        proof {
            lemma_apart_pop(s, now);
        }
        let mut old_active: Vec<(u64, (Proposal, u64))> = Vec::new();
        std::mem::swap(&mut old_active, &mut self.active);
        assert(active_view(old_active@) == a);
        let mut kept: Vec<(u64, (Proposal, u64))> = Vec::new();
        let mut i: usize = 0;
        assert(a.skip(0) =~= a);
        assert(active_view(kept@) =~= Seq::<(u64, (ProposalView, u64))>::empty());
        while i < old_active.len()
            invariant
                i <= old_active.len(),
                a == active_view(old_active@),
                self.next_id == s.next_id,
                rejected_view(self.rejected@) == s.rejected,
                self.seen@ == s.seen,
                fresh_entries(a, now) == active_view(kept@) + fresh_entries(a.skip(i as int), now),
                s.pending + stale_proposals(a, now) == pending_view(self.pending@)
                    + stale_proposals(a.skip(i as int), now),
            decreases old_active.len() - i,
        {
            let ghost rest = a.skip(i as int);
            assert(rest.drop_first() =~= a.skip(i + 1));
            assert(rest[0] == a[i as int]);
            let k = old_active[i].0;
            let at = old_active[i].1.1;
            let p = old_active[i].1.0.duplicate();
            if now > at && now - at > ACTIVE_TTL_MS {
                let ghost before = pending_view(self.pending@);
                self.pending.push_back(p);
                assert(pending_view(self.pending@) =~= before.push(a[i as int].1.0));
                assert(before + (seq![a[i as int].1.0] + stale_proposals(a.skip(i + 1), now))
                    =~= pending_view(self.pending@) + stale_proposals(a.skip(i + 1), now));
            } else {
                let ghost before = active_view(kept@);
                kept.push((k, (p, at)));
                assert(active_view(kept@) =~= before.push(a[i as int]));
                assert(before + (seq![a[i as int]] + fresh_entries(a.skip(i + 1), now))
                    =~= active_view(kept@) + fresh_entries(a.skip(i + 1), now));
            }
            i = i + 1;
        }
        assert(a.skip(i as int) =~= Seq::<(u64, (ProposalView, u64))>::empty());
        assert(active_view(kept@) + Seq::<(u64, (ProposalView, u64))>::empty() =~= active_view(kept@));
        assert(pending_view(self.pending@) + Seq::<ProposalView>::empty() =~= pending_view(
            self.pending@,
        ));
        self.active = kept;
        let ghost mid = s.pending + stale_proposals(a, now);
        assert(pending_view(self.pending@) == mid);
        proof {
            lemma_fresh_entries(a, now);
            lemma_stale_proposals(a, now);
            let f = fresh_entries(a, now);
            assert forall|j: int| 0 <= j < f.len() implies filed_under(#[trigger] f[j].0, f[j].1.0) by {
                let k = choose|k: int| 0 <= k < a.len() && a[k] == f[j];
                assert(filed_under(a[k].0, a[k].1.0));
            }
            assert forall|j: int| 0 <= j < mid.len() implies proposal_ok(#[trigger] mid[j]) by {
                if j >= s.pending.len() {
                    assert(mid[j] == stale_proposals(a, now)[j - s.pending.len()]);
                }
            }
        }
        assert(self@.active == fresh_entries(a, now));
        assert(self@.pending == mid);
        assert(self@.next_id == s.next_id);
        assert(self@.rejected == s.rejected);
        assert(self@.seen == s.seen);
        if self.pending.len() == 0 {
            assert(self@ =~= pop_effect(s, now).0);
            return None;
        }
        let p = match self.pending.pop_front() {
            Some(q) => q,
            None => return None,
        };
        assert(pending_view(self.pending@) =~= mid.drop_first());
        assert(p@ == mid[0]);
        assert(proposal_ok(mid[0]));
        let id = p.first().id;
        let copy = p.duplicate();
        proof {
            let f = fresh_entries(a, now);
            lemma_put_key(f, id, (p@, now));
            let r = put_key(f, id, (p@, now));
            assert forall|j: int| 0 <= j < r.len() implies filed_under(#[trigger] r[j].0, r[j].1.0) by {
                if r[j] != (id, (p@, now)) {
                    let k = choose|k: int| 0 <= k < f.len() && f[k] == r[j];
                    assert(filed_under(f[k].0, f[k].1.0));
                }
            }
            assert forall|j: int| 0 <= j < mid.drop_first().len() implies proposal_ok(
                #[trigger] mid.drop_first()[j],
            ) by {
                assert(mid.drop_first()[j] == mid[j + 1]);
            }
        }
        put_active_entry(&mut self.active, id, copy, now);
        assert(self@ =~= pop_effect(s, now).0);
        Some(p)
    }

    /// Ends the reservation of proposal `id` and returns it.
    pub fn take_active(&mut self, id: u64) -> (res: Option<Proposal>)
        requires
            old(self)@.wf(),
        ensures
            final(self)@.wf(),
            final(self)@ == take_active_effect(old(self)@, id).0,
            opt_view(res) == take_active_effect(old(self)@, id).1,
            res matches Some(p) ==> p.messages.len() > 0 && p@.messages[0].id == id
                && final(self)@.id_free(id),
    {
        proof {
            lemma_wf_remove_active(self@, id);
            if find_key(self@.active, id) is Some {
                lemma_find_filed_active(self@.active, id);
                lemma_taken_id_free(self@, id);
            }
        }
        let ghost s = self@;
        let e = take_active_entry(&mut self.active, id);
        assert(self@ =~= take_active_effect(s, id).0);
        match e {
            Some((p, _)) => Some(p),
            None => None,
        }
    }

    /// Puts a proposal back at the front of the queue; its id must be free
    /// (as is the id of a proposal just taken off its reservation).
    pub fn requeue(&mut self, proposal: Proposal)
        requires
            old(self)@.wf(),
            proposal.messages.len() > 0,
            old(self)@.id_free(proposal@.messages[0].id),
        ensures
            final(self)@.wf(),
            final(self)@ == (StoreView { pending: seq![proposal@] + old(self)@.pending, ..old(self)@ }),
    {
        let ghost s = self@;
        let ghost pv = proposal@;
        proof {
            lemma_apart_requeue(s, pv);
        }
        self.pending.push_front(proposal);
        assert(pending_view(self.pending@) =~= seq![pv] + s.pending);
        assert(self@ =~= (StoreView { pending: seq![pv] + s.pending, ..s }));
    }

    /// Moves reserved proposal `id` to the rejected ones and returns it.
    pub fn reject(&mut self, id: u64) -> (res: Option<Proposal>)
        requires
            old(self)@.wf(),
        ensures
            final(self)@.wf(),
            final(self)@ == reject_effect(old(self)@, id).0,
            opt_view(res) == reject_effect(old(self)@, id).1,
    {
        broadcast use vstd::std_specs::hash::group_hash_axioms;

        let ghost s = self@;
        proof {
            lemma_apart_reject(s, id);
        }
        match take_active_entry(&mut self.active, id) {
            Some((p, _)) => {
                proof {
                    lemma_find_filed_active(s.active, id);
                    lemma_wf_remove_active(s, id);
                }
                let copy = p.duplicate();
                let ghost before = self.rejected@;
                self.rejected.insert(id, p);
                assert(rejected_view(self.rejected@) =~= rejected_view(before).insert(id, copy@));
                assert(self@ =~= reject_effect(s, id).0);
                Some(copy)
            },
            None => {
                proof {
                    lemma_find_none(s.active, id);
                }
                assert(self@ =~= s);
                None
            },
        }
    }

    /// The sender of rejected proposal `id` (the sender of its first
    /// message).
    pub fn rejected_sender(&self, id: u64) -> (res: Option<i64>)
        requires
            self@.wf(),
        ensures
            res == match self@.rejected.get(id) {
                Some(p) => Some(p.messages[0].sender_id),
                None => None,
            },
    {
        broadcast use vstd::std_specs::hash::group_hash_axioms;

        match self.rejected.get(&id) {
            Some(p) => {
                assert(self@.rejected.contains_key(id));
                assert(self@.rejected[id] == p@);
                Some(p.first().sender_id)
            },
            None => None,
        }
    }

    /// Closes the rejection of proposal `id` and returns it.
    pub fn take_rejected(&mut self, id: u64) -> (res: Option<Proposal>)
        requires
            old(self)@.wf(),
        ensures
            final(self)@.wf(),
            final(self)@ == (StoreView { rejected: old(self)@.rejected.remove(id), ..old(self)@ }),
            opt_view(res) == old(self)@.rejected.get(id),
            res matches Some(p) ==> p.messages.len() > 0 && p@.messages[0].id == id
                && final(self)@.id_free(id),
    {
        broadcast use vstd::std_specs::hash::group_hash_axioms;

        let ghost s = self@;
        let res = self.rejected.remove(&id);
        assert(rejected_view(self.rejected@) =~= s.rejected.remove(id));
        assert(self@ =~= (StoreView { rejected: s.rejected.remove(id), ..s }));
        proof {
            if s.rejected.contains_key(id) {
                assert(filed_under(id, s.rejected[id]));
                let w = waiting_ids(s.pending);
                assert forall|i: int| 0 <= i < s.pending.len() implies w[i] != id by {}
                assert forall|j: int| 0 <= j < s.active.len() implies s.active[j].0 != id by {}
            }
        }
        res
    }

    /// Whether `id` was given out already and no proposal holds it now.
    pub fn is_free(&self, id: u64) -> (r: bool)
        requires
            self@.wf(),
        ensures
            r == self@.id_free(id),
    {
        broadcast use vstd::std_specs::hash::group_hash_axioms;

        let ghost s = self@;
        if id >= self.next_id || self.rejected.contains_key(&id) {
            return false;
        }
        let mut i: usize = 0;
        while i < self.pending.len()
            invariant
                s == self@,
                s.wf(),
                i <= self.pending@.len(),
                forall|k: int| 0 <= k < i ==> waiting_ids(s.pending)[k] != id,
            decreases self.pending@.len() - i,
        {
            assert(s.pending[i as int] == self.pending@[i as int]@);
            assert(proposal_ok(s.pending[i as int]));
            if self.pending[i].first().id == id {
                assert(waiting_ids(s.pending)[i as int] == s.pending[i as int].messages[0].id);
                return false;
            }
            assert(waiting_ids(s.pending)[i as int] == s.pending[i as int].messages[0].id);
            i = i + 1;
        }
        let mut j: usize = 0;
        while j < self.active.len()
            invariant
                s == self@,
                j <= self.active@.len(),
                forall|k: int| 0 <= k < j ==> s.active[k].0 != id,
            decreases self.active@.len() - j,
        {
            assert(s.active[j as int].0 == self.active@[j as int].0);
            if self.active[j].0 == id {
                return false;
            }
            j = j + 1;
        }
        true
    }

    /// Whether ids are left to give to new messages.
    pub fn ids_left(&self) -> (r: bool)
        ensures
            r == (self@.next_id < u64::MAX),
    {
        self.next_id < u64::MAX
    }

    /// Files a proposal among the rejected ones again, under the id of its
    /// first message; that id must be free (as is the id of a proposal just
    /// taken off the rejected ones).
    pub fn restore_rejected(&mut self, proposal: Proposal)
        requires
            old(self)@.wf(),
            proposal.messages.len() > 0,
            old(self)@.id_free(proposal@.messages[0].id),
        ensures
            final(self)@.wf(),
            final(self)@ == (StoreView {
                rejected: old(self)@.rejected.insert(proposal@.messages[0].id, proposal@),
                ..old(self)@
            }),
    {
        broadcast use vstd::std_specs::hash::group_hash_axioms;

        let ghost s = self@;
        let ghost pv = proposal@;
        let id = proposal.first().id;
        proof {
            lemma_apart_restore(s, pv);
        }
        self.rejected.insert(id, proposal);
        assert(rejected_view(self.rejected@) =~= s.rejected.insert(id, pv));
        assert(self@ =~= (StoreView { rejected: s.rejected.insert(id, pv), ..s }));
    }

    /// Forgets rejected proposal `id`.
    pub fn discard_rejected(&mut self, id: u64)
        requires
            old(self)@.wf(),
        ensures
            final(self)@.wf(),
            final(self)@ == (StoreView { rejected: old(self)@.rejected.remove(id), ..old(self)@ }),
    {
        let _ = self.take_rejected(id);
    }

    /// Puts rejected proposal `id` back at the front of the queue and
    /// returns it.
    pub fn return_to_pending(&mut self, id: u64) -> (res: Option<Proposal>)
        requires
            old(self)@.wf(),
        ensures
            final(self)@.wf(),
            final(self)@ == return_effect(old(self)@, id).0,
            opt_view(res) == return_effect(old(self)@, id).1,
    {
        broadcast use vstd::std_specs::hash::group_hash_axioms;

        let ghost s = self@;
        let ghost before = self.rejected@;
        proof {
            lemma_apart_return(s, id);
        }
        match self.rejected.remove(&id) {
            Some(p) => {
                assert(filed_under(id, s.rejected[id]));
                assert(rejected_view(self.rejected@) =~= s.rejected.remove(id));
                let copy = p.duplicate();
                self.pending.push_front(p);
                assert(pending_view(self.pending@) =~= seq![copy@] + s.pending);
                assert(self@ =~= return_effect(s, id).0);
                Some(copy)
            },
            None => {
                assert(self.rejected@ == before.remove(id));
                assert(self.rejected@ =~= before);
                assert(self@ =~= s);
                None
            },
        }
    }
}


// ----- no id is held twice -----

proof fn lemma_find_key_some<V>(s: Seq<(u64, V)>, k: u64)
    ensures
        find_key(s, k) matches Some(v) ==> exists|j: int| 0 <= j < s.len() && s[j].0 == k && s[j].1 == v,
    decreases s.len(),
{
    if s.len() > 0 {
        if s[0].0 == k {
            assert(s[0].0 == k && s[0].1 == find_key(s, k)->0);
        } else {
            let t = s.drop_first();
            lemma_find_key_some(t, k);
            if let Some(v) = find_key(s, k) {
                let j = choose|j: int| 0 <= j < t.len() && t[j].0 == k && t[j].1 == v;
                assert(s[j + 1] == t[j]);
            }
        }
    }
}

proof fn lemma_waiting_ids_add(p: Seq<ProposalView>, m: ProposalMessage)
    requires
        forall|i: int| 0 <= i < p.len() ==> proposal_ok(#[trigger] p[i]),
    ensures
        waiting_ids(add_to_group(p, m)) == waiting_ids(p) || waiting_ids(add_to_group(p, m))
            == waiting_ids(p).push(m.id),
    decreases p.len(),
{
    if p.len() == 0 {
        assert(waiting_ids(add_to_group(p, m)) =~= waiting_ids(p).push(m.id));
    } else if p[0].group_id == m.proposal_group_id@ {
        assert(proposal_ok(p[0]));
        assert(waiting_ids(add_to_group(p, m)) =~= waiting_ids(p));
    } else {
        let rest = p.drop_first();
        assert forall|i: int| 0 <= i < rest.len() implies proposal_ok(#[trigger] rest[i]) by {
            assert(rest[i] == p[i + 1]);
        }
        lemma_waiting_ids_add(rest, m);
        let q = add_to_group(rest, m);
        assert(waiting_ids(add_to_group(p, m)) =~= seq![p[0].messages[0].id] + waiting_ids(q));
        assert(waiting_ids(p) =~= seq![p[0].messages[0].id] + waiting_ids(rest));
        if waiting_ids(q) == waiting_ids(rest) {
            assert(waiting_ids(add_to_group(p, m)) =~= waiting_ids(p));
        } else {
            assert(waiting_ids(add_to_group(p, m)) =~= waiting_ids(p).push(m.id));
        }
    }
}

/// Taking a message gives it an id that no proposal holds.
proof fn lemma_apart_push(s: StoreView, msg: IncomingProposal, created_at: i64)
    requires
        s.wf(),
        s.next_id < u64::MAX,
    ensures
        push_effect(s, msg, created_at).0.ids_apart(),
{
    let s1 = push_effect(s, msg, created_at).0;
    if push_effect(s, msg, created_at).1 {
        let m = queued_message(msg, s.next_id, created_at);
        lemma_waiting_ids_add(s.pending, m);
        let w = waiting_ids(s.pending);
        let w1 = waiting_ids(s1.pending);
        if w1 != w {
            assert(w1 == w.push(s.next_id));
            assert forall|i: int, j: int| 0 <= i < j < w1.len() implies w1[i] != w1[j] by {
                assert(w1[i] == w[i]);
                if j < w.len() {
                    assert(w1[j] == w[j]);
                }
            }
            assert forall|i: int, j: int|
                0 <= i < w1.len() && 0 <= j < s1.active.len() implies w1[i] != s1.active[j].0 by {
                if i < w.len() {
                    assert(w1[i] == w[i]);
                }
            }
            assert forall|i: int| 0 <= i < w1.len() implies !s1.rejected.contains_key(w1[i]) && w1[i]
                < s1.next_id by {
                if i < w.len() {
                    assert(w1[i] == w[i]);
                }
            }
        }
    }
}

/// The expired proposals are filed under distinct keys, each the key of an
/// expired entry.
proof fn lemma_stale_ids(a: ActiveView, now: u64)
    requires
        distinct_keys(a),
        forall|i: int| 0 <= i < a.len() ==> filed_under(#[trigger] a[i].0, a[i].1.0),
    ensures
        forall|i: int, j: int|
            0 <= i < j < stale_proposals(a, now).len() ==> (#[trigger] stale_proposals(a, now)[i]).messages[0].id
                != (#[trigger] stale_proposals(a, now)[j]).messages[0].id,
        forall|j: int|
            0 <= j < stale_proposals(a, now).len() ==> exists|k: int|
                0 <= k < a.len() && a[k].0 == (#[trigger] stale_proposals(a, now)[j]).messages[0].id,
    decreases a.len(),
{
    if a.len() > 0 {
        let rest = a.drop_first();
        assert forall|i: int| 0 <= i < rest.len() implies filed_under(#[trigger] rest[i].0, rest[i].1.0) by {
            assert(rest[i] == a[i + 1]);
        }
        assert forall|x: int, y: int| 0 <= x < y < rest.len() implies rest[x].0 != rest[y].0 by {
            assert(rest[x] == a[x + 1] && rest[y] == a[y + 1]);
        }
        lemma_stale_ids(rest, now);
        let sr = stale_proposals(rest, now);
        assert forall|j: int| 0 <= j < sr.len() implies exists|k: int|
            0 <= k < a.len() && a[k].0 == (#[trigger] sr[j]).messages[0].id by {
            let k = choose|k: int| 0 <= k < rest.len() && rest[k].0 == sr[j].messages[0].id;
            assert(a[k + 1] == rest[k]);
        }
        assert forall|j: int| 0 <= j < sr.len() implies a[0].0 != (#[trigger] sr[j]).messages[0].id by {
            let k = choose|k: int| 0 <= k < rest.len() && rest[k].0 == sr[j].messages[0].id;
            assert(a[k + 1] == rest[k]);
        }
        assert(filed_under(a[0].0, a[0].1.0));
        if is_stale(a[0].1.1, now) {
            let st = seq![a[0].1.0] + sr;
            assert(stale_proposals(a, now) == st);
            assert forall|i: int, j: int| 0 <= i < j < st.len() implies (#[trigger] st[i]).messages[0].id
                != (#[trigger] st[j]).messages[0].id by {
                assert(st[j] == sr[j - 1]);
                if i > 0 {
                    assert(st[i] == sr[i - 1]);
                }
            }
            assert forall|j: int| 0 <= j < st.len() implies exists|k: int|
                0 <= k < a.len() && a[k].0 == (#[trigger] st[j]).messages[0].id by {
                if j == 0 {
                    assert(a[0].0 == st[0].messages[0].id);
                } else {
                    assert(st[j] == sr[j - 1]);
                }
            }
        } else {
            assert(stale_proposals(a, now) == sr);
        }
    }
}

/// Showing the next proposal keeps every id held by one proposal at most.
proof fn lemma_apart_pop(s: StoreView, now: u64)
    requires
        s.wf(),
    ensures
        pop_effect(s, now).0.ids_apart(),
{
    let a = s.active;
    let kept = fresh_entries(a, now);
    let st = stale_proposals(a, now);
    let mid = s.pending + st;
    let w = waiting_ids(s.pending);
    let wm = waiting_ids(mid);
    lemma_expiry_splits(a, now);
    lemma_stale_filed(a, now);
    lemma_stale_ids(a, now);
    assert forall|i: int| 0 <= i < wm.len() implies (if i < w.len() {
        wm[i] == w[i]
    } else {
        wm[i] == st[i - w.len()].messages[0].id
    }) by {
        assert(mid[i] == (if i < w.len() { s.pending[i] } else { st[i - w.len()] }));
    }
    // what the ids of the queue after expiry hold
    assert forall|i: int| 0 <= i < wm.len() implies !s.rejected.contains_key(#[trigger] wm[i]) && wm[i]
        < s.next_id && (forall|x: int| 0 <= x < kept.len() ==> kept[x].0 != wm[i]) by {
        if i >= w.len() {
            let j = i - w.len();
            let k = choose|k: int| 0 <= k < a.len() && a[k].0 == st[j].messages[0].id;
            assert(a[k].0 == wm[i]);
            assert forall|x: int| 0 <= x < kept.len() implies kept[x].0 != wm[i] by {
                let y = choose|y: int| 0 <= y < a.len() && a[y] == kept[x] && !is_stale(a[y].1.1, now);
                if a[y].0 == wm[i] {
                    assert forall|z: int| 0 <= z < y implies a[z].0 != wm[i] by {}
                    lemma_key_at(a, y, wm[i]);
                }
            }
        } else {
            assert forall|x: int| 0 <= x < kept.len() implies kept[x].0 != wm[i] by {
                let y = choose|y: int| 0 <= y < a.len() && a[y] == kept[x] && !is_stale(a[y].1.1, now);
                assert(w[i] != a[y].0);
            }
        }
    }
    assert forall|i: int, j: int| 0 <= i < j < wm.len() implies wm[i] != wm[j] by {
        if j < w.len() {
        } else if i >= w.len() {
            assert(st[i - w.len()].messages[0].id != st[j - w.len()].messages[0].id);
        } else {
            let k = choose|k: int| 0 <= k < a.len() && a[k].0 == st[j - w.len()].messages[0].id;
            assert(w[i] != a[k].0);
        }
    }
    assert forall|x: int| 0 <= x < kept.len() implies !s.rejected.contains_key(#[trigger] kept[x].0)
        && kept[x].0 < s.next_id by {
        let y = choose|y: int| 0 <= y < a.len() && a[y] == kept[x] && !is_stale(a[y].1.1, now);
        assert(a[y].0 == kept[x].0);
    }
    let s1 = pop_effect(s, now).0;
    if mid.len() == 0 {
        assert(waiting_ids(s1.pending) =~= wm);
    } else {
        let p = mid[0];
        let id = p.messages[0].id;
        assert(id == wm[0]);
        lemma_key_absent(kept, id);
        assert(s1.active == kept.push((id, (p, now))));
        let w1 = waiting_ids(s1.pending);
        assert(w1 =~= wm.drop_first());
        assert forall|i: int, j: int|
            0 <= i < w1.len() && 0 <= j < s1.active.len() implies w1[i] != s1.active[j].0 by {
            assert(w1[i] == wm[i + 1]);
            if j < kept.len() {
                assert(s1.active[j] == kept[j]);
            }
        }
        assert forall|i: int, j: int| 0 <= i < j < w1.len() implies w1[i] != w1[j] by {
            assert(w1[i] == wm[i + 1] && w1[j] == wm[j + 1]);
        }
        assert forall|i: int| 0 <= i < w1.len() implies !s1.rejected.contains_key(w1[i]) && w1[i]
            < s1.next_id by {
            assert(w1[i] == wm[i + 1]);
        }
        assert forall|j: int| 0 <= j < s1.active.len() implies !s1.rejected.contains_key(s1.active[j].0)
            && s1.active[j].0 < s1.next_id by {
            if j < kept.len() {
                assert(s1.active[j] == kept[j]);
            }
        }
    }
}

/// Ending a reservation keeps every id held by one proposal at most.
proof fn lemma_apart_remove_active(s: StoreView, id: u64)
    requires
        s.wf(),
    ensures
        (StoreView { active: remove_key(s.active, id), ..s }).ids_apart(),
{
    lemma_remove_key(s.active, id);
    let r = remove_key(s.active, id);
    let w = waiting_ids(s.pending);
    assert forall|i: int, j: int| 0 <= i < w.len() && 0 <= j < r.len() implies w[i] != r[j].0 by {
        let k = choose|k: int| 0 <= k < s.active.len() && s.active[k] == r[j];
        assert(w[i] != s.active[k].0);
    }
    assert forall|j: int| 0 <= j < r.len() implies !s.rejected.contains_key(r[j].0) && r[j].0 < s.next_id by {
        let k = choose|k: int| 0 <= k < s.active.len() && s.active[k] == r[j];
        assert(s.active[k].0 == r[j].0);
    }
}

/// Rejecting a reserved proposal keeps every id held by one proposal at
/// most.
proof fn lemma_apart_reject(s: StoreView, id: u64)
    requires
        s.wf(),
    ensures
        reject_effect(s, id).0.ids_apart(),
{
    if let Some(e) = find_key(s.active, id) {
        lemma_apart_remove_active(s, id);
        lemma_remove_key(s.active, id);
        lemma_find_key_some(s.active, id);
        let k = choose|k: int| 0 <= k < s.active.len() && s.active[k].0 == id && s.active[k].1 == e;
        let s1 = reject_effect(s, id).0;
        let w = waiting_ids(s.pending);
        assert forall|i: int| 0 <= i < w.len() implies !s1.rejected.contains_key(w[i]) && w[i] < s1.next_id by {
            assert(w[i] != s.active[k].0);
        }
        assert(id < s.next_id);
    }
}

/// Putting a proposal whose id is free at the front of the queue keeps
/// every id held by one proposal at most.
proof fn lemma_apart_requeue(s: StoreView, p: ProposalView)
    requires
        s.ids_apart(),
        proposal_ok(p),
        s.id_free(p.messages[0].id),
    ensures
        (StoreView { pending: seq![p] + s.pending, ..s }).ids_apart(),
{
    let w = waiting_ids(s.pending);
    let w1 = waiting_ids(seq![p] + s.pending);
    assert(w1 =~= seq![p.messages[0].id] + w);
    assert forall|i: int, j: int| 0 <= i < j < w1.len() implies w1[i] != w1[j] by {
        assert(w1[j] == w[j - 1]);
        if i > 0 {
            assert(w1[i] == w[i - 1]);
        }
    }
    assert forall|i: int, j: int| 0 <= i < w1.len() && 0 <= j < s.active.len() implies w1[i]
        != s.active[j].0 by {
        if i > 0 {
            assert(w1[i] == w[i - 1]);
        }
    }
    assert forall|i: int| 0 <= i < w1.len() implies !s.rejected.contains_key(w1[i]) && w1[i]
        < s.next_id by {
        if i > 0 {
            assert(w1[i] == w[i - 1]);
        }
    }
}

/// Filing a proposal whose id is free among the rejected ones keeps every
/// id held by one proposal at most.
proof fn lemma_apart_restore(s: StoreView, p: ProposalView)
    requires
        s.ids_apart(),
        s.id_free(p.messages[0].id),
    ensures
        (StoreView { rejected: s.rejected.insert(p.messages[0].id, p), ..s }).ids_apart(),
{
    let w = waiting_ids(s.pending);
    assert forall|i: int| 0 <= i < w.len() implies w[i] != p.messages[0].id by {}
}

/// Putting a rejected proposal back in line keeps every id held by one
/// proposal at most.
proof fn lemma_apart_return(s: StoreView, id: u64)
    requires
        s.wf(),
    ensures
        return_effect(s, id).0.ids_apart(),
{
    if s.rejected.contains_key(id) {
        let p = s.rejected[id];
        assert(filed_under(id, p));
        let s0 = StoreView { rejected: s.rejected.remove(id), ..s };
        let w = waiting_ids(s.pending);
        assert forall|i: int| 0 <= i < s.pending.len() implies w[i] != id by {}
        assert(s0.id_free(id));
        lemma_apart_requeue(s0, p);
        assert(return_effect(s, id).0 == (StoreView { pending: seq![p] + s0.pending, ..s0 }));
    }
}

/// The id a proposal just taken off its reservation is free.
proof fn lemma_taken_id_free(s: StoreView, id: u64)
    requires
        s.wf(),
        find_key(s.active, id) is Some,
    ensures
        take_active_effect(s, id).0.id_free(id),
{
    lemma_remove_key(s.active, id);
    lemma_find_key_some(s.active, id);
    let k = choose|k: int| 0 <= k < s.active.len() && s.active[k].0 == id && s.active[k].1 == (find_key(
        s.active,
        id,
    )->0);
    let w = waiting_ids(s.pending);
    assert forall|i: int| 0 <= i < s.pending.len() implies w[i] != id by {
        assert(w[i] != s.active[k].0);
    }
}

/// A message is taken once: right after a message has been taken, a
/// message with the same (chat, message) key is refused and changes
/// nothing (as long as the memory of keys is not due for a reset).
pub proof fn law_duplicate_refused(
    s: StoreView,
    msg: IncomingProposal,
    t1: i64,
    again: IncomingProposal,
    t2: i64,
)
    requires
        push_effect(s, msg, t1).1,
        push_effect(s, msg, t1).0.seen.len() <= SEEN_LIMIT,
        again.chat_id == msg.chat_id,
        again.telegram_message_id == msg.telegram_message_id,
    ensures
        !push_effect(push_effect(s, msg, t1).0, again, t2).1,
        push_effect(push_effect(s, msg, t1).0, again, t2).0 == push_effect(s, msg, t1).0,
{
    let s1 = push_effect(s, msg, t1).0;
    let key = seen_key(msg.chat_id, msg.telegram_message_id);
    assert(s1.seen == seen_before_push(s.seen).insert(key));
    assert(seen_before_push(s1.seen).contains(key));
    assert(push_effect(s1, again, t2).0 =~= s1);
}

/// A message taken into a queue with nothing waiting or reserved is the
/// only message of the proposal shown next.
pub proof fn law_push_then_pop(s: StoreView, msg: IncomingProposal, created_at: i64, now: u64)
    requires
        s.pending.len() == 0,
        s.active.len() == 0,
        push_effect(s, msg, created_at).1,
    ensures
        pop_effect(push_effect(s, msg, created_at).0, now).1 == Some(
            ProposalView {
                group_id: msg.proposal_group_id@,
                messages: seq![queued_message(msg, s.next_id, created_at)],
            },
        ),
{
    let s1 = push_effect(s, msg, created_at).0;
    assert(stale_proposals(s1.active, now) == Seq::<ProposalView>::empty());
    assert(s1.pending + Seq::<ProposalView>::empty() =~= s1.pending);
}

/// Messages of one group are gathered: a message whose group already
/// waits joins that proposal, and the queue does not grow.
pub proof fn law_group_gathered(s: StoreView, msg: IncomingProposal, created_at: i64, i: int)
    requires
        0 <= i < s.pending.len(),
        s.pending[i].group_id == msg.proposal_group_id@,
        forall|j: int| 0 <= j < i ==> s.pending[j].group_id != msg.proposal_group_id@,
        push_effect(s, msg, created_at).1,
    ensures
        push_effect(s, msg, created_at).0.pending.len() == s.pending.len(),
        push_effect(s, msg, created_at).0.pending[i].messages == s.pending[i].messages.push(
            queued_message(msg, s.next_id, created_at),
        ),
{
    lemma_add_to_group_at(s.pending, i, queued_message(msg, s.next_id, created_at));
}

/// A proposal just shown is reserved under the id of its first message:
/// deciding on that id gives it back.
pub proof fn law_pop_then_take(s: StoreView, now: u64)
    requires
        s.wf(),
        pop_effect(s, now).1 is Some,
    ensures
        take_active_effect(pop_effect(s, now).0, (pop_effect(s, now).1->0).messages[0].id).1
            == pop_effect(s, now).1,
{
    let p = pop_effect(s, now).1->0;
    let kept = fresh_entries(s.active, now);
    lemma_fresh_entries(s.active, now);
    lemma_put_key(kept, p.messages[0].id, (p, now));
}

/// A reserved proposal that is rejected and then put back in line is the
/// next proposal shown.
pub proof fn law_reject_return_pop(s: StoreView, id: u64, now: u64)
    requires
        s.wf(),
        find_key(s.active, id) is Some,
    ensures
        reject_effect(s, id).1 == Some((find_key(s.active, id)->0).0),
        return_effect(reject_effect(s, id).0, id).1 == reject_effect(s, id).1,
        pop_effect(return_effect(reject_effect(s, id).0, id).0, now).1 == reject_effect(s, id).1,
{
    let p = (find_key(s.active, id)->0).0;
    let s1 = reject_effect(s, id).0;
    assert(s1.rejected.get(id) == Some(p));
    let s2 = return_effect(s1, id).0;
    assert(s2.pending[0] == p);
}

/// The reserved proposals, in order.
pub open spec fn active_proposals(a: ActiveView) -> Seq<ProposalView> {
    a.map_values(|e: (u64, (ProposalView, u64))| e.1.0)
}

/// Every proposal the queue holds, waiting or reserved, counted with its
/// multiplicity.
pub open spec fn held_proposals(s: StoreView) -> Multiset<ProposalView> {
    s.pending.to_multiset().add(active_proposals(s.active).to_multiset())
}

proof fn lemma_find_key_none<V>(s: Seq<(u64, V)>, k: u64)
    requires
        find_key(s, k) is None,
    ensures
        forall|j: int| 0 <= j < s.len() ==> s[j].0 != k,
    decreases s.len(),
{
    if s.len() > 0 {
        lemma_find_key_none(s.drop_first(), k);
        assert forall|j: int| 0 <= j < s.len() implies s[j].0 != k by {
            if j > 0 {
                assert(s[j] == s.drop_first()[j - 1]);
            }
        }
    }
}

/// Expiry splits the reservations: the kept ones and the expired proposals
/// are together the reserved proposals, and each kept entry is an entry of
/// `a` that has not expired.
proof fn lemma_expiry_splits(a: ActiveView, now: u64)
    ensures
        active_proposals(a).to_multiset() == active_proposals(fresh_entries(a, now)).to_multiset().add(
            stale_proposals(a, now).to_multiset(),
        ),
        forall|j: int|
            0 <= j < fresh_entries(a, now).len() ==> exists|i: int|
                0 <= i < a.len() && a[i] == #[trigger] fresh_entries(a, now)[j] && !is_stale(
                    a[i].1.1,
                    now,
                ),
    decreases a.len(),
{
    broadcast use vstd::seq_lib::group_to_multiset_ensures;
    broadcast use vstd::multiset::group_multiset_axioms;

    if a.len() == 0 {
        assert(active_proposals(a) =~= Seq::<ProposalView>::empty());
        assert(active_proposals(a).to_multiset() =~= Multiset::<ProposalView>::empty());
        assert(active_proposals(a).to_multiset() =~= active_proposals(a).to_multiset().add(
            Seq::<ProposalView>::empty().to_multiset(),
        ));
    } else {
        let rest = a.drop_first();
        lemma_expiry_splits(rest, now);
        let fr = fresh_entries(rest, now);
        let sr = stale_proposals(rest, now);
        assert(active_proposals(a) =~= seq![a[0].1.0] + active_proposals(rest));
        vstd::seq_lib::lemma_multiset_commutative(seq![a[0].1.0], active_proposals(rest));
        assert(seq![a[0].1.0] =~= Seq::<ProposalView>::empty().push(a[0].1.0));
        if is_stale(a[0].1.1, now) {
            vstd::seq_lib::lemma_multiset_commutative(seq![a[0].1.0], sr);
            assert(active_proposals(a).to_multiset() =~= active_proposals(fr).to_multiset().add(
                (seq![a[0].1.0] + sr).to_multiset(),
            ));
            assert forall|j: int| 0 <= j < fr.len() implies exists|i: int|
                0 <= i < a.len() && a[i] == #[trigger] fr[j] && !is_stale(a[i].1.1, now) by {
                let i = choose|i: int| 0 <= i < rest.len() && rest[i] == fr[j] && !is_stale(rest[i].1.1, now);
                assert(a[i + 1] == rest[i]);
            }
        } else {
            let fa = seq![a[0]] + fr;
            assert(active_proposals(fa) =~= seq![a[0].1.0] + active_proposals(fr));
            vstd::seq_lib::lemma_multiset_commutative(seq![a[0].1.0], active_proposals(fr));
            assert(active_proposals(a).to_multiset() =~= active_proposals(fa).to_multiset().add(
                sr.to_multiset(),
            ));
            assert forall|j: int| 0 <= j < fa.len() implies exists|i: int|
                0 <= i < a.len() && a[i] == #[trigger] fa[j] && !is_stale(a[i].1.1, now) by {
                if j == 0 {
                    assert(a[0] == fa[0]);
                } else {
                    assert(fa[j] == fr[j - 1]);
                    let i = choose|i: int| 0 <= i < rest.len() && rest[i] == fr[j - 1] && !is_stale(rest[i].1.1, now);
                    assert(a[i + 1] == rest[i]);
                }
            }
        }
    }
}

/// An expired proposal is filed under a key whose entry has expired.
proof fn lemma_stale_filed(a: ActiveView, now: u64)
    requires
        distinct_keys(a),
        forall|i: int| 0 <= i < a.len() ==> filed_under(#[trigger] a[i].0, a[i].1.0),
    ensures
        forall|j: int|
            0 <= j < stale_proposals(a, now).len() ==> (find_key(
                a,
                (#[trigger] stale_proposals(a, now)[j]).messages[0].id,
            ) matches Some(e) && is_stale(e.1, now)),
    decreases a.len(),
{
    if a.len() > 0 {
        let rest = a.drop_first();
        assert forall|i: int| 0 <= i < rest.len() implies filed_under(#[trigger] rest[i].0, rest[i].1.0) by {
            assert(rest[i] == a[i + 1]);
        }
        assert forall|x: int, y: int| 0 <= x < y < rest.len() implies rest[x].0 != rest[y].0 by {
            assert(rest[x] == a[x + 1] && rest[y] == a[y + 1]);
        }
        lemma_stale_filed(rest, now);
        let sr = stale_proposals(rest, now);
        assert forall|j: int| 0 <= j < sr.len() implies a[0].0 != (#[trigger] sr[j]).messages[0].id by {
            let id = sr[j].messages[0].id;
            if a[0].0 == id {
                assert forall|k: int| 0 <= k < rest.len() implies rest[k].0 != id by {
                    assert(rest[k] == a[k + 1]);
                }
                lemma_key_absent(rest, id);
            }
        }
        assert(filed_under(a[0].0, a[0].1.0));
        if is_stale(a[0].1.1, now) {
            let st = seq![a[0].1.0] + sr;
            assert(stale_proposals(a, now) == st);
            assert forall|j: int| 0 <= j < st.len() implies (find_key(a, (#[trigger] st[j]).messages[0].id)
                matches Some(e) && is_stale(e.1, now)) by {
                if j > 0 {
                    assert(st[j] == sr[j - 1]);
                }
            }
        } else {
            assert(stale_proposals(a, now) == sr);
        }
    }
}

/// Showing the next proposal loses and duplicates none: the proposals held,
/// waiting or reserved, are the same before and after. The proposal shown
/// is reserved under its first message's id at `now`.
pub proof fn law_pop_keeps_proposals(s: StoreView, now: u64)
    requires
        s.wf(),
    ensures
        held_proposals(pop_effect(s, now).0) == held_proposals(s),
        pop_effect(s, now).1 matches Some(p) ==> find_key(pop_effect(s, now).0.active, p.messages[0].id)
            == Some((p, now)),
{
    broadcast use vstd::seq_lib::group_to_multiset_ensures;
    broadcast use vstd::multiset::group_multiset_axioms;

    let a = s.active;
    let kept = fresh_entries(a, now);
    let st = stale_proposals(a, now);
    let mid = s.pending + st;
    lemma_expiry_splits(a, now);
    lemma_fresh_entries(a, now);
    vstd::seq_lib::lemma_multiset_commutative(s.pending, st);
    if mid.len() == 0 {
        assert(held_proposals(pop_effect(s, now).0) =~= held_proposals(s));
    } else {
        let p = mid[0];
        let id = p.messages[0].id;
        assert forall|j: int| 0 <= j < kept.len() implies kept[j].0 != id by {
            let i = choose|i: int| 0 <= i < a.len() && a[i] == kept[j] && !is_stale(a[i].1.1, now);
            if s.pending.len() > 0 {
                assert(p == s.pending[0]);
                assert(waiting_ids(s.pending)[0] == id);
                assert(waiting_ids(s.pending)[0] != a[i].0);
            } else {
                assert(p == st[0]);
                lemma_stale_filed(a, now);
                if a[i].0 == id {
                    assert forall|x: int| 0 <= x < i implies a[x].0 != id by {}
                    lemma_key_at(a, i, id);
                }
            }
        }
        lemma_key_absent(kept, id);
        lemma_put_key(kept, id, (p, now));
        let kept2 = put_key(kept, id, (p, now));
        assert(kept2 == kept.push((id, (p, now))));
        assert(active_proposals(kept2) =~= active_proposals(kept).push(p));
        assert(mid.drop_first() =~= mid.remove(0));
        assert(held_proposals(pop_effect(s, now).0) =~= held_proposals(s));
    }
}

} // verus!
