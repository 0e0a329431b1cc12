//! The moderation state of a worker bot: its queue of proposals and the
//! questions its users are to answer, with the steps that change both.

use dashmap::DashMap;
use vstd::prelude::*;

use crate::conversations::{
    inputs_get, inputs_insert, inputs_new, inputs_of, inputs_remove, no_inputs, InputKind,
    PendingInput,
};
use crate::memory::{
    opt_view, pop_effect, push_effect, reject_effect, take_active_effect,
    ProposalStore, StoreView,
};
use crate::models::{IncomingProposal, Proposal, ProposalView};
use crate::worker_flow::PublishOutcome;

verus! {

/// The moderation state as values.
#[verifier::ext_equal]
pub struct ModerationView {
    pub store: StoreView,
    /// The question each user is to answer, by user id.
    pub inputs: Map<i64, PendingInput>,
}

/// A worker bot's queue of proposals and its users' pending questions.
pub struct Moderation {
    store: ProposalStore,
    inputs: DashMap<i64, PendingInput>,
}

impl View for Moderation {
    type V = ModerationView;

    closed spec fn view(&self) -> ModerationView {
        ModerationView { store: self.store@, inputs: inputs_of(self.inputs) }
    }
}

/// What a moderator's reason message comes to.
#[derive(Debug)]
pub enum ReasonStep {
    /// The moderator was asked for no reason.
    NotAsked,
    /// The rejected proposal is no longer there (its rejection was closed).
    Gone,
    /// The reason goes to this sender; the question is closed.
    Send(i64),
    /// The sender is to be banned for the reason; the question stays open
    /// until the ban is stored.
    Ban(i64, Proposal),
}

/// A question asking for a reason, as opposed to an answer.
pub open spec fn asks_reason(i: PendingInput) -> bool {
    i.kind == InputKind::Reason || i.kind == InputKind::BanReason
}

/// What a moderator's reason message comes to, as a value.
pub enum ReasonOutcome {
    NotAsked,
    Gone,
    Send(i64),
    Ban(i64, ProposalView),
}

/// A reason step as a value.
pub open spec fn outcome_of(s: ReasonStep) -> ReasonOutcome {
    match s {
        ReasonStep::NotAsked => ReasonOutcome::NotAsked,
        ReasonStep::Gone => ReasonOutcome::Gone,
        ReasonStep::Send(t) => ReasonOutcome::Send(t),
        ReasonStep::Ban(t, p) => ReasonOutcome::Ban(t, p@),
    }
}

/// What asking moderator `admin` for the (ban) reason of rejected proposal
/// `id` does: when the proposal is among the rejected ones, the moderator
/// is asked, about the sender of its first message.
pub open spec fn ask_effect(m: ModerationView, admin: i64, id: i64, ban: bool) -> (ModerationView, Option<i64>) {
    if id >= 0 && m.store.rejected.get(id as u64) is Some {
        let sender = (m.store.rejected.get(id as u64)->0).messages[0].sender_id;
        (
            ModerationView {
                inputs: m.inputs.insert(
                    admin,
                    PendingInput {
                        kind: if ban {
                            InputKind::BanReason
                        } else {
                            InputKind::Reason
                        },
                        target: sender,
                        proposal_id: id as u64,
                    },
                ),
                ..m
            },
            Some(sender),
        )
    } else {
        (m, None)
    }
}

/// What a reason message of moderator `admin` does: when the moderator was
/// asked for a reason, the rejection is closed; a plain reason goes to the
/// sender and the question closes; a ban reason hands out the proposal and
/// the question stays open.
pub open spec fn reason_effect(m: ModerationView, admin: i64) -> (ModerationView, ReasonOutcome) {
    match m.inputs.get(admin) {
        Some(q) => if asks_reason(q) {
            let store = StoreView { rejected: m.store.rejected.remove(q.proposal_id), ..m.store };
            match m.store.rejected.get(q.proposal_id) {
                None => (ModerationView { store, inputs: m.inputs.remove(admin) }, ReasonOutcome::Gone),
                Some(p) => if q.kind == InputKind::Reason {
                    (ModerationView { store, inputs: m.inputs.remove(admin) }, ReasonOutcome::Send(q.target))
                } else {
                    (ModerationView { store, inputs: m.inputs }, ReasonOutcome::Ban(q.target, p))
                },
            }
        } else {
            (m, ReasonOutcome::NotAsked)
        },
        None => (m, ReasonOutcome::NotAsked),
    }
}

impl Moderation {
    /// The queue is well formed.
    pub open spec fn wf(&self) -> bool {
        self@.store.wf()
    }

    /// An empty queue whose first message gets id 1, and no questions.
    pub fn new() -> (res: Moderation)
        ensures
            res.wf(),
            res@.store.next_id == 1,
            res@.store.pending.len() == 0,
            res@.store.active.len() == 0,
            res@.store.rejected == Map::<u64, ProposalView>::empty(),
            res@.store.seen == Set::<i128>::empty(),
            res@.inputs == no_inputs(),
    {
        Moderation { store: ProposalStore::new(), inputs: inputs_new() }
    }

    /// The question `user` is to answer, if any.
    pub fn pending_input(&self, user: i64) -> (res: Option<PendingInput>)
        ensures
            res == self@.inputs.get(user),
    {
        inputs_get(&self.inputs, user)
    }

    /// `user` is to send an answer to channel post `post`.
    pub fn expect_answer(&mut self, user: i64, post: i32)
        ensures
            final(self)@.store == old(self)@.store,
            final(self)@.inputs == old(self)@.inputs.insert(
                user,
                PendingInput { kind: InputKind::Answer, target: post as i64, proposal_id: 0 },
            ),
    {
        inputs_insert(
            &mut self.inputs,
            user,
            PendingInput { kind: InputKind::Answer, target: post as i64, proposal_id: 0 },
        );
    }

    /// Whether `id` was given out already and no proposal holds it now (as
    /// with a proposal just approved, or just handed out for a ban): only
    /// such a proposal can be put back.
    pub fn is_free(&self, id: u64) -> (r: bool)
        requires
            self.wf(),
        ensures
            r == self@.store.id_free(id),
    {
        self.store.is_free(id)
    }

    /// Whether ids are left to give to new proposal messages.
    pub fn ids_left(&self) -> (r: bool)
        ensures
            r == (self@.store.next_id < u64::MAX),
    {
        self.store.ids_left()
    }

    /// Takes a new proposal message received at `created_at`; false when
    /// the message was taken before.
    pub fn submit(&mut self, msg: IncomingProposal, created_at: i64) -> (res: bool)
        requires
            old(self).wf(),
            old(self)@.store.next_id < u64::MAX,
        ensures
            final(self).wf(),
            final(self)@.store == push_effect(old(self)@.store, msg, created_at).0,
            res == push_effect(old(self)@.store, msg, created_at).1,
            final(self)@.inputs == old(self)@.inputs,
    {
        self.store.push(msg, created_at)
    }

    /// Takes `user`'s answer to a post; once it is taken, the user is no
    /// longer asked for one.
    pub fn submit_answer(&mut self, user: i64, msg: IncomingProposal, created_at: i64) -> (res: bool)
        requires
            old(self).wf(),
            old(self)@.store.next_id < u64::MAX,
        ensures
            final(self).wf(),
            final(self)@.store == push_effect(old(self)@.store, msg, created_at).0,
            res == push_effect(old(self)@.store, msg, created_at).1,
            final(self)@.inputs == if res {
                old(self)@.inputs.remove(user)
            } else {
                old(self)@.inputs
            },
    {
        let taken = self.store.push(msg, created_at);
        if taken {
            inputs_remove(&mut self.inputs, user);
        }
        taken
    }

    /// Shows the next proposal at time `now` (milliseconds of a monotonic
    /// clock), reserving it.
    pub fn next(&mut self, now: u64) -> (res: Option<Proposal>)
        requires
            old(self).wf(),
        ensures
            final(self).wf(),
            final(self)@.store == pop_effect(old(self)@.store, now).0,
            opt_view(res) == pop_effect(old(self)@.store, now).1,
            final(self)@.inputs == old(self)@.inputs,
    {
        self.store.pop_next(now)
    }

    /// Approving proposal `id` ends its reservation and hands it out to be
    /// published; none when it is not reserved (or the id is negative).
    pub fn approve(&mut self, id: i64) -> (res: Option<Proposal>)
        requires
            old(self).wf(),
        ensures
            final(self).wf(),
            final(self)@.inputs == old(self)@.inputs,
            id < 0 ==> res is None && final(self)@ == old(self)@,
            id >= 0 ==> final(self)@.store == take_active_effect(old(self)@.store, id as u64).0 && opt_view(
                res,
            ) == take_active_effect(old(self)@.store, id as u64).1,
            res matches Some(p) ==> p.messages.len() > 0 && final(self)@.store.id_free(
                p@.messages[0].id,
            ),
    {
        if id < 0 {
            return None;
        }
        self.store.take_active(id as u64)
    }

    /// Settles an approved proposal once publishing it came out as
    /// `outcome`: a proposal that could not be published goes back to the
    /// front of the queue; one published is done with. True when the
    /// moderator's card is to be cleared and the next proposal shown, which
    /// is when the proposal was published as a known channel post.
    pub fn after_publish(&mut self, proposal: Proposal, outcome: PublishOutcome) -> (res: bool)
        requires
            old(self).wf(),
            proposal.messages.len() > 0,
            outcome is Failed ==> old(self)@.store.id_free(proposal@.messages[0].id),
        ensures
            final(self).wf(),
            final(self)@.inputs == old(self)@.inputs,
            outcome is Failed ==> final(self)@.store == (StoreView {
                pending: seq![proposal@] + old(self)@.store.pending,
                ..old(self)@.store
            }),
            !(outcome is Failed) ==> final(self)@ == old(self)@,
            res == (outcome is Posted),
    {
        match outcome {
            PublishOutcome::Failed => {
                self.store.requeue(proposal);
                false
            },
            PublishOutcome::PostedWithoutId => false,
            PublishOutcome::Posted(_) => true,
        }
    }

    /// Rejecting proposal `id` moves it to the rejected ones; false when it
    /// is not reserved (or the id is negative).
    pub fn reject(&mut self, id: i64) -> (res: bool)
        requires
            old(self).wf(),
        ensures
            final(self).wf(),
            final(self)@.inputs == old(self)@.inputs,
            id < 0 ==> !res && final(self)@ == old(self)@,
            id >= 0 ==> final(self)@.store == reject_effect(old(self)@.store, id as u64).0 && res == (reject_effect(
                old(self)@.store,
                id as u64,
            ).1 is Some),
    {
        if id < 0 {
            return false;
        }
        self.store.reject(id as u64).is_some()
    }

    /// Asks moderator `admin` for the reason (or, with `ban`, the ban
    /// reason) of rejected proposal `id`; the sender the reason is for, or
    /// none when the proposal is not among the rejected ones.
    pub fn ask_reason(&mut self, admin: i64, id: i64, ban: bool) -> (res: Option<i64>)
        requires
            old(self).wf(),
        ensures
            final(self).wf(),
            final(self)@ == ask_effect(old(self)@, admin, id, ban).0,
            res == ask_effect(old(self)@, admin, id, ban).1,
    {
        if id < 0 {
            return None;
        }
        match self.store.rejected_sender(id as u64) {
            Some(sender) => {
                let kind = if ban {
                    InputKind::BanReason
                } else {
                    InputKind::Reason
                };
                inputs_insert(
                    &mut self.inputs,
                    admin,
                    PendingInput { kind, target: sender, proposal_id: id as u64 },
                );
                Some(sender)
            },
            None => None,
        }
    }

    /// Moderator `admin` sent a reason. When asked for one, the rejection
    /// is closed: a plain reason is to be sent to the sender and the
    /// question closes; a ban reason hands out the proposal for the ban,
    /// the question staying open until the ban is stored.
    pub fn take_reason(&mut self, admin: i64) -> (res: ReasonStep)
        requires
            old(self).wf(),
        ensures
            final(self).wf(),
            final(self)@ == reason_effect(old(self)@, admin).0,
            outcome_of(res) == reason_effect(old(self)@, admin).1,
            res matches ReasonStep::Ban(_, p) ==> p.messages.len() > 0 && final(self)@.store.id_free(
                p@.messages[0].id,
            ),
    {
        let q = match inputs_get(&self.inputs, admin) {
            Some(q) => q,
            None => return ReasonStep::NotAsked,
        };
        if q.kind == InputKind::Answer {
            return ReasonStep::NotAsked;
        }
        match self.store.take_rejected(q.proposal_id) {
            None => {
                inputs_remove(&mut self.inputs, admin);
                ReasonStep::Gone
            },
            Some(p) => if q.kind == InputKind::Reason {
                inputs_remove(&mut self.inputs, admin);
                ReasonStep::Send(q.target)
            } else {
                ReasonStep::Ban(q.target, p)
            },
        }
    }

    /// The ban asked for by `admin` is stored: the question closes.
    pub fn ban_stored(&mut self, admin: i64)
        ensures
            final(self)@.store == old(self)@.store,
            final(self)@.inputs == old(self)@.inputs.remove(admin),
    {
        inputs_remove(&mut self.inputs, admin);
    }

    /// The ban could not be stored: the proposal is filed among the
    /// rejected ones again (the question stays open).
    pub fn ban_failed(&mut self, proposal: Proposal)
        requires
            old(self).wf(),
            proposal.messages.len() > 0,
            old(self)@.store.id_free(proposal@.messages[0].id),
        ensures
            final(self).wf(),
            final(self)@.store == (StoreView {
                rejected: old(self)@.store.rejected.insert(proposal@.messages[0].id, proposal@),
                ..old(self)@.store
            }),
            final(self)@.inputs == old(self)@.inputs,
    {
        self.store.restore_rejected(proposal);
    }
}

/// A reason reaches the sender of the rejected proposal, once: a moderator
/// asked for the reason of a rejected proposal sends it to the sender of
/// that proposal's first message, and a second reason message is not
/// asked for.
pub proof fn law_reason_reaches_sender(m: ModerationView, admin: i64, id: i64)
    requires
        id >= 0,
        m.store.rejected.get(id as u64) is Some,
    ensures
        ask_effect(m, admin, id, false).1 == Some(
            (m.store.rejected.get(id as u64)->0).messages[0].sender_id,
        ),
        reason_effect(ask_effect(m, admin, id, false).0, admin).1 == ReasonOutcome::Send(
            (m.store.rejected.get(id as u64)->0).messages[0].sender_id,
        ),
        reason_effect(reason_effect(ask_effect(m, admin, id, false).0, admin).0, admin).1
            == ReasonOutcome::NotAsked,
{
    let m1 = ask_effect(m, admin, id, false).0;
    assert(m1.inputs.get(admin) is Some);
    let m2 = reason_effect(m1, admin).0;
    assert(m2.inputs.get(admin) is None);
}

/// A ban reason hands out the very proposal that was rejected, about its
/// sender, and leaves the moderator's question open until the ban is
/// stored.
pub proof fn law_ban_reason_keeps_question(m: ModerationView, admin: i64, id: i64)
    requires
        id >= 0,
        m.store.rejected.get(id as u64) is Some,
    ensures
        reason_effect(ask_effect(m, admin, id, true).0, admin).1 == ReasonOutcome::Ban(
            (m.store.rejected.get(id as u64)->0).messages[0].sender_id,
            m.store.rejected.get(id as u64)->0,
        ),
        reason_effect(ask_effect(m, admin, id, true).0, admin).0.inputs == ask_effect(
            m,
            admin,
            id,
            true,
        ).0.inputs,
{
    let m1 = ask_effect(m, admin, id, true).0;
    assert(m1.inputs.get(admin) is Some);
}

} // verus!
