//! What users are in the middle of: a worker bot's users asked for an
//! answer to a post or for a reason, the master bot's clients asked for a
//! token. The bots keep these in `DashMap`s, shared between the updates
//! they handle at the same time.

use dashmap::DashMap;
use vstd::prelude::*;

use crate::master_flow::FlowState;

verus! {

/// `dashmap::DashMap`, opaque: what a map holds is known only through the
/// names below, and the wrappers take the map by `&mut` so that a change
/// is seen by the verifier.
#[verifier::external_type_specification]
#[verifier::external_body]
#[verifier::reject_recursive_types(K)]
#[verifier::reject_recursive_types(V)]
#[verifier::reject_recursive_types(S)]
pub struct ExDashMap<K, V, S>(DashMap<K, V, S>);

/// What a worker bot's user was asked for.
#[derive(Debug, Clone, Copy, PartialEq, Eq, Structural)]
pub enum InputKind {
    /// An answer to a channel post.
    Answer,
    /// The reason of a rejection, to be sent to the sender.
    Reason,
    /// The reason of a ban.
    BanReason,
}

/// A question a worker bot's user is to answer: of what kind, about whom
/// (the post answered, or the sender the reason goes to), and for which
/// rejected proposal (0 for an answer).
#[derive(Debug, Clone, Copy, PartialEq, Eq, Structural)]
pub struct PendingInput {
    pub kind: InputKind,
    pub target: i64,
    pub proposal_id: u64,
}

/// The questions the users of a map are to answer, by user id.
pub uninterp spec fn inputs_of(m: DashMap<i64, PendingInput>) -> Map<i64, PendingInput>;

/// No questions at all.
pub open spec fn no_inputs() -> Map<i64, PendingInput> {
    Map::empty()
}

/// `DashMap::new`. Trusted: the new map holds no entry.
#[verifier::external_body]
pub(crate) fn inputs_new() -> (res: DashMap<i64, PendingInput>)
    ensures
        inputs_of(res) == no_inputs(),
{
    DashMap::new()
}

/// `DashMap::get`, the entry copied out of the guard it returns. Trusted:
/// the value is the one the map holds for `user`, none when it holds none.
#[verifier::external_body]
pub(crate) fn inputs_get(m: &DashMap<i64, PendingInput>, user: i64) -> (res: Option<PendingInput>)
    ensures
        res == inputs_of(*m).get(user),
{
    m.get(&user).map(|e| *e)
}

/// `DashMap::insert`. Trusted: afterwards the map holds `input` for
/// `user` (replacing any earlier value) and is otherwise unchanged.
#[verifier::external_body]
pub(crate) fn inputs_insert(m: &mut DashMap<i64, PendingInput>, user: i64, input: PendingInput)
    ensures
        inputs_of(*final(m)) == inputs_of(*old(m)).insert(user, input),
{
    m.insert(user, input);
}

/// `DashMap::remove`. Trusted: afterwards the map holds nothing for `user`
/// and is otherwise unchanged.
#[verifier::external_body]
pub(crate) fn inputs_remove(m: &mut DashMap<i64, PendingInput>, user: i64)
    ensures
        inputs_of(*final(m)) == inputs_of(*old(m)).remove(user),
{
    m.remove(&user);
}

/// What the clients of a map were asked for, by user id.
pub uninterp spec fn flows_of(m: DashMap<i64, FlowState>) -> Map<i64, FlowState>;

/// No client was asked for anything.
pub open spec fn no_flows() -> Map<i64, FlowState> {
    Map::empty()
}

/// `DashMap::new`. Trusted: the new map holds no entry.
#[verifier::external_body]
pub(crate) fn flows_new() -> (res: DashMap<i64, FlowState>)
    ensures
        flows_of(res) == no_flows(),
{
    DashMap::new()
}

/// `DashMap::get`, the entry copied out of the guard it returns. Trusted:
/// the value is the one the map holds for `user`, none when it holds none.
#[verifier::external_body]
pub(crate) fn flows_get(m: &DashMap<i64, FlowState>, user: i64) -> (res: Option<FlowState>)
    ensures
        res == flows_of(*m).get(user),
{
    m.get(&user).map(|e| *e)
}

/// `DashMap::insert`. Trusted: afterwards the map holds `flow` for `user`
/// (replacing any earlier value) and is otherwise unchanged.
#[verifier::external_body]
pub(crate) fn flows_insert(m: &mut DashMap<i64, FlowState>, user: i64, flow: FlowState)
    ensures
        flows_of(*final(m)) == flows_of(*old(m)).insert(user, flow),
{
    m.insert(user, flow);
}

/// `DashMap::remove`. Trusted: afterwards the map holds nothing for `user`
/// and is otherwise unchanged.
#[verifier::external_body]
pub(crate) fn flows_remove(m: &mut DashMap<i64, FlowState>, user: i64)
    ensures
        flows_of(*final(m)) == flows_of(*old(m)).remove(user),
{
    m.remove(&user);
}

} // verus!
