//! The rules of the free and paid ("pro") plans.

use vstd::prelude::*;

use crate::models::Admin;
use crate::text::str_eq;

verus! {

/// A client has the paid plan while its paid period has not ended.
pub open spec fn spec_is_pro(pro_expires_at: Option<i64>, now: i64) -> bool {
    match pro_expires_at {
        Some(t) => t > now,
        None => false,
    }
}

/// Whether a client whose paid period ends at `pro_expires_at` has the paid
/// plan at time `now` (Unix seconds).
pub fn is_pro(pro_expires_at: Option<i64>, now: i64) -> (r: bool)
    ensures
        r == spec_is_pro(pro_expires_at, now),
{
    match pro_expires_at {
        Some(t) => t > now,
        None => false,
    }
}

/// The plan a client is switched to by "change plan": free when it has the
/// paid plan, paid otherwise.
pub fn toggled_plan(currently_pro: bool) -> (res: &'static str)
    ensures
        res@ == (if currently_pro {
            "free"@
        } else {
            "pro"@
        }),
{
    if currently_pro {
        "free"
    } else {
        "pro"
    }
}

/// A moderator joining on `plan` while `active_admins` moderators are
/// active joins frozen: on the free plan, when one is active already.
pub open spec fn joins_frozen(plan: Seq<char>, active_admins: i64) -> bool {
    plan == "free"@ && active_admins >= 1
}

/// Unfreezing a moderator is refused on the free plan while another one
/// is active.
pub open spec fn unfreeze_refused(plan: Seq<char>, active_admins: i64) -> bool {
    plan == "free"@ && active_admins >= 1
}

/// On the free plan a bot has at most one active moderator besides the
/// owner: a moderator joining while one is active joins frozen.
pub fn new_admin_frozen(plan: &str, active_admins: i64) -> (r: bool)
    ensures
        r == joins_frozen(plan@, active_admins),
{
    str_eq(plan, "free") && active_admins >= 1
}

/// On the free plan a moderator cannot be unfrozen while another one is
/// active.
pub fn unfreeze_blocked(plan: &str, active_admins: i64) -> (r: bool)
    ensures
        r == unfreeze_refused(plan@, active_admins),
{
    str_eq(plan, "free") && active_admins >= 1
}

/// On the free plan, more than one active moderator means the plan's
/// limit must be enforced (all but the earliest moderator frozen).
pub fn must_enforce_free_limit(plan: &str, active_admins: i64) -> (r: bool)
    ensures
        r == (plan@ == "free"@ && active_admins > 1),
{
    str_eq(plan, "free") && active_admins > 1
}

/// Setting a plan other than "pro" sets the free plan.
pub fn is_pro_plan_name(plan: &str) -> (r: bool)
    ensures
        r == (plan@ == "pro"@),
{
    str_eq(plan, "pro")
}

/// On the free plan a bot keeps at most one active moderator besides the
/// owner: while it has at most one, a moderator who joins, or is unfrozen,
/// as the rules allow never makes two.
pub proof fn law_free_plan_one_active(active_admins: i64)
    requires
        0 <= active_admins <= 1,
    ensures
        active_admins + (if joins_frozen("free"@, active_admins) {
            0int
        } else {
            1int
        }) <= 1,
        !unfreeze_refused("free"@, active_admins) ==> active_admins + 1 <= 1,
{
}

/// The user ids of the moderators other than the owner, in order.
pub open spec fn non_owner_ids(admins: Seq<Admin>, owner_id: i64) -> Seq<i64>
    decreases admins.len(),
{
    if admins.len() == 0 {
        Seq::empty()
    } else {
        let rest = non_owner_ids(admins.drop_last(), owner_id);
        if admins.last().user_id == owner_id {
            rest
        } else {
            rest.push(admins.last().user_id)
        }
    }
}

/// The moderators frozen to keep a free plan's limit: every moderator
/// other than the owner but the first of them (moderators in the order
/// they were added).
pub open spec fn free_plan_freezes(admins: Seq<Admin>, owner_id: i64) -> Seq<i64> {
    let ids = non_owner_ids(admins, owner_id);
    if ids.len() == 0 {
        ids
    } else {
        ids.drop_first()
    }
}

/// The moderators of a bot on the free plan to freeze, `admins` being in
/// the order they were added: all but the first one other than the owner.
pub fn free_plan_freeze_list(admins: &[Admin], owner_id: i64) -> (res: Vec<i64>)
    ensures
        res@ == free_plan_freezes(admins@, owner_id),
{
    let mut ids: Vec<i64> = Vec::new();
    let mut i: usize = 0;
    while i < admins.len()
        invariant
            i <= admins.len(),
            ids@ == non_owner_ids(admins@.subrange(0, i as int), owner_id),
        decreases admins.len() - i,
    {
        assert(admins@.subrange(0, i + 1).drop_last() =~= admins@.subrange(0, i as int));
        if admins[i].user_id != owner_id {
            ids.push(admins[i].user_id);
        }
        i = i + 1;
    }
    assert(admins@.subrange(0, i as int) =~= admins@);
    let mut out: Vec<i64> = Vec::new();
    if ids.len() == 0 {
        return out;
    }
    let mut k: usize = 1;
    while k < ids.len()
        invariant
            1 <= k <= ids.len(),
            out@ == ids@.subrange(1, k as int),
        decreases ids.len() - k,
    {
        out.push(ids[k]);
        k = k + 1;
        assert(out@ =~= ids@.subrange(1, k as int));
    }
    assert(ids@.subrange(1, k as int) =~= ids@.drop_first());
    out
}

proof fn lemma_ids_prefix(s: Seq<Admin>, owner_id: i64, n: int)
    requires
        0 <= n <= s.len(),
    ensures
        non_owner_ids(s.take(n), owner_id).len() <= non_owner_ids(s, owner_id).len(),
        non_owner_ids(s, owner_id).take(non_owner_ids(s.take(n), owner_id).len() as int)
            == non_owner_ids(s.take(n), owner_id),
    decreases s.len(),
{
    let ids = non_owner_ids(s, owner_id);
    if n == s.len() {
        assert(s.take(n) =~= s);
        assert(ids.take(ids.len() as int) =~= ids);
    } else {
        let d = s.drop_last();
        assert(s.take(n) =~= d.take(n));
        lemma_ids_prefix(d, owner_id, n);
        let pre = non_owner_ids(d.take(n), owner_id);
        let dids = non_owner_ids(d, owner_id);
        if s.last().user_id != owner_id {
            assert(ids == dids.push(s.last().user_id));
            assert(ids.take(pre.len() as int) =~= dids.take(pre.len() as int));
        }
    }
}

/// The free plan keeps one active moderator besides the owner: once the
/// limit is enforced, every moderator other than the owner that was added
/// after another such moderator is frozen.
pub proof fn law_free_plan_enforced(admins: Seq<Admin>, owner_id: i64, i: int, j: int)
    requires
        0 <= i < j < admins.len(),
        admins[i].user_id != owner_id,
        admins[j].user_id != owner_id,
    ensures
        free_plan_freezes(admins, owner_id).contains(admins[j].user_id),
{
    let ids = non_owner_ids(admins, owner_id);
    let tj = admins.take(j);
    let tj1 = admins.take(j + 1);
    let ti1 = admins.take(i + 1);
    // The moderators up to j end with j's id.
    assert(tj1.drop_last() =~= tj);
    assert(tj1.last() == admins[j]);
    let before = non_owner_ids(tj, owner_id);
    assert(non_owner_ids(tj1, owner_id) == before.push(admins[j].user_id));
    // Moderator i comes before j, so at least one id precedes j's.
    assert(ti1.drop_last() =~= admins.take(i));
    assert(ti1.last() == admins[i]);
    assert(non_owner_ids(ti1, owner_id).len() >= 1);
    assert(tj.take(i + 1) =~= ti1);
    lemma_ids_prefix(tj, owner_id, i + 1);
    assert(before.len() >= 1);
    lemma_ids_prefix(admins, owner_id, j + 1);
    let q = before.len() as int;
    assert(ids.take(q + 1) == before.push(admins[j].user_id));
    assert(ids.take(q + 1)[q] == ids[q]);
    assert(ids[q] == admins[j].user_id);
    assert(ids.drop_first()[q - 1] == ids[q]);
}

} // verus!
