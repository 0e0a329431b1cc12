//! The data carried by inline-keyboard buttons: what each button asks the
//! bot to do, and the data each kind of button is given.

use vstd::prelude::*;

use crate::locales::Locale;
use crate::text::{
    all_digits, chars_of, has_prefix, i64_decimal, int_decimal, last_index_of,
    lemma_parse_i64_decimal, parse_i32, parse_i32_chars, parse_i64, parse_i64_chars, parse_int,
    push_str, rfind_char, starts_with_str, str_eq, string_of, sub_chars,
};

verus! {

/// What a button of a worker bot asks for.
#[derive(Debug, PartialEq, Eq)]
pub enum WorkerCallback {
    /// Choose the bot's language during setup.
    SetupLanguage(Locale),
    /// Withdraw the moderator invitation with this code.
    RevokeInvite(String),
    /// Show the management card of moderator `user_id` (0 when unreadable).
    ManageAdmin(i64),
    FreezeAdmin(i64),
    UnfreezeAdmin(i64),
    /// Ask to confirm the removal of a moderator.
    RemoveAdmin(i64),
    ConfirmRemoveAdmin(i64),
    /// Back to the list of moderators.
    ShowAdmins,
    /// Show the next proposal.
    Next,
    /// Publish the proposal whose first message has this id.
    Approve(i64),
    Reject(i64),
    /// Ask for the reason of a rejection (message id).
    Reason(i64),
    /// Ask for the reason of a ban (message id).
    BanReason(i64),
    /// A proposal button whose id is not a number.
    InvalidId,
    Unknown,
}

/// A worker button request as a value.
pub enum WorkerCallbackView {
    SetupLanguage(Locale),
    RevokeInvite(Seq<char>),
    ManageAdmin(i64),
    FreezeAdmin(i64),
    UnfreezeAdmin(i64),
    RemoveAdmin(i64),
    ConfirmRemoveAdmin(i64),
    ShowAdmins,
    Next,
    Approve(i64),
    Reject(i64),
    Reason(i64),
    BanReason(i64),
    InvalidId,
    Unknown,
}

impl View for WorkerCallback {
    type V = WorkerCallbackView;

    open spec fn view(&self) -> WorkerCallbackView {
        match self {
            WorkerCallback::SetupLanguage(l) => WorkerCallbackView::SetupLanguage(*l),
            WorkerCallback::RevokeInvite(c) => WorkerCallbackView::RevokeInvite(c@),
            WorkerCallback::ManageAdmin(i) => WorkerCallbackView::ManageAdmin(*i),
            WorkerCallback::FreezeAdmin(i) => WorkerCallbackView::FreezeAdmin(*i),
            WorkerCallback::UnfreezeAdmin(i) => WorkerCallbackView::UnfreezeAdmin(*i),
            WorkerCallback::RemoveAdmin(i) => WorkerCallbackView::RemoveAdmin(*i),
            WorkerCallback::ConfirmRemoveAdmin(i) => WorkerCallbackView::ConfirmRemoveAdmin(*i),
            WorkerCallback::ShowAdmins => WorkerCallbackView::ShowAdmins,
            WorkerCallback::Next => WorkerCallbackView::Next,
            WorkerCallback::Approve(i) => WorkerCallbackView::Approve(*i),
            WorkerCallback::Reject(i) => WorkerCallbackView::Reject(*i),
            WorkerCallback::Reason(i) => WorkerCallbackView::Reason(*i),
            WorkerCallback::BanReason(i) => WorkerCallbackView::BanReason(*i),
            WorkerCallback::InvalidId => WorkerCallbackView::InvalidId,
            WorkerCallback::Unknown => WorkerCallbackView::Unknown,
        }
    }
}

impl WorkerCallback {
    /// Requests that manage moderators, which only the owner may make.
    pub open spec fn spec_is_admin_management(&self) -> bool {
        match self {
            WorkerCallback::RevokeInvite(_) | WorkerCallback::ManageAdmin(_)
            | WorkerCallback::FreezeAdmin(_) | WorkerCallback::UnfreezeAdmin(_)
            | WorkerCallback::RemoveAdmin(_) | WorkerCallback::ConfirmRemoveAdmin(_)
            | WorkerCallback::ShowAdmins => true,
            _ => false,
        }
    }

    /// Whether the request manages moderators (owner only).
    #[verifier::when_used_as_spec(spec_is_admin_management)]
    pub fn is_admin_management(&self) -> (r: bool)
        ensures
            r == self.spec_is_admin_management(),
    {
        match self {
            WorkerCallback::RevokeInvite(_) | WorkerCallback::ManageAdmin(_)
            | WorkerCallback::FreezeAdmin(_) | WorkerCallback::UnfreezeAdmin(_)
            | WorkerCallback::RemoveAdmin(_) | WorkerCallback::ConfirmRemoveAdmin(_)
            | WorkerCallback::ShowAdmins => true,
            _ => false,
        }
    }
}

/// The number after a prefix, or 0 when it is not one.
pub open spec fn id_or_zero(s: Seq<char>) -> i64 {
    match parse_i64(s) {
        Some(v) => v,
        None => 0,
    }
}

/// A proposal button's id, or `InvalidId`.
pub open spec fn proposal_button(
    s: Seq<char>,
    mk: spec_fn(i64) -> WorkerCallbackView,
) -> WorkerCallbackView {
    match parse_i64(s) {
        Some(v) => mk(v),
        None => WorkerCallbackView::InvalidId,
    }
}

/// The request a worker button's data makes. Prefixes are tried in this
/// order; an id that is not a number reads as 0 for moderator buttons and
/// makes a proposal button invalid.
pub open spec fn worker_callback(d: Seq<char>) -> WorkerCallbackView {
    if has_prefix(d, "setup_lang_"@) {
        WorkerCallbackView::SetupLanguage(
            if d == "setup_lang_ru"@ {
                Locale::Ru
            } else {
                Locale::En
            },
        )
    } else if has_prefix(d, "revoke_invite_"@) {
        WorkerCallbackView::RevokeInvite(d.skip(14))
    } else if has_prefix(d, "admin_manage_"@) {
        WorkerCallbackView::ManageAdmin(id_or_zero(d.skip(13)))
    } else if has_prefix(d, "freeze_admin_"@) {
        WorkerCallbackView::FreezeAdmin(id_or_zero(d.skip(13)))
    } else if has_prefix(d, "unfreeze_admin_"@) {
        WorkerCallbackView::UnfreezeAdmin(id_or_zero(d.skip(15)))
    } else if has_prefix(d, "rmadmin_"@) {
        WorkerCallbackView::RemoveAdmin(id_or_zero(d.skip(8)))
    } else if has_prefix(d, "confirm_rmadmin_"@) {
        WorkerCallbackView::ConfirmRemoveAdmin(id_or_zero(d.skip(16)))
    } else if d == "cancel_rmadmin"@ || d == "back_to_admins"@ {
        WorkerCallbackView::ShowAdmins
    } else if d == "next"@ {
        WorkerCallbackView::Next
    } else if has_prefix(d, "approve_"@) {
        proposal_button(d.skip(8), |v: i64| WorkerCallbackView::Approve(v))
    } else if has_prefix(d, "reject_"@) {
        proposal_button(d.skip(7), |v: i64| WorkerCallbackView::Reject(v))
    } else if has_prefix(d, "reason_"@) {
        proposal_button(d.skip(7), |v: i64| WorkerCallbackView::Reason(v))
    } else if has_prefix(d, "ban_reason_"@) {
        proposal_button(d.skip(11), |v: i64| WorkerCallbackView::BanReason(v))
    } else {
        WorkerCallbackView::Unknown
    }
}

fn id_after(d: &Vec<char>, k: usize) -> (res: i64)
    requires
        k <= d.len(),
    ensures
        res == id_or_zero(d@.skip(k as int)),
{
    assert(d@.subrange(k as int, d.len() as int) =~= d@.skip(k as int));
    match parse_i64_chars(d, k, d.len()) {
        Some(v) => v,
        None => 0,
    }
}

fn parse_after(d: &Vec<char>, k: usize) -> (res: Option<i64>)
    requires
        k <= d.len(),
    ensures
        res == parse_i64(d@.skip(k as int)),
{
    assert(d@.subrange(k as int, d.len() as int) =~= d@.skip(k as int));
    parse_i64_chars(d, k, d.len())
}

/// Reads the data of a worker bot's button.
pub fn parse_worker_callback(data: &str) -> (res: WorkerCallback)
    ensures
        res@ == worker_callback(data@),
{
    proof {
        reveal_strlit("setup_lang_");
        reveal_strlit("revoke_invite_");
        reveal_strlit("admin_manage_");
        reveal_strlit("freeze_admin_");
        reveal_strlit("unfreeze_admin_");
        reveal_strlit("rmadmin_");
        reveal_strlit("confirm_rmadmin_");
        reveal_strlit("approve_");
        reveal_strlit("reject_");
        reveal_strlit("reason_");
        reveal_strlit("ban_reason_");
    }
    let d = chars_of(data);
    if starts_with_str(&d, "setup_lang_") {
        if str_eq(data, "setup_lang_ru") {
            WorkerCallback::SetupLanguage(Locale::Ru)
        } else {
            WorkerCallback::SetupLanguage(Locale::En)
        }
    } else if starts_with_str(&d, "revoke_invite_") {
        let code = sub_chars(&d, 14, d.len());
        assert(code@ =~= d@.skip(14));
        WorkerCallback::RevokeInvite(string_of(code.as_slice()))
    } else if starts_with_str(&d, "admin_manage_") {
        WorkerCallback::ManageAdmin(id_after(&d, 13))
    } else if starts_with_str(&d, "freeze_admin_") {
        WorkerCallback::FreezeAdmin(id_after(&d, 13))
    } else if starts_with_str(&d, "unfreeze_admin_") {
        WorkerCallback::UnfreezeAdmin(id_after(&d, 15))
    } else if starts_with_str(&d, "rmadmin_") {
        WorkerCallback::RemoveAdmin(id_after(&d, 8))
    } else if starts_with_str(&d, "confirm_rmadmin_") {
        WorkerCallback::ConfirmRemoveAdmin(id_after(&d, 16))
    } else if str_eq(data, "cancel_rmadmin") || str_eq(data, "back_to_admins") {
        WorkerCallback::ShowAdmins
    } else if str_eq(data, "next") {
        WorkerCallback::Next
    } else if starts_with_str(&d, "approve_") {
        match parse_after(&d, 8) {
            Some(v) => WorkerCallback::Approve(v),
            None => WorkerCallback::InvalidId,
        }
    } else if starts_with_str(&d, "reject_") {
        match parse_after(&d, 7) {
            Some(v) => WorkerCallback::Reject(v),
            None => WorkerCallback::InvalidId,
        }
    } else if starts_with_str(&d, "reason_") {
        match parse_after(&d, 7) {
            Some(v) => WorkerCallback::Reason(v),
            None => WorkerCallback::InvalidId,
        }
    } else if starts_with_str(&d, "ban_reason_") {
        match parse_after(&d, 11) {
            Some(v) => WorkerCallback::BanReason(v),
            None => WorkerCallback::InvalidId,
        }
    } else {
        WorkerCallback::Unknown
    }
}

/// The data a worker button making request `cb` carries. Only requests a
/// button can make have data: `InvalidId` and `Unknown` have none.
pub open spec fn worker_callback_data(cb: WorkerCallbackView) -> Seq<char> {
    match cb {
        WorkerCallbackView::SetupLanguage(l) => match l {
            Locale::Ru => "setup_lang_ru"@,
            Locale::En => "setup_lang_en"@,
        },
        WorkerCallbackView::RevokeInvite(c) => "revoke_invite_"@ + c,
        WorkerCallbackView::ManageAdmin(i) => "admin_manage_"@ + int_decimal(i as int),
        WorkerCallbackView::FreezeAdmin(i) => "freeze_admin_"@ + int_decimal(i as int),
        WorkerCallbackView::UnfreezeAdmin(i) => "unfreeze_admin_"@ + int_decimal(i as int),
        WorkerCallbackView::RemoveAdmin(i) => "rmadmin_"@ + int_decimal(i as int),
        WorkerCallbackView::ConfirmRemoveAdmin(i) => "confirm_rmadmin_"@ + int_decimal(i as int),
        WorkerCallbackView::ShowAdmins => "back_to_admins"@,
        WorkerCallbackView::Next => "next"@,
        WorkerCallbackView::Approve(i) => "approve_"@ + int_decimal(i as int),
        WorkerCallbackView::Reject(i) => "reject_"@ + int_decimal(i as int),
        WorkerCallbackView::Reason(i) => "reason_"@ + int_decimal(i as int),
        WorkerCallbackView::BanReason(i) => "ban_reason_"@ + int_decimal(i as int),
        WorkerCallbackView::InvalidId => Seq::empty(),
        WorkerCallbackView::Unknown => Seq::empty(),
    }
}

fn prefixed_id(prefix: &str, id: i64) -> (res: String)
    ensures
        res@ == prefix@ + int_decimal(id as int),
{
    let mut v: Vec<char> = Vec::new();
    push_str(&mut v, prefix);
    let d = i64_decimal(id);
    let mut i: usize = 0;
    let ghost start = v@;
    while i < d.len()
        invariant
            i <= d.len(),
            v@ == start + d@.subrange(0, i as int),
        decreases d.len() - i,
    {
        v.push(d[i]);
        i = i + 1;
        assert(v@ =~= start + d@.subrange(0, i as int));
    }
    assert(d@.subrange(0, i as int) =~= d@);
    assert(start =~= prefix@);
    string_of(v.as_slice())
}

impl WorkerCallback {
    /// The data of a button that makes this request (empty for `InvalidId`
    /// and `Unknown`).
    pub fn data(&self) -> (res: String)
        ensures
            res@ == worker_callback_data(self@),
    {
        match self {
            WorkerCallback::SetupLanguage(l) => match l {
                Locale::Ru => String::from_str("setup_lang_ru"),
                Locale::En => String::from_str("setup_lang_en"),
            },
            WorkerCallback::RevokeInvite(c) => {
                let mut v: Vec<char> = Vec::new();
                push_str(&mut v, "revoke_invite_");
                push_str(&mut v, c.as_str());
                string_of(v.as_slice())
            },
            WorkerCallback::ManageAdmin(i) => prefixed_id("admin_manage_", *i),
            WorkerCallback::FreezeAdmin(i) => prefixed_id("freeze_admin_", *i),
            WorkerCallback::UnfreezeAdmin(i) => prefixed_id("unfreeze_admin_", *i),
            WorkerCallback::RemoveAdmin(i) => prefixed_id("rmadmin_", *i),
            WorkerCallback::ConfirmRemoveAdmin(i) => prefixed_id("confirm_rmadmin_", *i),
            WorkerCallback::ShowAdmins => String::from_str("back_to_admins"),
            WorkerCallback::Next => String::from_str("next"),
            WorkerCallback::Approve(i) => prefixed_id("approve_", *i),
            WorkerCallback::Reject(i) => prefixed_id("reject_", *i),
            WorkerCallback::Reason(i) => prefixed_id("reason_", *i),
            WorkerCallback::BanReason(i) => prefixed_id("ban_reason_", *i),
            WorkerCallback::InvalidId => String::new(),
            WorkerCallback::Unknown => String::new(),
        }
    }
}

proof fn lemma_not_prefix(d: Seq<char>, p: Seq<char>, i: int)
    requires
        0 <= i < p.len(),
        i < d.len() ==> d[i] != p[i],
    ensures
        !has_prefix(d, p),
{
    if has_prefix(d, p) {
        assert(d.take(p.len() as int)[i] == d[i]);
    }
}

proof fn lemma_prefix_of_concat(a: Seq<char>, b: Seq<char>)
    ensures
        has_prefix(a + b, a),
        (a + b).skip(a.len() as int) == b,
{
    assert((a + b).take(a.len() as int) =~= a);
    assert((a + b).skip(a.len() as int) =~= b);
}

/// "cancel_rmadmin", the data of the button that declines a removal, asks
/// for the list of moderators as "back_to_admins" does.
pub proof fn lemma_cancel_shows_admins()
    ensures
        worker_callback("cancel_rmadmin"@) == WorkerCallbackView::ShowAdmins,
{
    reveal_strlit("setup_lang_");
    reveal_strlit("revoke_invite_");
    reveal_strlit("admin_manage_");
    reveal_strlit("freeze_admin_");
    reveal_strlit("unfreeze_admin_");
    reveal_strlit("rmadmin_");
    reveal_strlit("confirm_rmadmin_");
    reveal_strlit("cancel_rmadmin");
    let d = "cancel_rmadmin"@;
    lemma_not_prefix(d, "setup_lang_"@, 0);
    lemma_not_prefix(d, "revoke_invite_"@, 0);
    lemma_not_prefix(d, "admin_manage_"@, 0);
    lemma_not_prefix(d, "freeze_admin_"@, 0);
    lemma_not_prefix(d, "unfreeze_admin_"@, 0);
    lemma_not_prefix(d, "rmadmin_"@, 0);
    lemma_not_prefix(d, "confirm_rmadmin_"@, 1);
}

/// Every request a worker button can make reads back from its own data.
#[verifier::spinoff_prover]
pub proof fn law_worker_callback_round_trip(cb: WorkerCallbackView)
    requires
        !(cb is InvalidId),
        !(cb is Unknown),
    ensures
        worker_callback(worker_callback_data(cb)) == cb,
{
    reveal_strlit("setup_lang_");
    reveal_strlit("setup_lang_ru");
    reveal_strlit("setup_lang_en");
    reveal_strlit("revoke_invite_");
    reveal_strlit("admin_manage_");
    reveal_strlit("freeze_admin_");
    reveal_strlit("unfreeze_admin_");
    reveal_strlit("rmadmin_");
    reveal_strlit("confirm_rmadmin_");
    reveal_strlit("cancel_rmadmin");
    reveal_strlit("back_to_admins");
    reveal_strlit("next");
    reveal_strlit("approve_");
    reveal_strlit("reject_");
    reveal_strlit("reason_");
    reveal_strlit("ban_reason_");
    let d = worker_callback_data(cb);
    match cb {
        WorkerCallbackView::SetupLanguage(l) => {
            assert(d.take(11) =~= "setup_lang_"@);
        },
        WorkerCallbackView::RevokeInvite(c) => {
            lemma_prefix_of_concat("revoke_invite_"@, c);
            lemma_not_prefix(d, "setup_lang_"@, 0);
        },
        WorkerCallbackView::ManageAdmin(i) => {
            lemma_prefix_of_concat("admin_manage_"@, int_decimal(i as int));
            lemma_parse_i64_decimal(i);
            lemma_not_prefix(d, "setup_lang_"@, 0);
            lemma_not_prefix(d, "revoke_invite_"@, 0);
        },
        WorkerCallbackView::FreezeAdmin(i) => {
            lemma_prefix_of_concat("freeze_admin_"@, int_decimal(i as int));
            lemma_parse_i64_decimal(i);
            lemma_not_prefix(d, "setup_lang_"@, 0);
            lemma_not_prefix(d, "revoke_invite_"@, 0);
            lemma_not_prefix(d, "admin_manage_"@, 0);
        },
        WorkerCallbackView::UnfreezeAdmin(i) => {
            lemma_prefix_of_concat("unfreeze_admin_"@, int_decimal(i as int));
            lemma_parse_i64_decimal(i);
            lemma_not_prefix(d, "setup_lang_"@, 0);
            lemma_not_prefix(d, "revoke_invite_"@, 0);
            lemma_not_prefix(d, "admin_manage_"@, 0);
            lemma_not_prefix(d, "freeze_admin_"@, 0);
        },
        WorkerCallbackView::RemoveAdmin(i) => {
            lemma_prefix_of_concat("rmadmin_"@, int_decimal(i as int));
            lemma_parse_i64_decimal(i);
            lemma_not_prefix(d, "setup_lang_"@, 0);
            lemma_not_prefix(d, "revoke_invite_"@, 1);
            lemma_not_prefix(d, "admin_manage_"@, 0);
            lemma_not_prefix(d, "freeze_admin_"@, 0);
            lemma_not_prefix(d, "unfreeze_admin_"@, 0);
        },
        WorkerCallbackView::ConfirmRemoveAdmin(i) => {
            lemma_prefix_of_concat("confirm_rmadmin_"@, int_decimal(i as int));
            lemma_parse_i64_decimal(i);
            lemma_not_prefix(d, "setup_lang_"@, 0);
            lemma_not_prefix(d, "revoke_invite_"@, 0);
            lemma_not_prefix(d, "admin_manage_"@, 0);
            lemma_not_prefix(d, "freeze_admin_"@, 0);
            lemma_not_prefix(d, "unfreeze_admin_"@, 0);
            lemma_not_prefix(d, "rmadmin_"@, 0);
        },
        WorkerCallbackView::ShowAdmins => {
            lemma_not_prefix(d, "setup_lang_"@, 0);
            lemma_not_prefix(d, "revoke_invite_"@, 0);
            lemma_not_prefix(d, "admin_manage_"@, 0);
            lemma_not_prefix(d, "freeze_admin_"@, 0);
            lemma_not_prefix(d, "unfreeze_admin_"@, 0);
            lemma_not_prefix(d, "rmadmin_"@, 0);
            lemma_not_prefix(d, "confirm_rmadmin_"@, 0);
        },
        WorkerCallbackView::Next => {
            lemma_not_prefix(d, "setup_lang_"@, 0);
            lemma_not_prefix(d, "revoke_invite_"@, 0);
            lemma_not_prefix(d, "admin_manage_"@, 0);
            lemma_not_prefix(d, "freeze_admin_"@, 0);
            lemma_not_prefix(d, "unfreeze_admin_"@, 0);
            lemma_not_prefix(d, "rmadmin_"@, 0);
            lemma_not_prefix(d, "confirm_rmadmin_"@, 0);
            assert(d[0] != "cancel_rmadmin"@[0]);
            assert(d[0] != "back_to_admins"@[0]);
        },
        WorkerCallbackView::Approve(i) => {
            lemma_prefix_of_concat("approve_"@, int_decimal(i as int));
            lemma_parse_i64_decimal(i);
            lemma_not_prefix(d, "setup_lang_"@, 0);
            lemma_not_prefix(d, "revoke_invite_"@, 0);
            lemma_not_prefix(d, "admin_manage_"@, 1);
            lemma_not_prefix(d, "freeze_admin_"@, 0);
            lemma_not_prefix(d, "unfreeze_admin_"@, 0);
            lemma_not_prefix(d, "rmadmin_"@, 0);
            lemma_not_prefix(d, "confirm_rmadmin_"@, 0);
            assert(d[0] != "cancel_rmadmin"@[0]);
            assert(d[0] != "back_to_admins"@[0]);
            assert(d[0] != "next"@[0]);
        },
        WorkerCallbackView::Reject(i) => {
            lemma_prefix_of_concat("reject_"@, int_decimal(i as int));
            lemma_parse_i64_decimal(i);
            lemma_not_prefix(d, "setup_lang_"@, 0);
            lemma_not_prefix(d, "revoke_invite_"@, 2);
            lemma_not_prefix(d, "admin_manage_"@, 0);
            lemma_not_prefix(d, "freeze_admin_"@, 0);
            lemma_not_prefix(d, "unfreeze_admin_"@, 0);
            lemma_not_prefix(d, "rmadmin_"@, 1);
            lemma_not_prefix(d, "confirm_rmadmin_"@, 0);
            assert(d[0] != "cancel_rmadmin"@[0]);
            assert(d[0] != "back_to_admins"@[0]);
            assert(d[0] != "next"@[0]);
            lemma_not_prefix(d, "approve_"@, 0);
        },
        WorkerCallbackView::Reason(i) => {
            lemma_prefix_of_concat("reason_"@, int_decimal(i as int));
            lemma_parse_i64_decimal(i);
            lemma_not_prefix(d, "setup_lang_"@, 0);
            lemma_not_prefix(d, "revoke_invite_"@, 2);
            lemma_not_prefix(d, "admin_manage_"@, 0);
            lemma_not_prefix(d, "freeze_admin_"@, 0);
            lemma_not_prefix(d, "unfreeze_admin_"@, 0);
            lemma_not_prefix(d, "rmadmin_"@, 1);
            lemma_not_prefix(d, "confirm_rmadmin_"@, 0);
            assert(d[0] != "cancel_rmadmin"@[0]);
            assert(d[0] != "back_to_admins"@[0]);
            assert(d[0] != "next"@[0]);
            lemma_not_prefix(d, "approve_"@, 0);
            lemma_not_prefix(d, "reject_"@, 2);
        },
        WorkerCallbackView::BanReason(i) => {
            lemma_prefix_of_concat("ban_reason_"@, int_decimal(i as int));
            lemma_parse_i64_decimal(i);
            lemma_not_prefix(d, "setup_lang_"@, 0);
            lemma_not_prefix(d, "revoke_invite_"@, 0);
            lemma_not_prefix(d, "admin_manage_"@, 0);
            lemma_not_prefix(d, "freeze_admin_"@, 0);
            lemma_not_prefix(d, "unfreeze_admin_"@, 0);
            lemma_not_prefix(d, "rmadmin_"@, 0);
            lemma_not_prefix(d, "confirm_rmadmin_"@, 0);
            assert(d[0] != "cancel_rmadmin"@[0]);
            assert(d[2] != "back_to_admins"@[2]);
            assert(d[0] != "next"@[0]);
            lemma_not_prefix(d, "approve_"@, 0);
            lemma_not_prefix(d, "reject_"@, 0);
            lemma_not_prefix(d, "reason_"@, 0);
        },
        _ => {},
    }
}

/// What a button of the master bot asks for.
#[derive(Debug, PartialEq, Eq, Clone, Copy)]
pub enum MasterCallback {
    /// Start connecting a new bot.
    AddBot,
    /// List the user's active bots.
    MyBots,
    /// Disconnect the user's bot with this id.
    Unbind(i32),
    /// Buy the paid plan.
    BuyPro,
    /// Explain the active paid plan.
    ProActiveInfo,
    /// Service owner: a page of the client list (0 when unreadable).
    ClientsPage(i64),
    /// Service owner: the card of client `tg_id`.
    Client(i64),
    /// Service owner: ban or unban a client.
    BanClient(i64),
    /// Service owner: switch a client's plan.
    ChangePlan(i64),
    /// Service owner: the first page of a client's bots.
    ClientBots(i64),
    /// Service owner: a page of a client's bots.
    ClientBotsPage(i64, i64),
    /// Service owner: the card of one bot.
    BotInfo(i32),
    Unknown,
}

impl MasterCallback {
    /// Requests only the service owner may make.
    pub open spec fn spec_is_owner_only(self) -> bool {
        match self {
            MasterCallback::ClientsPage(_) | MasterCallback::Client(_) | MasterCallback::BanClient(_)
            | MasterCallback::ChangePlan(_) | MasterCallback::ClientBots(_)
            | MasterCallback::ClientBotsPage(_, _) | MasterCallback::BotInfo(_) => true,
            _ => false,
        }
    }

    /// Whether only the service owner may make the request.
    #[verifier::when_used_as_spec(spec_is_owner_only)]
    pub fn is_owner_only(self) -> (r: bool)
        ensures
            r == self.spec_is_owner_only(),
    {
        match self {
            MasterCallback::ClientsPage(_) | MasterCallback::Client(_) | MasterCallback::BanClient(_)
            | MasterCallback::ChangePlan(_) | MasterCallback::ClientBots(_)
            | MasterCallback::ClientBotsPage(_, _) | MasterCallback::BotInfo(_) => true,
            _ => false,
        }
    }
}

/// The client and page of "clientbots_page_<client>_<page>" data: the text
/// after the prefix is split at its last '_'.
pub open spec fn client_bots_page(rest: Seq<char>) -> Option<(i64, i64)> {
    match last_index_of(rest, '_') {
        Some(k) => match (parse_i64(rest.take(k)), parse_i64(rest.skip(k + 1))) {
            (Some(t), Some(p)) => Some((t, p)),
            _ => None,
        },
        None => None,
    }
}

/// The request a master button's data makes, prefixes tried in this order.
pub open spec fn master_callback(d: Seq<char>) -> MasterCallback {
    if d == "add_bot"@ {
        MasterCallback::AddBot
    } else if d == "my_bots"@ {
        MasterCallback::MyBots
    } else if has_prefix(d, "unbind_"@) && parse_i32(d.skip(7)) is Some {
        MasterCallback::Unbind(parse_i32(d.skip(7))->0)
    } else if d == "buy_pro"@ {
        MasterCallback::BuyPro
    } else if d == "pro_active_info"@ {
        MasterCallback::ProActiveInfo
    } else if has_prefix(d, "clients_page_"@) {
        MasterCallback::ClientsPage(id_or_zero(d.skip(13)))
    } else if has_prefix(d, "client_"@) && parse_i64(d.skip(7)) is Some {
        MasterCallback::Client(parse_i64(d.skip(7))->0)
    } else if has_prefix(d, "banclient_"@) && parse_i64(d.skip(10)) is Some {
        MasterCallback::BanClient(parse_i64(d.skip(10))->0)
    } else if has_prefix(d, "changeplan_"@) && parse_i64(d.skip(11)) is Some {
        MasterCallback::ChangePlan(parse_i64(d.skip(11))->0)
    } else if has_prefix(d, "clientbots_"@) && parse_i64(d.skip(11)) is Some {
        MasterCallback::ClientBots(parse_i64(d.skip(11))->0)
    } else if has_prefix(d, "clientbots_page_"@) && client_bots_page(d.skip(16)) is Some {
        MasterCallback::ClientBotsPage(
            (client_bots_page(d.skip(16))->0).0,
            (client_bots_page(d.skip(16))->0).1,
        )
    } else if has_prefix(d, "botinfo_"@) && parse_i32(d.skip(8)) is Some {
        MasterCallback::BotInfo(parse_i32(d.skip(8))->0)
    } else {
        MasterCallback::Unknown
    }
}

fn parse32_after(d: &Vec<char>, k: usize) -> (res: Option<i32>)
    requires
        k <= d.len(),
    ensures
        res == parse_i32(d@.skip(k as int)),
{
    assert(d@.subrange(k as int, d.len() as int) =~= d@.skip(k as int));
    parse_i32_chars(d, k, d.len())
}

fn client_bots_page_exec(d: &Vec<char>, k: usize) -> (res: Option<(i64, i64)>)
    requires
        k <= d.len(),
    ensures
        res == client_bots_page(d@.skip(k as int)),
{
    let rest = sub_chars(d, k, d.len());
    assert(rest@ =~= d@.skip(k as int));
    match rfind_char(&rest, '_') {
        Some(i) => {
            let a = parse_i64_chars(&rest, 0, i);
            let b = parse_i64_chars(&rest, i + 1, rest.len());
            assert(rest@.subrange(0, i as int) =~= rest@.take(i as int));
            assert(rest@.subrange(i + 1, rest.len() as int) =~= rest@.skip(i + 1));
            match (a, b) {
                (Some(t), Some(p)) => Some((t, p)),
                _ => None,
            }
        },
        None => None,
    }
}

/// Reads the data of a master bot's button.
pub fn parse_master_callback(data: &str) -> (res: MasterCallback)
    ensures
        res == master_callback(data@),
{
    proof {
        reveal_strlit("unbind_");
        reveal_strlit("clients_page_");
        reveal_strlit("client_");
        reveal_strlit("banclient_");
        reveal_strlit("changeplan_");
        reveal_strlit("clientbots_");
        reveal_strlit("clientbots_page_");
        reveal_strlit("botinfo_");
    }
    let d = chars_of(data);
    if str_eq(data, "add_bot") {
        return MasterCallback::AddBot;
    }
    if str_eq(data, "my_bots") {
        return MasterCallback::MyBots;
    }
    if starts_with_str(&d, "unbind_") {
        if let Some(id) = parse32_after(&d, 7) {
            return MasterCallback::Unbind(id);
        }
    }
    if str_eq(data, "buy_pro") {
        return MasterCallback::BuyPro;
    }
    if str_eq(data, "pro_active_info") {
        return MasterCallback::ProActiveInfo;
    }
    if starts_with_str(&d, "clients_page_") {
        return MasterCallback::ClientsPage(id_after(&d, 13));
    }
    if starts_with_str(&d, "client_") {
        if let Some(id) = parse_after(&d, 7) {
            return MasterCallback::Client(id);
        }
    }
    if starts_with_str(&d, "banclient_") {
        if let Some(id) = parse_after(&d, 10) {
            return MasterCallback::BanClient(id);
        }
    }
    if starts_with_str(&d, "changeplan_") {
        if let Some(id) = parse_after(&d, 11) {
            return MasterCallback::ChangePlan(id);
        }
    }
    if starts_with_str(&d, "clientbots_") {
        if let Some(id) = parse_after(&d, 11) {
            return MasterCallback::ClientBots(id);
        }
    }
    if starts_with_str(&d, "clientbots_page_") {
        if let Some((t, p)) = client_bots_page_exec(&d, 16) {
            return MasterCallback::ClientBotsPage(t, p);
        }
    }
    if starts_with_str(&d, "botinfo_") {
        if let Some(id) = parse32_after(&d, 8) {
            return MasterCallback::BotInfo(id);
        }
    }
    MasterCallback::Unknown
}

/// The data of a master button making request `cb` (empty for `Unknown`).
pub open spec fn master_callback_data(cb: MasterCallback) -> Seq<char> {
    match cb {
        MasterCallback::AddBot => "add_bot"@,
        MasterCallback::MyBots => "my_bots"@,
        MasterCallback::Unbind(i) => "unbind_"@ + int_decimal(i as int),
        MasterCallback::BuyPro => "buy_pro"@,
        MasterCallback::ProActiveInfo => "pro_active_info"@,
        MasterCallback::ClientsPage(n) => "clients_page_"@ + int_decimal(n as int),
        MasterCallback::Client(t) => "client_"@ + int_decimal(t as int),
        MasterCallback::BanClient(t) => "banclient_"@ + int_decimal(t as int),
        MasterCallback::ChangePlan(t) => "changeplan_"@ + int_decimal(t as int),
        MasterCallback::ClientBots(t) => "clientbots_"@ + int_decimal(t as int),
        MasterCallback::ClientBotsPage(t, p) => "clientbots_page_"@ + int_decimal(t as int) + seq!['_']
            + int_decimal(p as int),
        MasterCallback::BotInfo(i) => "botinfo_"@ + int_decimal(i as int),
        MasterCallback::Unknown => Seq::empty(),
    }
}

impl MasterCallback {
    /// The data of a button that makes this request (empty for `Unknown`).
    pub fn data(self) -> (res: String)
        ensures
            res@ == master_callback_data(self),
    {
        match self {
            MasterCallback::AddBot => String::from_str("add_bot"),
            MasterCallback::MyBots => String::from_str("my_bots"),
            MasterCallback::Unbind(i) => prefixed_id("unbind_", i as i64),
            MasterCallback::BuyPro => String::from_str("buy_pro"),
            MasterCallback::ProActiveInfo => String::from_str("pro_active_info"),
            MasterCallback::ClientsPage(n) => prefixed_id("clients_page_", n),
            MasterCallback::Client(t) => prefixed_id("client_", t),
            MasterCallback::BanClient(t) => prefixed_id("banclient_", t),
            MasterCallback::ChangePlan(t) => prefixed_id("changeplan_", t),
            MasterCallback::ClientBots(t) => prefixed_id("clientbots_", t),
            MasterCallback::ClientBotsPage(t, p) => {
                let mut v: Vec<char> = Vec::new();
                push_str(&mut v, prefixed_id("clientbots_page_", t).as_str());
                v.push('_');
                let ghost before = v@;
                let d = i64_decimal(p);
                let mut i: usize = 0;
                while i < d.len()
                    invariant
                        i <= d.len(),
                        v@ == before + d@.subrange(0, i as int),
                    decreases d.len() - i,
                {
                    v.push(d[i]);
                    i = i + 1;
                    assert(v@ =~= before + d@.subrange(0, i as int));
                }
                assert(d@.subrange(0, i as int) =~= d@);
                string_of(v.as_slice())
            },
            MasterCallback::BotInfo(i) => prefixed_id("botinfo_", i as i64),
            MasterCallback::Unknown => String::new(),
        }
    }
}

proof fn lemma_parse_i32_decimal(n: i32)
    ensures
        parse_i32(int_decimal(n as int)) == Some(n),
{
    lemma_parse_i64_decimal(n as i64);
}

proof fn lemma_nat_decimal_digits(m: nat)
    ensures
        all_digits(crate::text::nat_decimal(m)),
        crate::text::nat_decimal(m).len() >= 1,
    decreases m,
{
    if m >= 10 {
        lemma_nat_decimal_digits(m / 10);
        let s = crate::text::nat_decimal(m);
        assert forall|i: int| 0 <= i < s.len() implies '0' <= #[trigger] s[i] <= '9' by {
            if i < s.len() - 1 {
                assert(s[i] == crate::text::nat_decimal(m / 10)[i]);
            }
        }
    }
}

proof fn lemma_any_decimal(n: int)
    ensures
        forall|i: int| 0 <= i < int_decimal(n).len() ==> #[trigger] int_decimal(n)[i] != '_',
        int_decimal(n).len() >= 1,
        int_decimal(n)[0] != 'p',
{
    let s = int_decimal(n);
    if n < 0 {
        lemma_nat_decimal_digits((-n) as nat);
        assert forall|i: int| 0 <= i < s.len() implies #[trigger] s[i] != '_' by {
            if i > 0 {
                assert(s[i] == crate::text::nat_decimal((-n) as nat)[i - 1]);
            }
        }
    } else {
        lemma_nat_decimal_digits(n as nat);
    }
}

proof fn lemma_last_underscore(a: Seq<char>, b: Seq<char>)
    requires
        forall|i: int| 0 <= i < b.len() ==> b[i] != '_',
    ensures
        last_index_of(a + seq!['_'] + b, '_') == Some(a.len() as int),
    decreases b.len(),
{
    let s = a + seq!['_'] + b;
    if b.len() == 0 {
        assert(s.last() == '_');
    } else {
        assert(s.last() == b.last());
        assert(s.drop_last() =~= a + seq!['_'] + b.drop_last());
        lemma_last_underscore(a, b.drop_last());
    }
}

/// Every request a master button can make reads back from its own data.
#[verifier::spinoff_prover]
#[verifier::rlimit(60)]
pub proof fn law_master_callback_round_trip(cb: MasterCallback)
    requires
        cb != MasterCallback::Unknown,
    ensures
        master_callback(master_callback_data(cb)) == cb,
{
    reveal_strlit("add_bot");
    reveal_strlit("my_bots");
    reveal_strlit("unbind_");
    reveal_strlit("buy_pro");
    reveal_strlit("pro_active_info");
    reveal_strlit("clients_page_");
    reveal_strlit("client_");
    reveal_strlit("banclient_");
    reveal_strlit("changeplan_");
    reveal_strlit("clientbots_");
    reveal_strlit("clientbots_page_");
    reveal_strlit("botinfo_");
    let d = master_callback_data(cb);
    match cb {
        MasterCallback::AddBot => {},
        MasterCallback::MyBots => {
            assert(d[0] != "add_bot"@[0]);
        },
        MasterCallback::Unbind(i) => {
            lemma_prefix_of_concat("unbind_"@, int_decimal(i as int));
            lemma_parse_i32_decimal(i);
            assert(d[0] != "add_bot"@[0]);
            assert(d[0] != "my_bots"@[0]);
        },
        MasterCallback::BuyPro => {
            assert(d[0] != "add_bot"@[0]);
            assert(d[0] != "my_bots"@[0]);
            lemma_not_prefix(d, "unbind_"@, 0);
        },
        MasterCallback::ProActiveInfo => {
            assert(d[0] != "add_bot"@[0]);
            assert(d[0] != "my_bots"@[0]);
            lemma_not_prefix(d, "unbind_"@, 0);
            assert(d[0] != "buy_pro"@[0]);
        },
        MasterCallback::ClientsPage(n) => {
            lemma_prefix_of_concat("clients_page_"@, int_decimal(n as int));
            lemma_parse_i64_decimal(n);
            assert(d[0] != "add_bot"@[0]);
            assert(d[0] != "my_bots"@[0]);
            lemma_not_prefix(d, "unbind_"@, 0);
            assert(d[0] != "buy_pro"@[0]);
            assert(d[0] != "pro_active_info"@[0]);
        },
        MasterCallback::Client(t) => {
            lemma_prefix_of_concat("client_"@, int_decimal(t as int));
            lemma_parse_i64_decimal(t);
            assert(d[0] != "add_bot"@[0]);
            assert(d[0] != "my_bots"@[0]);
            lemma_not_prefix(d, "unbind_"@, 0);
            assert(d[0] != "buy_pro"@[0]);
            assert(d[0] != "pro_active_info"@[0]);
            lemma_not_prefix(d, "clients_page_"@, 6);
        },
        MasterCallback::BanClient(t) => {
            lemma_prefix_of_concat("banclient_"@, int_decimal(t as int));
            lemma_parse_i64_decimal(t);
            assert(d[0] != "add_bot"@[0]);
            assert(d[0] != "my_bots"@[0]);
            lemma_not_prefix(d, "unbind_"@, 0);
            assert(d[1] != "buy_pro"@[1]);
            assert(d[0] != "pro_active_info"@[0]);
            lemma_not_prefix(d, "clients_page_"@, 0);
            lemma_not_prefix(d, "client_"@, 0);
        },
        MasterCallback::ChangePlan(t) => {
            lemma_prefix_of_concat("changeplan_"@, int_decimal(t as int));
            lemma_parse_i64_decimal(t);
            assert(d[0] != "add_bot"@[0]);
            assert(d[0] != "my_bots"@[0]);
            lemma_not_prefix(d, "unbind_"@, 0);
            assert(d[0] != "buy_pro"@[0]);
            assert(d[0] != "pro_active_info"@[0]);
            lemma_not_prefix(d, "clients_page_"@, 1);
            lemma_not_prefix(d, "client_"@, 1);
            lemma_not_prefix(d, "banclient_"@, 0);
        },
        MasterCallback::ClientBots(t) => {
            lemma_prefix_of_concat("clientbots_"@, int_decimal(t as int));
            lemma_parse_i64_decimal(t);
            assert(d[0] != "add_bot"@[0]);
            assert(d[0] != "my_bots"@[0]);
            lemma_not_prefix(d, "unbind_"@, 0);
            assert(d[0] != "buy_pro"@[0]);
            assert(d[0] != "pro_active_info"@[0]);
            lemma_not_prefix(d, "clients_page_"@, 6);
            lemma_not_prefix(d, "client_"@, 6);
            lemma_not_prefix(d, "banclient_"@, 0);
            lemma_not_prefix(d, "changeplan_"@, 1);
        },
        MasterCallback::ClientBotsPage(t, p) => {
            let dt = int_decimal(t as int);
            let dp = int_decimal(p as int);
            lemma_any_decimal(t as int);
            lemma_any_decimal(p as int);
            lemma_parse_i64_decimal(t);
            lemma_parse_i64_decimal(p);
            let rest = dt + seq!['_'] + dp;
            assert(d =~= "clientbots_page_"@ + rest);
            lemma_prefix_of_concat("clientbots_page_"@, rest);
            lemma_last_underscore(dt, dp);
            assert(rest.take(dt.len() as int) =~= dt);
            assert(rest.skip(dt.len() as int + 1) =~= dp);
            assert(d[0] != "add_bot"@[0]);
            assert(d[0] != "my_bots"@[0]);
            lemma_not_prefix(d, "unbind_"@, 0);
            assert(d[0] != "buy_pro"@[0]);
            assert(d[0] != "pro_active_info"@[0]);
            lemma_not_prefix(d, "clients_page_"@, 6);
            lemma_not_prefix(d, "client_"@, 6);
            lemma_not_prefix(d, "banclient_"@, 0);
            lemma_not_prefix(d, "changeplan_"@, 1);
            let after = d.skip(11);
            assert(after[0] == 'p');
            assert(!all_digits(after)) by {
                assert(!('0' <= after[0] <= '9'));
            }
            assert(parse_int(after) is None);
        },
        MasterCallback::BotInfo(i) => {
            lemma_prefix_of_concat("botinfo_"@, int_decimal(i as int));
            lemma_parse_i32_decimal(i);
            assert(d[0] != "add_bot"@[0]);
            assert(d[0] != "my_bots"@[0]);
            lemma_not_prefix(d, "unbind_"@, 0);
            assert(d[1] != "buy_pro"@[1]);
            assert(d[0] != "pro_active_info"@[0]);
            lemma_not_prefix(d, "clients_page_"@, 0);
            lemma_not_prefix(d, "client_"@, 0);
            lemma_not_prefix(d, "banclient_"@, 1);
            lemma_not_prefix(d, "changeplan_"@, 0);
            lemma_not_prefix(d, "clientbots_"@, 0);
            lemma_not_prefix(d, "clientbots_page_"@, 0);
        },
        MasterCallback::Unknown => {},
    }
}

} // verus!
