//! The buttons the bots draw ask for what they stand for: the data of each
//! button reads back, through the parsers of button data, as the request
//! the button was drawn for.

use vstd::prelude::*;

use crate::callbacks::{
    law_master_callback_round_trip, law_worker_callback_round_trip, lemma_cancel_shows_admins, master_callback,
    master_callback_data, worker_callback, worker_callback_data, MasterCallback, WorkerCallbackView,
};
use crate::keyboard::{cb, ButtonActionView, ButtonView};
use crate::models::{Admin, BotConfig, Client};
use crate::owner::{bot_rows, client_card_keyboard, client_rows, nav_row, start_keyboard, unbind_rows};
use crate::admins::admin_rows;
use crate::proposals::id_data;
use crate::worker_flow::language_keyboard_view;
use crate::locales::{Locale, TranslationsView};
use crate::text::int_decimal;

verus! {

/// The data a button sends back, none for a link.
pub open spec fn data_of(b: ButtonView) -> Option<Seq<char>> {
    match b.action {
        ButtonActionView::Callback(d) => Some(d),
        ButtonActionView::Url(_) => None,
    }
}

/// The master bot reads button `b` as request `cb`.
pub open spec fn asks_master(b: ButtonView, cb: MasterCallback) -> bool {
    data_of(b) matches Some(d) && master_callback(d) == cb
}

/// A worker bot reads button `b` as request `cb`.
pub open spec fn asks_worker(b: ButtonView, cb: WorkerCallbackView) -> bool {
    data_of(b) matches Some(d) && worker_callback(d) == cb
}

/// Each client of the owner's list opens that client's card.
pub proof fn law_client_rows_open_cards(cs: Seq<Client>, now: i64, i: int)
    requires
        0 <= i < cs.len(),
    ensures
        client_rows(cs, now)[i].len() == 1,
        asks_master(client_rows(cs, now)[i][0], MasterCallback::Client(cs[i].tg_user_id)),
{
    law_master_callback_round_trip(MasterCallback::Client(cs[i].tg_user_id));
}

/// The arrows under the owner's client list lead to the page before and
/// the page after the one shown.
pub proof fn law_client_list_arrows(current: i64, total_pages: i64, j: int)
    requires
        0 <= j < nav_row("clients_page_"@, current as int, total_pages as int).len(),
    ensures
        asks_master(
            nav_row("clients_page_"@, current as int, total_pages as int)[j],
            MasterCallback::ClientsPage(
                if j == 0 && current > 0 {
                    (current - 1) as i64
                } else {
                    (current + 1) as i64
                },
            ),
        ),
{
    if j == 0 && current > 0 {
        law_master_callback_round_trip(MasterCallback::ClientsPage((current - 1) as i64));
    } else {
        law_master_callback_round_trip(MasterCallback::ClientsPage((current + 1) as i64));
    }
}

/// The buttons of a client's card ban or unban it, switch its plan, list
/// its bots, and go back to the first page of the list.
pub proof fn law_client_card_buttons(tr: TranslationsView, lang: Locale, c: Client, now: i64)
    ensures
        asks_master(client_card_keyboard(tr, lang, c, now)[0][0], MasterCallback::BanClient(c.tg_user_id)),
        asks_master(client_card_keyboard(tr, lang, c, now)[1][0], MasterCallback::ChangePlan(c.tg_user_id)),
        asks_master(client_card_keyboard(tr, lang, c, now)[2][0], MasterCallback::ClientBots(c.tg_user_id)),
        asks_master(client_card_keyboard(tr, lang, c, now)[3][0], MasterCallback::ClientsPage(0)),
{
    law_master_callback_round_trip(MasterCallback::BanClient(c.tg_user_id));
    law_master_callback_round_trip(MasterCallback::ChangePlan(c.tg_user_id));
    law_master_callback_round_trip(MasterCallback::ClientBots(c.tg_user_id));
    law_master_callback_round_trip(MasterCallback::ClientsPage(0));
    assert("clients_page_0"@ =~= "clients_page_"@ + int_decimal(0)) by {
        reveal_strlit("clients_page_0");
        reveal_strlit("clients_page_");
    }
}

/// Each bot of a client's list opens that bot's card.
pub proof fn law_bot_rows_open_cards(bs: Seq<BotConfig>, i: int)
    requires
        0 <= i < bs.len(),
    ensures
        bot_rows(bs)[i].len() == 1,
        asks_master(bot_rows(bs)[i][0], MasterCallback::BotInfo(bs[i].id)),
{
    law_master_callback_round_trip(MasterCallback::BotInfo(bs[i].id));
}

/// The arrows under a client's bot list lead to the page before and the
/// page after the one shown, of the same client.
pub proof fn law_client_bots_arrows(tg_id: i64, current: i64, total_pages: i64, j: int)
    requires
        0 <= j < nav_row(
            "clientbots_page_"@ + int_decimal(tg_id as int) + "_"@,
            current as int,
            total_pages as int,
        ).len(),
    ensures
        asks_master(
            nav_row("clientbots_page_"@ + int_decimal(tg_id as int) + "_"@, current as int, total_pages as int)[j],
            MasterCallback::ClientBotsPage(
                tg_id,
                if j == 0 && current > 0 {
                    (current - 1) as i64
                } else {
                    (current + 1) as i64
                },
            ),
        ),
{
    let p: i64 = if j == 0 && current > 0 {
        (current - 1) as i64
    } else {
        (current + 1) as i64
    };
    law_master_callback_round_trip(MasterCallback::ClientBotsPage(tg_id, p));
    assert("clientbots_page_"@ + int_decimal(tg_id as int) + "_"@ + int_decimal(p as int) =~= "clientbots_page_"@
        + int_decimal(tg_id as int) + seq!['_'] + int_decimal(p as int)) by {
        reveal_strlit("_");
    }
}

/// Each bot of a client's own menu disconnects that bot.
pub proof fn law_unbind_rows(bs: Seq<BotConfig>, i: int)
    requires
        0 <= i < bs.len(),
    ensures
        unbind_rows(bs)[i].len() == 1,
        asks_master(unbind_rows(bs)[i][0], MasterCallback::Unbind(bs[i].id)),
{
    law_master_callback_round_trip(MasterCallback::Unbind(bs[i].id));
}

/// The welcome's buttons add a bot, list the client's bots, and explain or
/// sell the paid plan.
pub proof fn law_start_buttons(is_pro: bool, url: Seq<char>)
    ensures
        asks_master(start_keyboard(is_pro, url)[0][0], MasterCallback::AddBot),
        asks_master(start_keyboard(is_pro, url)[0][1], MasterCallback::MyBots),
        asks_master(
            start_keyboard(is_pro, url)[1][0],
            if is_pro {
                MasterCallback::ProActiveInfo
            } else {
                MasterCallback::BuyPro
            },
        ),
{
    law_master_callback_round_trip(MasterCallback::AddBot);
    law_master_callback_round_trip(MasterCallback::MyBots);
    law_master_callback_round_trip(MasterCallback::ProActiveInfo);
    law_master_callback_round_trip(MasterCallback::BuyPro);
}

/// Each moderator of the owner's list opens that moderator's card.
pub proof fn law_admin_rows_open_cards(admins: Seq<Admin>, owner_id: i64, i: int)
    requires
        0 <= i < admin_rows(admins, owner_id).len(),
    ensures
        admin_rows(admins, owner_id)[i].len() == 1,
        exists|k: int|
            0 <= k < admins.len() && admins[k].user_id != owner_id && asks_worker(
                #[trigger] admin_rows(admins, owner_id)[i][0],
                WorkerCallbackView::ManageAdmin(admins[k].user_id),
            ),
    decreases admins.len(),
{
    let rest = admin_rows(admins.drop_last(), owner_id);
    let a = admins.last();
    if i < rest.len() {
        law_admin_rows_open_cards(admins.drop_last(), owner_id, i);
        let k = choose|k: int|
            0 <= k < admins.drop_last().len() && admins.drop_last()[k].user_id != owner_id && asks_worker(
                #[trigger] admin_rows(admins.drop_last(), owner_id)[i][0],
                WorkerCallbackView::ManageAdmin(admins.drop_last()[k].user_id),
            );
        assert(admins[k] == admins.drop_last()[k]);
    } else {
        law_worker_callback_round_trip(WorkerCallbackView::ManageAdmin(a.user_id));
        assert(admins[admins.len() - 1] == a);
    }
}

/// The buttons of a moderator's card and of the question before removing
/// one freeze or unfreeze, remove, confirm the removal of, and go back from
/// that moderator, whatever their labels.
pub proof fn law_admin_card_buttons(t: Seq<char>, id: i64)
    ensures
        asks_worker(cb(t, "freeze_admin_"@ + int_decimal(id as int)), WorkerCallbackView::FreezeAdmin(id)),
        asks_worker(cb(t, "unfreeze_admin_"@ + int_decimal(id as int)), WorkerCallbackView::UnfreezeAdmin(id)),
        asks_worker(cb(t, "rmadmin_"@ + int_decimal(id as int)), WorkerCallbackView::RemoveAdmin(id)),
        asks_worker(
            cb(t, "confirm_rmadmin_"@ + int_decimal(id as int)),
            WorkerCallbackView::ConfirmRemoveAdmin(id),
        ),
        asks_worker(cb(t, "back_to_admins"@), WorkerCallbackView::ShowAdmins),
        asks_worker(cb(t, "cancel_rmadmin"@), WorkerCallbackView::ShowAdmins),
{
    law_worker_callback_round_trip(WorkerCallbackView::FreezeAdmin(id));
    law_worker_callback_round_trip(WorkerCallbackView::UnfreezeAdmin(id));
    law_worker_callback_round_trip(WorkerCallbackView::RemoveAdmin(id));
    law_worker_callback_round_trip(WorkerCallbackView::ConfirmRemoveAdmin(id));
    law_worker_callback_round_trip(WorkerCallbackView::ShowAdmins);
    lemma_cancel_shows_admins();
}

/// The button under an invitation withdraws that invitation.
pub proof fn law_invite_button(t: Seq<char>, code: Seq<char>)
    ensures
        asks_worker(cb(t, "revoke_invite_"@ + code), WorkerCallbackView::RevokeInvite(code)),
{
    law_worker_callback_round_trip(WorkerCallbackView::RevokeInvite(code));
}

/// The buttons of a proposal's card approve and reject that proposal, for
/// any proposal id a signed 64-bit number can hold.
pub proof fn law_proposal_card_buttons(t: Seq<char>, id: u64)
    requires
        id <= i64::MAX,
    ensures
        asks_worker(cb(t, id_data("approve_"@, id)), WorkerCallbackView::Approve(id as i64)),
        asks_worker(cb(t, id_data("reject_"@, id)), WorkerCallbackView::Reject(id as i64)),
{
    law_worker_callback_round_trip(WorkerCallbackView::Approve(id as i64));
    law_worker_callback_round_trip(WorkerCallbackView::Reject(id as i64));
}

/// The buttons after a rejection ask for a reason, go on to the next
/// proposal, or ask for a ban reason, for that message.
pub proof fn law_reject_menu_buttons(t: Seq<char>, msg_id: i64)
    ensures
        asks_worker(cb(t, "reason_"@ + int_decimal(msg_id as int)), WorkerCallbackView::Reason(msg_id)),
        asks_worker(cb(t, "next"@), WorkerCallbackView::Next),
        asks_worker(cb(t, "ban_reason_"@ + int_decimal(msg_id as int)), WorkerCallbackView::BanReason(msg_id)),
{
    law_worker_callback_round_trip(WorkerCallbackView::Reason(msg_id));
    law_worker_callback_round_trip(WorkerCallbackView::Next);
    law_worker_callback_round_trip(WorkerCallbackView::BanReason(msg_id));
}

/// The setup's buttons choose Russian and English.
pub proof fn law_language_buttons()
    ensures
        asks_worker(language_keyboard_view()[0][0], WorkerCallbackView::SetupLanguage(Locale::Ru)),
        asks_worker(language_keyboard_view()[0][1], WorkerCallbackView::SetupLanguage(Locale::En)),
{
    law_worker_callback_round_trip(WorkerCallbackView::SetupLanguage(Locale::Ru));
    law_worker_callback_round_trip(WorkerCallbackView::SetupLanguage(Locale::En));
}

} // verus!
