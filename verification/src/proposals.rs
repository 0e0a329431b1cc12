//! Taking a user's message as a proposal, and the moderator's view of a
//! proposal.

use vstd::prelude::*;

use crate::dates::{date_time_text, format_date_time};
use crate::ids::{is_single_group_id, new_single_group_id};
use crate::keyboard::{callback_button, cb, keyboard_view, Button};
use crate::links::{channel_link, opt_str_view, parse_and_strip_tme_link};
use crate::locales::{raw_text, t_text, L10n, Locale};
use crate::models::{Admin, IncomingProposal, Proposal};
use crate::text::{
    chars_of, int_decimal, nat_decimal, push_i64, push_str, push_u64, str_eq, string_of, trim,
    trim_chars,
};

verus! {

/// The text of a proposal after its link to a channel post (if it starts
/// with one) is cut out, with the post it answers.
pub open spec fn stripped_text(text: Seq<char>, channel_id: i64, username: Option<Seq<char>>) -> (
    Seq<char>,
    Option<i64>,
) {
    if text.len() == 0 {
        (text, None)
    } else {
        match channel_link(text, channel_id, username) {
            Some((a, b, m)) => (trim(text.subrange(0, a) + text.subrange(b, text.len() as int)), Some(m as i64)),
            None => (text, None),
        }
    }
}

/// A text proposal whose text is blank is kept as a single space.
pub open spec fn proposal_text(media_type: Seq<char>, text: Seq<char>) -> Seq<char> {
    if media_type == "text"@ && trim(text).len() == 0 {
        seq![' ']
    } else {
        text
    }
}

fn group_id_or_new(media_group_id: &Option<String>) -> (res: String)
    ensures
        match media_group_id {
            Some(g) => res@ == g@,
            None => is_single_group_id(res@),
        },
{
    match media_group_id {
        Some(g) => g.clone(),
        None => new_single_group_id(),
    }
}

/// A user's message to a worker bot as an incoming proposal. A link to a
/// post of the bot's channel in a non-empty text is cut out and makes the
/// proposal an answer to that post; a blank text proposal becomes a single
/// space; an album keeps its media group as its proposal group, any other
/// message gets a fresh "single_" group.
pub fn prepare_proposal(
    chat_id: i64,
    telegram_message_id: i32,
    sender_id: i64,
    media_type: String,
    media_file_id: String,
    message_text: String,
    media_group_id: Option<String>,
    channel_id: i64,
    channel_username: Option<&str>,
) -> (res: IncomingProposal)
    ensures
        res.chat_id == chat_id,
        res.telegram_message_id == telegram_message_id,
        res.sender_id == sender_id,
        res.media_type == media_type,
        res.media_file_id == media_file_id,
        res.media_group_id == media_group_id,
        res.message_text@ == proposal_text(
            media_type@,
            stripped_text(message_text@, channel_id, opt_str_view(channel_username)).0,
        ),
        res.parent_message_id == stripped_text(
            message_text@,
            channel_id,
            opt_str_view(channel_username),
        ).1,
        match media_group_id {
            Some(g) => res.proposal_group_id@ == g@,
            None => is_single_group_id(res.proposal_group_id@),
        },
{
    let mut text = message_text;
    let mut parent: Option<i64> = None;
    if !text.as_str().is_empty() {
        if let Some(m) = parse_and_strip_tme_link(&mut text, channel_id, channel_username) {
            parent = Some(m as i64);
        }
    }
    let blank = trim_chars(&chars_of(text.as_str()));
    if str_eq(media_type.as_str(), "text") && blank.len() == 0 {
        text = String::from_str(" ");
        proof {
            reveal_strlit(" ");
            assert(text@ =~= seq![' ']);
        }
    }
    let proposal_group_id = group_id_or_new(&media_group_id);
    IncomingProposal {
        chat_id,
        telegram_message_id,
        sender_id,
        message_text: text,
        media_type,
        media_file_id,
        media_group_id,
        proposal_group_id,
        parent_message_id: parent,
    }
}

/// A user's answer to channel post `parent_id` as an incoming proposal;
/// the text is kept as it is.
pub fn prepare_reply(
    chat_id: i64,
    telegram_message_id: i32,
    sender_id: i64,
    media_type: String,
    media_file_id: String,
    message_text: String,
    media_group_id: Option<String>,
    parent_id: i64,
) -> (res: IncomingProposal)
    ensures
        res.chat_id == chat_id,
        res.telegram_message_id == telegram_message_id,
        res.sender_id == sender_id,
        res.media_type == media_type,
        res.media_file_id == media_file_id,
        res.message_text == message_text,
        res.media_group_id == media_group_id,
        res.parent_message_id == Some(parent_id),
        match media_group_id {
            Some(g) => res.proposal_group_id@ == g@,
            None => is_single_group_id(res.proposal_group_id@),
        },
{
    let proposal_group_id = group_id_or_new(&media_group_id);
    IncomingProposal {
        chat_id,
        telegram_message_id,
        sender_id,
        message_text,
        media_type,
        media_file_id,
        media_group_id,
        proposal_group_id,
        parent_message_id: Some(parent_id),
    }
}

/// The ids of the moderators to tell about a new proposal: those not
/// frozen, in order.
pub open spec fn active_admin_ids(admins: Seq<Admin>) -> Seq<i64>
    decreases admins.len(),
{
    if admins.len() == 0 {
        Seq::empty()
    } else {
        let rest = active_admin_ids(admins.drop_last());
        if admins.last().frozen {
            rest
        } else {
            rest.push(admins.last().user_id)
        }
    }
}

/// The moderators to notify of a new proposal: every one not frozen.
pub fn notification_recipients(admins: &[Admin]) -> (res: Vec<i64>)
    ensures
        res@ == active_admin_ids(admins@),
{
    let mut out: Vec<i64> = Vec::new();
    let mut i: usize = 0;
    while i < admins.len()
        invariant
            i <= admins.len(),
            out@ == active_admin_ids(admins@.subrange(0, i as int)),
        decreases admins.len() - i,
    {
        assert(admins@.subrange(0, i + 1).drop_last() =~= admins@.subrange(0, i as int));
        if !admins[i].frozen {
            out.push(admins[i].user_id);
        }
        i = i + 1;
    }
    assert(admins@.subrange(0, i as int) =~= admins@);
    out
}

/// Where a published proposal answers, as read from its parent: a
/// negative parent is a channel post id written negated (as
/// `prepare_proposal` and `prepare_reply` file it); any other parent is the
/// id of a stored message, whose channel post is looked up.
#[derive(Debug, Clone, Copy, PartialEq, Eq, Structural)]
pub enum ReplyTarget {
    /// The proposal has no parent.
    NoReply,
    /// The channel post with this id.
    Post(i32),
    /// The channel post of the stored message with this id, if it has one.
    StoredMessage(i64),
}

/// The reply target read from a proposal's parent; the post id of a
/// negative parent is taken to 32 bits as `as i32` does.
pub open spec fn reply_target_of(parent_message_id: Option<i64>) -> ReplyTarget {
    match parent_message_id {
        Some(p) => if p < 0 {
            ReplyTarget::Post((-p) as i32)
        } else {
            ReplyTarget::StoredMessage(p)
        },
        None => ReplyTarget::NoReply,
    }
}

/// Where a proposal with parent `parent_message_id` answers once published.
pub fn reply_target(parent_message_id: Option<i64>) -> (res: ReplyTarget)
    requires
        parent_message_id != Some(i64::MIN),
    ensures
        res == reply_target_of(parent_message_id),
{
    match parent_message_id {
        Some(p) => if p < 0 {
            let q: i64 = -p;
            ReplyTarget::Post(#[verifier::truncate] (q as i32))
        } else {
            ReplyTarget::StoredMessage(p)
        },
        None => ReplyTarget::NoReply,
    }
}

/// What a moderator is shown of a proposal.
pub struct ProposalCard {
    /// How many items the proposal has.
    pub count_text: String,
    /// The id and date of the proposal.
    pub header_text: String,
    /// Approve and reject buttons.
    pub keyboard: Vec<Vec<Button>>,
}

/// The data of a proposal button for proposal `id`.
pub open spec fn id_data(prefix: Seq<char>, id: u64) -> Seq<char> {
    prefix + nat_decimal(id as nat)
}

fn u64_data(prefix: &str, id: u64) -> (res: String)
    ensures
        res@ == id_data(prefix@, id),
{
    let mut v: Vec<char> = Vec::new();
    push_str(&mut v, prefix);
    push_u64(&mut v, id);
    string_of(v.as_slice())
}

fn i64_data(prefix: &str, id: i64) -> (res: String)
    ensures
        res@ == prefix@ + int_decimal(id as int),
{
    let mut v: Vec<char> = Vec::new();
    push_str(&mut v, prefix);
    push_i64(&mut v, id);
    string_of(v.as_slice())
}

/// The card of a proposal: its item count, its header (id and date of its
/// first message), and the buttons "approve_<id>" and "reject_<id>".
pub fn proposal_card(l10n: &L10n, lang: Locale, proposal: &Proposal) -> (res: ProposalCard)
    requires
        proposal.messages.len() > 0,
    ensures
        res.count_text@ == t_text(
            l10n@,
            lang,
            "proposal_items_count"@,
            seq![("count"@, nat_decimal(proposal.messages.len() as nat))],
        ),
        res.header_text@ == t_text(
            l10n@,
            lang,
            "proposal_action_header"@,
            seq![
                ("id"@, nat_decimal(proposal.messages@[0].id as nat)),
                ("date"@, date_time_text(proposal.messages@[0].created_at)),
            ],
        ),
        keyboard_view(res.keyboard@) == seq![
            seq![
                cb(raw_text(l10n@, lang, "approve_btn"@), id_data("approve_"@, proposal.messages@[0].id)),
                cb(raw_text(l10n@, lang, "reject_btn"@), id_data("reject_"@, proposal.messages@[0].id)),
            ],
        ],
{
    let first = proposal.first();
    let count_text = l10n.proposal_items_count(lang, proposal.messages.len());
    let date = format_date_time(first.created_at);
    let header_text = l10n.proposal_action_header(lang, first.id, date.as_str());
    let approve = callback_button(l10n.approve_btn(lang), u64_data("approve_", first.id));
    let reject = callback_button(l10n.reject_btn(lang), u64_data("reject_", first.id));
    let mut row: Vec<Button> = Vec::new();
    row.push(approve);
    row.push(reject);
    let mut keyboard: Vec<Vec<Button>> = Vec::new();
    keyboard.push(row);
    assert(keyboard_view(keyboard@) =~= seq![
        seq![
            cb(raw_text(l10n@, lang, "approve_btn"@), id_data("approve_"@, first.id)),
            cb(raw_text(l10n@, lang, "reject_btn"@), id_data("reject_"@, first.id)),
        ],
    ]) by {
        assert(crate::keyboard::row_view(keyboard@[0]@) =~= seq![
            cb(raw_text(l10n@, lang, "approve_btn"@), id_data("approve_"@, first.id)),
            cb(raw_text(l10n@, lang, "reject_btn"@), id_data("reject_"@, first.id)),
        ]);
    }
    ProposalCard { count_text, header_text, keyboard }
}

/// What a moderator may do after rejecting the proposal whose first stored
/// message is `msg_id`: send a reason, go on, or ban the sender.
pub fn reject_menu(l10n: &L10n, lang: Locale, msg_id: i64) -> (res: (&str, Vec<Vec<Button>>))
    ensures
        res.0@ == raw_text(l10n@, lang, "choose_action"@),
        keyboard_view(res.1@) == seq![
            seq![
                cb(raw_text(l10n@, lang, "reason_btn"@), "reason_"@ + int_decimal(msg_id as int)),
                cb(raw_text(l10n@, lang, "next_btn"@), "next"@),
                cb(raw_text(l10n@, lang, "ban_btn"@), "ban_reason_"@ + int_decimal(msg_id as int)),
            ],
        ],
{
    let mut row: Vec<Button> = Vec::new();
    row.push(callback_button(l10n.reason_btn(lang), i64_data("reason_", msg_id)));
    row.push(callback_button(l10n.next_btn(lang), String::from_str("next")));
    row.push(callback_button(l10n.ban_btn(lang), i64_data("ban_reason_", msg_id)));
    let mut keyboard: Vec<Vec<Button>> = Vec::new();
    keyboard.push(row);
    assert(keyboard_view(keyboard@) =~= seq![
        seq![
            cb(raw_text(l10n@, lang, "reason_btn"@), "reason_"@ + int_decimal(msg_id as int)),
            cb(raw_text(l10n@, lang, "next_btn"@), "next"@),
            cb(raw_text(l10n@, lang, "ban_btn"@), "ban_reason_"@ + int_decimal(msg_id as int)),
        ],
    ]) by {
        assert(crate::keyboard::row_view(keyboard@[0]@) =~= seq![
            cb(raw_text(l10n@, lang, "reason_btn"@), "reason_"@ + int_decimal(msg_id as int)),
            cb(raw_text(l10n@, lang, "next_btn"@), "next"@),
            cb(raw_text(l10n@, lang, "ban_btn"@), "ban_reason_"@ + int_decimal(msg_id as int)),
        ]);
    }
    (l10n.choose_action(lang), keyboard)
}

} // verus!
