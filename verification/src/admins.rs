//! What the owner of a worker bot sees when managing moderators, and the
//! list of active bans.

use vstd::prelude::*;

use crate::dates::{date_time_text, format_date_time};
use crate::keyboard::{callback_button, cb, keyboard_view, row_view, Button, ButtonView};
use crate::locales::{raw_text, t_text, L10n, Locale};
use crate::models::{Admin, BanRecord};
use crate::text::{chars_of, int_decimal, nat_decimal, push_chars, push_i64, push_str, string_of};

verus! {

/// The label of a moderator's button: frozen ones are marked with a
/// snowflake, others with a person.
pub open spec fn admin_label(a: Admin) -> Seq<char> {
    (if a.frozen {
        "❄️ "@
    } else {
        "👤 "@
    }) + a.user_name@ + " (ID: "@ + int_decimal(a.user_id as int) + ")"@
}

/// One button per moderator other than the owner, in order.
pub open spec fn admin_rows(admins: Seq<Admin>, owner_id: i64) -> Seq<Seq<ButtonView>>
    decreases admins.len(),
{
    if admins.len() == 0 {
        Seq::empty()
    } else {
        let rest = admin_rows(admins.drop_last(), owner_id);
        let a = admins.last();
        if a.user_id == owner_id {
            rest
        } else {
            rest.push(seq![cb(admin_label(a), "admin_manage_"@ + int_decimal(a.user_id as int))])
        }
    }
}

/// The text above the moderator list.
pub open spec fn admins_text(tr: crate::locales::TranslationsView, lang: Locale, owner_id: i64, any: bool) -> Seq<char> {
    t_text(tr, lang, "admins_list_header"@, seq![("owner_id"@, int_decimal(owner_id as int))]) + if any {
        raw_text(tr, lang, "admins_manage_hint"@)
    } else {
        raw_text(tr, lang, "no_admins_to_remove"@)
    }
}

fn id_data(prefix: &str, id: i64) -> (res: String)
    ensures
        res@ == prefix@ + int_decimal(id as int),
{
    let mut v: Vec<char> = Vec::new();
    push_str(&mut v, prefix);
    push_i64(&mut v, id);
    string_of(v.as_slice())
}

fn label_of(a: &Admin) -> (res: String)
    ensures
        res@ == admin_label(*a),
{
    let mut v: Vec<char> = Vec::new();
    if a.frozen {
        push_str(&mut v, "❄️ ");
    } else {
        push_str(&mut v, "👤 ");
    }
    push_str(&mut v, a.user_name.as_str());
    push_str(&mut v, " (ID: ");
    push_i64(&mut v, a.user_id);
    push_str(&mut v, ")");
    string_of(v.as_slice())
}

/// The moderator list of a bot owned by `owner_id`: its text and one
/// button per moderator other than the owner.
pub fn build_admins_inline(l10n: &L10n, lang: Locale, admins: &[Admin], owner_id: i64) -> (res: (
    String,
    Vec<Vec<Button>>,
))
    ensures
        keyboard_view(res.1@) == admin_rows(admins@, owner_id),
        res.0@ == admins_text(l10n@, lang, owner_id, admin_rows(admins@, owner_id).len() > 0),
{
    let mut keyboard: Vec<Vec<Button>> = Vec::new();
    let mut i: usize = 0;
    while i < admins.len()
        invariant
            i <= admins.len(),
            keyboard_view(keyboard@) == admin_rows(admins@.subrange(0, i as int), owner_id),
        decreases admins.len() - i,
    {
        let ghost before = keyboard@;
        assert(admins@.subrange(0, i + 1).drop_last() =~= admins@.subrange(0, i as int));
        let a = &admins[i];
        if a.user_id != owner_id {
            let mut row: Vec<Button> = Vec::new();
            row.push(callback_button(label_of(a).as_str(), id_data("admin_manage_", a.user_id)));
            keyboard.push(row);
            assert(keyboard_view(keyboard@) =~= keyboard_view(before).push(row_view(row@)));
            assert(row_view(row@) =~= seq![
                cb(admin_label(*a), "admin_manage_"@ + int_decimal(a.user_id as int)),
            ]);
        }
        i = i + 1;
    }
    assert(admins@.subrange(0, i as int) =~= admins@);
    let mut text: Vec<char> = chars_of(l10n.admins_list_header(lang, owner_id).as_str());
    if keyboard.len() == 0 {
        push_str(&mut text, l10n.no_admins_to_remove(lang));
    } else {
        push_str(&mut text, l10n.admins_manage_hint(lang));
    }
    (string_of(text.as_slice()), keyboard)
}

/// The management card of one moderator: its title and the buttons to
/// freeze or unfreeze, remove, and go back.
pub fn build_admin_manage_inline(l10n: &L10n, lang: Locale, admin: &Admin) -> (res: (
    String,
    Vec<Vec<Button>>,
))
    ensures
        res.0@ == t_text(
            l10n@,
            lang,
            "admin_manage_title"@,
            seq![("name"@, admin.user_name@), ("id"@, int_decimal(admin.user_id as int))],
        ),
        keyboard_view(res.1@) == seq![
            if admin.frozen {
                seq![
                    cb(
                        raw_text(l10n@, lang, "unfreeze_btn"@),
                        "unfreeze_admin_"@ + int_decimal(admin.user_id as int),
                    ),
                ]
            } else {
                seq![
                    cb(
                        raw_text(l10n@, lang, "freeze_btn"@),
                        "freeze_admin_"@ + int_decimal(admin.user_id as int),
                    ),
                ]
            },
            seq![cb(raw_text(l10n@, lang, "remove_btn"@), "rmadmin_"@ + int_decimal(admin.user_id as int))],
            seq![cb(raw_text(l10n@, lang, "back_btn"@), "back_to_admins"@)],
        ],
{
    let text = l10n.admin_manage_title(lang, admin.user_name.as_str(), admin.user_id);
    let mut first: Vec<Button> = Vec::new();
    if admin.frozen {
        first.push(callback_button(l10n.unfreeze_btn(lang), id_data("unfreeze_admin_", admin.user_id)));
    } else {
        first.push(callback_button(l10n.freeze_btn(lang), id_data("freeze_admin_", admin.user_id)));
    }
    let mut second: Vec<Button> = Vec::new();
    second.push(callback_button(l10n.remove_btn(lang), id_data("rmadmin_", admin.user_id)));
    let mut third: Vec<Button> = Vec::new();
    third.push(callback_button(l10n.back_btn(lang), String::from_str("back_to_admins")));
    let mut keyboard: Vec<Vec<Button>> = Vec::new();
    keyboard.push(first);
    keyboard.push(second);
    keyboard.push(third);
    assert(row_view(keyboard@[0]@) =~= if admin.frozen {
        seq![
            cb(
                raw_text(l10n@, lang, "unfreeze_btn"@),
                "unfreeze_admin_"@ + int_decimal(admin.user_id as int),
            ),
        ]
    } else {
        seq![
            cb(raw_text(l10n@, lang, "freeze_btn"@), "freeze_admin_"@ + int_decimal(admin.user_id as int)),
        ]
    });
    assert(row_view(keyboard@[1]@) =~= seq![
        cb(raw_text(l10n@, lang, "remove_btn"@), "rmadmin_"@ + int_decimal(admin.user_id as int)),
    ]);
    assert(row_view(keyboard@[2]@) =~= seq![cb(raw_text(l10n@, lang, "back_btn"@), "back_to_admins"@)]);
    assert(keyboard_view(keyboard@) =~= seq![
        row_view(keyboard@[0]@),
        row_view(keyboard@[1]@),
        row_view(keyboard@[2]@),
    ]);
    (text, keyboard)
}

/// The confirmation asked before removing a moderator.
pub fn build_remove_confirmation(l10n: &L10n, lang: Locale, admin: &Admin) -> (res: (
    String,
    Vec<Vec<Button>>,
))
    ensures
        res.0@ == t_text(
            l10n@,
            lang,
            "confirm_remove_admin"@,
            seq![("name"@, admin.user_name@), ("id"@, int_decimal(admin.user_id as int))],
        ),
        keyboard_view(res.1@) == seq![
            seq![
                cb(
                    raw_text(l10n@, lang, "confirm_yes"@),
                    "confirm_rmadmin_"@ + int_decimal(admin.user_id as int),
                ),
            ],
            seq![cb(raw_text(l10n@, lang, "confirm_no"@), "cancel_rmadmin"@)],
        ],
{
    let text = l10n.confirm_remove_admin(lang, admin.user_name.as_str(), admin.user_id);
    let mut yes: Vec<Button> = Vec::new();
    yes.push(callback_button(l10n.confirm_yes(lang), id_data("confirm_rmadmin_", admin.user_id)));
    let mut no: Vec<Button> = Vec::new();
    no.push(callback_button(l10n.confirm_no(lang), String::from_str("cancel_rmadmin")));
    let mut keyboard: Vec<Vec<Button>> = Vec::new();
    keyboard.push(yes);
    keyboard.push(no);
    assert(row_view(keyboard@[0]@) =~= seq![
        cb(
            raw_text(l10n@, lang, "confirm_yes"@),
            "confirm_rmadmin_"@ + int_decimal(admin.user_id as int),
        ),
    ]);
    assert(row_view(keyboard@[1]@) =~= seq![cb(raw_text(l10n@, lang, "confirm_no"@), "cancel_rmadmin"@)]);
    assert(keyboard_view(keyboard@) =~= seq![row_view(keyboard@[0]@), row_view(keyboard@[1]@)]);
    (text, keyboard)
}

/// The link that makes its opener a moderator of bot `bot_username`.
pub open spec fn invite_link(bot_username: Seq<char>, code: Seq<char>) -> Seq<char> {
    "https://t.me/"@ + bot_username + "?start=admin_"@ + code
}

/// The invitation message: the invitation link, and a button to withdraw
/// it.
pub fn build_invite(l10n: &L10n, lang: Locale, bot_username: &str, code: &str) -> (res: (
    String,
    Vec<Vec<Button>>,
))
    ensures
        res.0@ == t_text(
            l10n@,
            lang,
            "admin_invite_link"@,
            seq![("link"@, invite_link(bot_username@, code@))],
        ),
        keyboard_view(res.1@) == seq![
            seq![cb(raw_text(l10n@, lang, "revoke_invite_btn"@), "revoke_invite_"@ + code@)],
        ],
{
    let mut link: Vec<char> = Vec::new();
    push_str(&mut link, "https://t.me/");
    push_str(&mut link, bot_username);
    push_str(&mut link, "?start=admin_");
    push_str(&mut link, code);
    let link = string_of(link.as_slice());
    let text = l10n.admin_invite_link(lang, link.as_str());
    let mut data: Vec<char> = Vec::new();
    push_str(&mut data, "revoke_invite_");
    push_str(&mut data, code);
    let mut row: Vec<Button> = Vec::new();
    row.push(callback_button(l10n.revoke_invite_btn(lang), string_of(data.as_slice())));
    let mut keyboard: Vec<Vec<Button>> = Vec::new();
    keyboard.push(row);
    assert(row_view(keyboard@[0]@) =~= seq![
        cb(raw_text(l10n@, lang, "revoke_invite_btn"@), "revoke_invite_"@ + code@),
    ]);
    assert(keyboard_view(keyboard@) =~= seq![row_view(keyboard@[0]@)]);
    (text, keyboard)
}

/// The lines of the ban list, numbered from 1.
pub open spec fn ban_entries(
    tr: crate::locales::TranslationsView,
    lang: Locale,
    records: Seq<BanRecord>,
) -> Seq<char>
    decreases records.len(),
{
    if records.len() == 0 {
        Seq::empty()
    } else {
        let r = records.last();
        ban_entries(tr, lang, records.drop_last()) + t_text(
            tr,
            lang,
            "ban_record_entry"@,
            seq![
                ("i"@, nat_decimal(records.len())),
                ("ban_id"@, r.ban_id@),
                ("reason"@, r.reason@),
                ("date"@, date_time_text(r.created_at)),
            ],
        )
    }
}

/// The list of active bans: the header, then one numbered line per ban.
pub fn build_ban_list(l10n: &L10n, lang: Locale, records: &[BanRecord]) -> (res: String)
    requires
        records.len() < usize::MAX,
    ensures
        res@ == raw_text(l10n@, lang, "active_bans_header"@) + ban_entries(l10n@, lang, records@),
{
    let mut text: Vec<char> = chars_of(l10n.active_bans_header(lang));
    let ghost head = text@;
    let mut i: usize = 0;
    while i < records.len()
        invariant
            i <= records.len() < usize::MAX,
            text@ == head + ban_entries(l10n@, lang, records@.subrange(0, i as int)),
        decreases records.len() - i,
    {
        let r = &records[i];
        let date = format_date_time(r.created_at);
        let line = l10n.ban_record_entry(lang, i + 1, r.ban_id.as_str(), r.reason.as_str(), date.as_str());
        let ghost before = text@;
        push_str(&mut text, line.as_str());
        assert(records@.subrange(0, i + 1).drop_last() =~= records@.subrange(0, i as int));
        assert(records@.subrange(0, i + 1).last() == records@[i as int]);
        assert(text@ =~= head + ban_entries(l10n@, lang, records@.subrange(0, i + 1)));
        i = i + 1;
    }
    assert(records@.subrange(0, i as int) =~= records@);
    string_of(text.as_slice())
}

} // verus!
