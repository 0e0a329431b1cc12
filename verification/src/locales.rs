//! Bilingual message catalogue: looking up a message by key with fallback
//! to the other language, and rendering `{name}` placeholders.

use vstd::prelude::*;

use crate::text::{
    ascii_lower, chars_of, lower_char, i64_decimal, int_decimal, nat_decimal, replace_all, replace_all_chars, str_eq,
    string_of, u64_decimal,
};

verus! {

/// The interface languages.
#[derive(Debug, Clone, Copy, PartialEq, Eq, Structural)]
pub enum Locale {
    En,
    Ru,
}

/// The locale code `s` names, compared case-insensitively: "en" or "ru".
pub open spec fn parse_locale(s: Seq<char>) -> Option<Locale> {
    if s.len() == 2 && lower_char(s[0]) == 'e' && lower_char(s[1]) == 'n' {
        Some(Locale::En)
    } else if s.len() == 2 && lower_char(s[0]) == 'r' && lower_char(s[1]) == 'u' {
        Some(Locale::Ru)
    } else {
        None
    }
}

/// The code of a locale.
pub open spec fn locale_code(l: Locale) -> Seq<char> {
    match l {
        Locale::En => seq!['e', 'n'],
        Locale::Ru => seq!['r', 'u'],
    }
}

impl Locale {
    /// The locale whose code is `s`, ignoring case.
    pub fn parse(s: &str) -> (res: Option<Locale>)
        ensures
            res == parse_locale(s@),
    {
        let v = chars_of(s);
        if v.len() != 2 {
            return None;
        }
        let a = ascii_lower(v[0]);
        let b = ascii_lower(v[1]);
        if a == 'e' && b == 'n' {
            Some(Locale::En)
        } else if a == 'r' && b == 'u' {
            Some(Locale::Ru)
        } else {
            None
        }
    }

    /// The two-letter code of the locale.
    pub fn as_str(&self) -> (res: &'static str)
        ensures
            res@ == locale_code(*self),
    {
        proof {
            reveal_strlit("en");
            reveal_strlit("ru");
        }
        match self {
            Locale::En => "en",
            Locale::Ru => "ru",
        }
    }
}

/// A locale's code reads back as that locale, in any case of its letters.
pub proof fn law_locale_round_trip(l: Locale)
    ensures
        parse_locale(locale_code(l)) == Some(l),
        parse_locale(locale_code(l).map_values(|c: char| (c as u32 - 32) as char)) == Some(l),
{
    let up = locale_code(l).map_values(|c: char| (c as u32 - 32) as char);
    assert(up.len() == 2);
}

/// A list of (key, message) pairs, seen as character sequences.
pub type EntriesView = Seq<(Seq<char>, Seq<char>)>;

/// The message of the first entry whose key is `k`.
pub open spec fn lookup(s: EntriesView, k: Seq<char>) -> Option<Seq<char>>
    decreases s.len(),
{
    if s.len() == 0 {
        None
    } else if s[0].0 == k {
        Some(s[0].1)
    } else {
        lookup(s.drop_first(), k)
    }
}

/// The entries with `k` set to `v`: the first entry with key `k` has its
/// message replaced, or a new entry is appended when there is none.
pub open spec fn set_entry(s: EntriesView, k: Seq<char>, v: Seq<char>) -> EntriesView
    decreases s.len(),
{
    if s.len() == 0 {
        seq![(k, v)]
    } else if s[0].0 == k {
        s.update(0, (k, v))
    } else {
        seq![s[0]] + set_entry(s.drop_first(), k, v)
    }
}

/// The message catalogue of both languages.
pub struct Translations {
    en: Vec<(String, String)>,
    ru: Vec<(String, String)>,
}

/// The entries of a vector of string pairs as character sequences.
pub open spec fn entries_view(v: Seq<(String, String)>) -> EntriesView {
    v.map_values(|e: (String, String)| (e.0@, e.1@))
}

/// The two catalogues, English first.
pub struct TranslationsView {
    pub en: EntriesView,
    pub ru: EntriesView,
}

impl View for Translations {
    type V = TranslationsView;

    closed spec fn view(&self) -> TranslationsView {
        TranslationsView { en: entries_view(self.en@), ru: entries_view(self.ru@) }
    }
}

impl TranslationsView {
    /// The entries of one language.
    pub open spec fn of(self, l: Locale) -> EntriesView {
        match l {
            Locale::En => self.en,
            Locale::Ru => self.ru,
        }
    }

    /// The entries of the other language, used as a fallback.
    pub open spec fn other(self, l: Locale) -> EntriesView {
        match l {
            Locale::En => self.ru,
            Locale::Ru => self.en,
        }
    }
}

/// The message for `key` in language `l`: the entry of `l`, else the entry
/// of the other language, else the key itself.
pub open spec fn raw_text(tr: TranslationsView, l: Locale, key: Seq<char>) -> Seq<char> {
    match lookup(tr.of(l), key) {
        Some(v) => v,
        None => match lookup(tr.other(l), key) {
            Some(v) => v,
            None => key,
        },
    }
}

/// The placeholder `{name}`.
pub open spec fn placeholder(name: Seq<char>) -> Seq<char> {
    seq!['{'] + name + seq!['}']
}

/// `tpl` with each argument's placeholder replaced by its value, the
/// arguments applied one after the other in order.
pub open spec fn render(tpl: Seq<char>, args: EntriesView) -> Seq<char>
    decreases args.len(),
{
    if args.len() == 0 {
        tpl
    } else {
        render(replace_all(tpl, placeholder(args[0].0), args[0].1), args.drop_first())
    }
}

/// A slice of (name, value) pairs seen as character sequences.
pub open spec fn args_view(args: Seq<(&str, &str)>) -> EntriesView {
    args.map_values(|a: (&str, &str)| (a.0@, a.1@))
}

/// The message for `key` in `l`, with its placeholders filled from `args`.
pub open spec fn t_text(tr: TranslationsView, l: Locale, key: Seq<char>, args: EntriesView) -> Seq<
    char,
> {
    render(raw_text(tr, l, key), args)
}

proof fn lemma_lookup_skip(s: EntriesView, i: int, k: Seq<char>)
    requires
        0 <= i < s.len(),
        s[i].0 != k,
    ensures
        lookup(s.skip(i), k) == lookup(s.skip(i + 1), k),
{
    assert(s.skip(i).drop_first() =~= s.skip(i + 1));
}

fn find_entry<'a>(v: &'a Vec<(String, String)>, key: &str) -> (res: Option<&'a str>)
    ensures
        match res {
            Some(m) => lookup(entries_view(v@), key@) == Some(m@),
            None => lookup(entries_view(v@), key@) is None,
        },
{
    let ghost s = entries_view(v@);
    let mut i: usize = 0;
    assert(s.skip(0) =~= s);
    while i < v.len()
        invariant
            i <= v.len(),
            s == entries_view(v@),
            lookup(s, key@) == lookup(s.skip(i as int), key@),
        decreases v.len() - i,
    {
        let e = &v[i];
        if str_eq(e.0.as_str(), key) {
            assert(s.skip(i as int)[0] == s[i as int]);
            return Some(e.1.as_str());
        }
        proof {
            lemma_lookup_skip(s, i as int, key@);
        }
        i = i + 1;
    }
    assert(s.skip(i as int).len() == 0);
    None
}

proof fn lemma_set_entry_found(s: EntriesView, i: int, k: Seq<char>, v: Seq<char>)
    requires
        0 <= i < s.len(),
        s[i].0 == k,
        forall|j: int| 0 <= j < i ==> s[j].0 != k,
    ensures
        set_entry(s, k, v) == s.update(i, (k, v)),
    decreases i,
{
    if i > 0 {
        lemma_set_entry_found(s.drop_first(), i - 1, k, v);
        assert(seq![s[0]] + s.drop_first().update(i - 1, (k, v)) =~= s.update(i, (k, v)));
    }
}

proof fn lemma_set_entry_absent(s: EntriesView, k: Seq<char>, v: Seq<char>)
    requires
        forall|j: int| 0 <= j < s.len() ==> s[j].0 != k,
    ensures
        set_entry(s, k, v) == s.push((k, v)),
    decreases s.len(),
{
    if s.len() > 0 {
        lemma_set_entry_absent(s.drop_first(), k, v);
        assert(seq![s[0]] + s.drop_first().push((k, v)) =~= s.push((k, v)));
    }
}

/// A catalogue holds, right after a message is set, exactly that message
/// under its key, and every other key keeps the message it had.
pub proof fn lemma_set_then_lookup(s: EntriesView, k: Seq<char>, v: Seq<char>, other: Seq<char>)
    ensures
        lookup(set_entry(s, k, v), k) == Some(v),
        other != k ==> lookup(set_entry(s, k, v), other) == lookup(s, other),
    decreases s.len(),
{
    if s.len() == 0 {
        assert(set_entry(s, k, v) == seq![(k, v)]);
        assert(seq![(k, v)].drop_first() =~= Seq::<(Seq<char>, Seq<char>)>::empty());
        assert(lookup(Seq::<(Seq<char>, Seq<char>)>::empty(), other) is None);
    } else if s[0].0 != k {
        lemma_set_then_lookup(s.drop_first(), k, v, other);
        assert((seq![s[0]] + set_entry(s.drop_first(), k, v)).drop_first() =~= set_entry(
            s.drop_first(),
            k,
            v,
        ));
    } else {
        assert(s.update(0, (k, v)).drop_first() =~= s.drop_first());
    }
}

fn set_in(v: &mut Vec<(String, String)>, key: &str, value: &str)
    ensures
        entries_view(final(v)@) == set_entry(entries_view(old(v)@), key@, value@),
{
    let ghost s = entries_view(v@);
    let mut i: usize = 0;
    let mut found = false;
    while i < v.len()
        invariant_except_break
            !found,
            i <= v.len(),
            forall|j: int| 0 <= j < i ==> s[j].0 != key@,
        invariant
            s == entries_view(v@),
        ensures
            i <= v.len(),
            forall|j: int| 0 <= j < i ==> s[j].0 != key@,
            found ==> i < v.len() && s[i as int].0 == key@,
            !found ==> i == v.len(),
        decreases v.len() - i,
    {
        if str_eq(v[i].0.as_str(), key) {
            found = true;
            break;
        }
        i = i + 1;
    }
    let entry = (String::from_str(key), String::from_str(value));
    if found {
        proof {
            lemma_set_entry_found(s, i as int, key@, value@);
        }
        v.set(i, entry);
        assert(entries_view(v@) =~= s.update(i as int, (key@, value@)));
    } else {
        proof {
            lemma_set_entry_absent(s, key@, value@);
        }
        v.push(entry);
        assert(entries_view(v@) =~= s.push((key@, value@)));
    }
}

impl Translations {
    /// Sets the message of `key` in language `l` to `value`, replacing the
    /// message the key had.
    pub fn insert(&mut self, l: Locale, key: &str, value: &str)
        ensures
            final(self)@.of(l) == set_entry(old(self)@.of(l), key@, value@),
            final(self)@.other(l) == old(self)@.other(l),
    {
        match l {
            Locale::En => set_in(&mut self.en, key, value),
            Locale::Ru => set_in(&mut self.ru, key, value),
        }
    }

    /// An empty catalogue.
    pub fn new() -> (res: Translations)
        ensures
            res@.en.len() == 0,
            res@.ru.len() == 0,
    {
        let res = Translations { en: Vec::new(), ru: Vec::new() };
        assert(res@.en =~= Seq::<(Seq<char>, Seq<char>)>::empty());
        assert(res@.ru =~= Seq::<(Seq<char>, Seq<char>)>::empty());
        res
    }
}

/// The keys of `a` that `b` has no message for, in the order of `a`.
pub open spec fn keys_missing_from(a: EntriesView, b: EntriesView) -> Seq<Seq<char>>
    decreases a.len(),
{
    if a.len() == 0 {
        Seq::empty()
    } else {
        let rest = keys_missing_from(a.drop_last(), b);
        if lookup(b, a.last().0) is None {
            rest.push(a.last().0)
        } else {
            rest
        }
    }
}

fn missing_from(a: &Vec<(String, String)>, b: &Vec<(String, String)>) -> (res: Vec<String>)
    ensures
        res@.map_values(|k: String| k@) == keys_missing_from(entries_view(a@), entries_view(b@)),
{
    let mut out: Vec<String> = Vec::new();
    let mut i: usize = 0;
    while i < a.len()
        invariant
            i <= a.len(),
            out@.map_values(|k: String| k@) == keys_missing_from(
                entries_view(a@).subrange(0, i as int),
                entries_view(b@),
            ),
        decreases a.len() - i,
    {
        let ghost before = out@;
        assert(entries_view(a@).subrange(0, i + 1).drop_last() =~= entries_view(a@).subrange(0, i as int));
        if find_entry(b, a[i].0.as_str()).is_none() {
            out.push(a[i].0.clone());
            assert(out@.map_values(|k: String| k@) =~= before.map_values(|k: String| k@).push(a@[i as int].0@));
        }
        i = i + 1;
    }
    assert(entries_view(a@).subrange(0, i as int) =~= entries_view(a@));
    out
}

impl Translations {
    /// The keys the two languages do not share: those of English missing
    /// in Russian, then those of Russian missing in English.
    pub fn missing_keys(&self) -> (res: (Vec<String>, Vec<String>))
        ensures
            res.0@.map_values(|k: String| k@) == keys_missing_from(self@.en, self@.ru),
            res.1@.map_values(|k: String| k@) == keys_missing_from(self@.ru, self@.en),
    {
        (missing_from(&self.en, &self.ru), missing_from(&self.ru, &self.en))
    }
}

/// The message for `key` in language `l`; falls back to the other language,
/// then to the key itself.
pub fn raw<'a>(tr: &'a Translations, l: Locale, key: &'a str) -> (res: &'a str)
    ensures
        res@ == raw_text(tr@, l, key@),
{
    let (primary, fallback) = match l {
        Locale::En => (&tr.en, &tr.ru),
        Locale::Ru => (&tr.ru, &tr.en),
    };
    match find_entry(primary, key) {
        Some(m) => m,
        None => match find_entry(fallback, key) {
            Some(m) => m,
            None => key,
        },
    }
}

/// The message for `key` in `l` with each `{name}` placeholder replaced by
/// its value, the arguments applied in order.
pub fn t(tr: &Translations, l: Locale, key: &str, args: &[(&str, &str)]) -> (res: String)
    ensures
        res@ == t_text(tr@, l, key@, args_view(args@)),
{
    let mut out = chars_of(raw(tr, l, key));
    let ghost all = args_view(args@);
    let mut k: usize = 0;
    assert(all.skip(0) =~= all);
    while k < args.len()
        invariant
            k <= args.len(),
            all == args_view(args@),
            t_text(tr@, l, key@, all) == render(out@, all.skip(k as int)),
        decreases args.len() - k,
    {
        let (name, value) = args[k];
        let mut pat: Vec<char> = Vec::new();
        pat.push('{');
        let name_chars = chars_of(name);
        let mut j: usize = 0;
        while j < name_chars.len()
            invariant
                j <= name_chars.len(),
                pat@ == seq!['{'] + name_chars@.subrange(0, j as int),
            decreases name_chars.len() - j,
        {
            pat.push(name_chars[j]);
            j = j + 1;
            assert(pat@ =~= seq!['{'] + name_chars@.subrange(0, j as int));
        }
        pat.push('}');
        assert(name_chars@.subrange(0, name_chars.len() as int) =~= name_chars@);
        assert(pat@ =~= placeholder(name@));
        let value_chars = chars_of(value);
        proof {
            let rest = all.skip(k as int);
            assert(rest[0] == (name@, value@));
            assert(rest.drop_first() =~= all.skip(k + 1));
        }
        out = replace_all_chars(&out, &pat, &value_chars);
        k = k + 1;
    }
    assert(all.skip(k as int) =~= Seq::<(Seq<char>, Seq<char>)>::empty());
    string_of(out.as_slice())
}

/// The plan line of a client card: "pro" with or without an expiry date,
/// anything else as free.
pub open spec fn client_plan_text(
    tr: TranslationsView,
    l: Locale,
    plan: Seq<char>,
    expires: Option<Seq<char>>,
) -> Seq<char> {
    if plan == "pro"@ {
        match expires {
            Some(d) => t_text(tr, l, "client_plan_pro_until"@, seq![("date"@, d)]),
            None => raw_text(tr, l, "client_plan_pro"@),
        }
    } else {
        raw_text(tr, l, "client_plan_free"@)
    }
}

/// The placeholder values of a client card.
pub open spec fn client_details_args(
    tr: TranslationsView,
    l: Locale,
    tg_id: int,
    plan: Seq<char>,
    expires: Option<Seq<char>>,
    banned: bool,
    bots_count: nat,
) -> EntriesView {
    seq![
        ("id_label"@, raw_text(tr, l, "field_tg_id"@)),
        ("tg_id"@, int_decimal(tg_id)),
        ("plan_label"@, raw_text(tr, l, "field_plan"@)),
        ("plan"@, client_plan_text(tr, l, plan, expires)),
        ("status_label"@, raw_text(tr, l, "field_status"@)),
        ("status"@, if banned {
            raw_text(tr, l, "client_status_banned"@)
        } else {
            raw_text(tr, l, "client_status_active"@)
        }),
        ("bots_label"@, raw_text(tr, l, "field_bots"@)),
        ("bots"@, nat_decimal(bots_count)),
    ]
}

/// The text of a client card.
pub open spec fn client_details_text(
    tr: TranslationsView,
    l: Locale,
    tg_id: int,
    plan: Seq<char>,
    expires: Option<Seq<char>>,
    banned: bool,
    bots_count: nat,
) -> Seq<char> {
    t_text(tr, l, "client_details"@, client_details_args(tr, l, tg_id, plan, expires, banned, bots_count))
}

/// The placeholder values of a bot card.
pub open spec fn bot_info_args(
    tr: TranslationsView,
    l: Locale,
    username: Seq<char>,
    channel: Seq<char>,
    active: bool,
) -> EntriesView {
    seq![
        ("username_label"@, raw_text(tr, l, "field_username"@)),
        ("username"@, username),
        ("channel_label"@, raw_text(tr, l, "field_channel"@)),
        ("channel"@, channel),
        ("status_label"@, raw_text(tr, l, "field_status"@)),
        ("status"@, if active {
            raw_text(tr, l, "bot_status_active"@)
        } else {
            raw_text(tr, l, "bot_status_inactive"@)
        }),
    ]
}

fn i64_string(n: i64) -> (s: String)
    ensures
        s@ == int_decimal(n as int),
{
    string_of(i64_decimal(n).as_slice())
}

fn u64_string(n: u64) -> (s: String)
    ensures
        s@ == nat_decimal(n as nat),
{
    string_of(u64_decimal(n).as_slice())
}

/// The bot's texts in both languages, read from a message catalogue.
pub struct L10n {
    translations: Translations,
}

impl View for L10n {
    type V = TranslationsView;

    closed spec fn view(&self) -> TranslationsView {
        self.translations@
    }
}

impl L10n {
    /// The texts of the catalogue `translations`.
    pub fn new(translations: Translations) -> (res: L10n)
        ensures
            res@ == translations@,
    {
        L10n { translations }
    }

    /// The catalogue the texts are read from.
    pub fn translations(&self) -> (res: &Translations)
        ensures
            res@ == self@,
    {
        &self.translations
    }

    pub fn welcome(&self, l: Locale) -> (res: &str)
        ensures
            res@ == raw_text(self@, l, "welcome"@),
    {
        raw(&self.translations, l, "welcome")
    }

    pub fn owner_panel(&self, l: Locale) -> (res: &str)
        ensures
            res@ == raw_text(self@, l, "owner_panel"@),
    {
        raw(&self.translations, l, "owner_panel")
    }

    pub fn mod_panel(&self, l: Locale) -> (res: &str)
        ensures
            res@ == raw_text(self@, l, "mod_panel"@),
    {
        raw(&self.translations, l, "mod_panel")
    }

    pub fn mod_frozen_panel(&self, l: Locale) -> (res: &str)
        ensures
            res@ == raw_text(self@, l, "mod_frozen_panel"@),
    {
        raw(&self.translations, l, "mod_frozen_panel")
    }

    pub fn mod_frozen_action(&self, l: Locale) -> (res: &str)
        ensures
            res@ == raw_text(self@, l, "mod_frozen_action"@),
    {
        raw(&self.translations, l, "mod_frozen_action")
    }

    pub fn no_access(&self, l: Locale) -> (res: &str)
        ensures
            res@ == raw_text(self@, l, "no_access"@),
    {
        raw(&self.translations, l, "no_access")
    }

    pub fn master_help(&self, l: Locale) -> (res: &str)
        ensures
            res@ == raw_text(self@, l, "master_help"@),
    {
        raw(&self.translations, l, "master_help")
    }

    pub fn only_owner_add_admins(&self, l: Locale) -> (res: &str)
        ensures
            res@ == raw_text(self@, l, "only_owner_add_admins"@),
    {
        raw(&self.translations, l, "only_owner_add_admins")
    }

    pub fn only_owner_remove_admins(&self, l: Locale) -> (res: &str)
        ensures
            res@ == raw_text(self@, l, "only_owner_remove_admins"@),
    {
        raw(&self.translations, l, "only_owner_remove_admins")
    }

    pub fn only_owner_list_admins(&self, l: Locale) -> (res: &str)
        ensures
            res@ == raw_text(self@, l, "only_owner_list_admins"@),
    {
        raw(&self.translations, l, "only_owner_list_admins")
    }

    pub fn add_admin_usage(&self, l: Locale) -> (res: &str)
        ensures
            res@ == raw_text(self@, l, "add_admin_usage"@),
    {
        raw(&self.translations, l, "add_admin_usage")
    }

    pub fn remove_admin_usage(&self, l: Locale) -> (res: &str)
        ensures
            res@ == raw_text(self@, l, "remove_admin_usage"@),
    {
        raw(&self.translations, l, "remove_admin_usage")
    }

    pub fn admin_already_exists(&self, l: Locale, id: i64) -> (res: String)
        ensures
            res@ == t_text(self@, l, "admin_already_exists"@, seq![("id"@, int_decimal(id as int))]),
    {
        let id_text = i64_string(id);
        let args = [("id", id_text.as_str())];
        proof {
            assert(args_view(args@) =~= seq![("id"@, int_decimal(id as int))]);
        }
        t(&self.translations, l, "admin_already_exists", &args)
    }

    pub fn admin_added(&self, l: Locale, name: &str) -> (res: String)
        ensures
            res@ == t_text(self@, l, "admin_added"@, seq![("name"@, name@)]),
    {
        let args = [("name", name)];
        proof {
            assert(args_view(args@) =~= seq![("name"@, name@)]);
        }
        t(&self.translations, l, "admin_added", &args)
    }

    pub fn admin_added_notification(&self, l: Locale) -> (res: &str)
        ensures
            res@ == raw_text(self@, l, "admin_added_notification"@),
    {
        raw(&self.translations, l, "admin_added_notification")
    }

    pub fn admin_added_frozen_notification(&self, l: Locale) -> (res: &str)
        ensures
            res@ == raw_text(self@, l, "admin_added_frozen_notification"@),
    {
        raw(&self.translations, l, "admin_added_frozen_notification")
    }

    pub fn admin_added_frozen(&self, l: Locale, name: &str) -> (res: String)
        ensures
            res@ == t_text(self@, l, "admin_added_frozen"@, seq![("name"@, name@)]),
    {
        let args = [("name", name)];
        proof {
            assert(args_view(args@) =~= seq![("name"@, name@)]);
        }
        t(&self.translations, l, "admin_added_frozen", &args)
    }

    pub fn admin_invite_link(&self, l: Locale, link: &str) -> (res: String)
        ensures
            res@ == t_text(self@, l, "admin_invite_link"@, seq![("link"@, link@)]),
    {
        let args = [("link", link)];
        proof {
            assert(args_view(args@) =~= seq![("link"@, link@)]);
        }
        t(&self.translations, l, "admin_invite_link", &args)
    }

    pub fn admin_invite_invalid(&self, l: Locale) -> (res: &str)
        ensures
            res@ == raw_text(self@, l, "admin_invite_invalid"@),
    {
        raw(&self.translations, l, "admin_invite_invalid")
    }

    pub fn admin_invite_already_admin(&self, l: Locale) -> (res: &str)
        ensures
            res@ == raw_text(self@, l, "admin_invite_already_admin"@),
    {
        raw(&self.translations, l, "admin_invite_already_admin")
    }

    pub fn admin_not_found(&self, l: Locale) -> (res: &str)
        ensures
            res@ == raw_text(self@, l, "admin_not_found"@),
    {
        raw(&self.translations, l, "admin_not_found")
    }

    pub fn admin_removed(&self, l: Locale, id: i64) -> (res: String)
        ensures
            res@ == t_text(self@, l, "admin_removed"@, seq![("id"@, int_decimal(id as int))]),
    {
        let id_text = i64_string(id);
        let args = [("id", id_text.as_str())];
        proof {
            assert(args_view(args@) =~= seq![("id"@, int_decimal(id as int))]);
        }
        t(&self.translations, l, "admin_removed", &args)
    }

    pub fn admin_removed_notification(&self, l: Locale) -> (res: &str)
        ensures
            res@ == raw_text(self@, l, "admin_removed_notification"@),
    {
        raw(&self.translations, l, "admin_removed_notification")
    }

    pub fn no_admins(&self, l: Locale) -> (res: &str)
        ensures
            res@ == raw_text(self@, l, "no_admins"@),
    {
        raw(&self.translations, l, "no_admins")
    }

    pub fn no_admins_to_remove(&self, l: Locale) -> (res: &str)
        ensures
            res@ == raw_text(self@, l, "no_admins_to_remove"@),
    {
        raw(&self.translations, l, "no_admins_to_remove")
    }

    pub fn admins_remove_hint(&self, l: Locale) -> (res: &str)
        ensures
            res@ == raw_text(self@, l, "admins_remove_hint"@),
    {
        raw(&self.translations, l, "admins_remove_hint")
    }

    pub fn admins_manage_hint(&self, l: Locale) -> (res: &str)
        ensures
            res@ == raw_text(self@, l, "admins_manage_hint"@),
    {
        raw(&self.translations, l, "admins_manage_hint")
    }

    pub fn admins_list_header(&self, l: Locale, owner_id: i64) -> (res: String)
        ensures
            res@ == t_text(self@, l, "admins_list_header"@, seq![("owner_id"@, int_decimal(owner_id as int))]),
    {
        let owner_id_text = i64_string(owner_id);
        let args = [("owner_id", owner_id_text.as_str())];
        proof {
            assert(args_view(args@) =~= seq![("owner_id"@, int_decimal(owner_id as int))]);
        }
        t(&self.translations, l, "admins_list_header", &args)
    }

    pub fn admin_manage_title(&self, l: Locale, name: &str, id: i64) -> (res: String)
        ensures
            res@ == t_text(self@, l, "admin_manage_title"@, seq![("name"@, name@), ("id"@, int_decimal(id as int))]),
    {
        let id_text = i64_string(id);
        let args = [("name", name), ("id", id_text.as_str())];
        proof {
            assert(args_view(args@) =~= seq![("name"@, name@), ("id"@, int_decimal(id as int))]);
        }
        t(&self.translations, l, "admin_manage_title", &args)
    }

    pub fn confirm_remove_admin(&self, l: Locale, name: &str, id: i64) -> (res: String)
        ensures
            res@ == t_text(self@, l, "confirm_remove_admin"@, seq![("name"@, name@), ("id"@, int_decimal(id as int))]),
    {
        let id_text = i64_string(id);
        let args = [("name", name), ("id", id_text.as_str())];
        proof {
            assert(args_view(args@) =~= seq![("name"@, name@), ("id"@, int_decimal(id as int))]);
        }
        t(&self.translations, l, "confirm_remove_admin", &args)
    }

    pub fn confirm_yes(&self, l: Locale) -> (res: &str)
        ensures
            res@ == raw_text(self@, l, "confirm_yes"@),
    {
        raw(&self.translations, l, "confirm_yes")
    }

    pub fn confirm_no(&self, l: Locale) -> (res: &str)
        ensures
            res@ == raw_text(self@, l, "confirm_no"@),
    {
        raw(&self.translations, l, "confirm_no")
    }

    pub fn back_to_list_btn(&self, l: Locale) -> (res: &str)
        ensures
            res@ == raw_text(self@, l, "back_to_list_btn"@),
    {
        raw(&self.translations, l, "back_to_list_btn")
    }

    pub fn back_btn(&self, l: Locale) -> (res: &str)
        ensures
            res@ == raw_text(self@, l, "back_btn"@),
    {
        raw(&self.translations, l, "back_btn")
    }

    pub fn freeze_btn(&self, l: Locale) -> (res: &str)
        ensures
            res@ == raw_text(self@, l, "freeze_btn"@),
    {
        raw(&self.translations, l, "freeze_btn")
    }

    pub fn unfreeze_btn(&self, l: Locale) -> (res: &str)
        ensures
            res@ == raw_text(self@, l, "unfreeze_btn"@),
    {
        raw(&self.translations, l, "unfreeze_btn")
    }

    pub fn remove_btn(&self, l: Locale) -> (res: &str)
        ensures
            res@ == raw_text(self@, l, "remove_btn"@),
    {
        raw(&self.translations, l, "remove_btn")
    }

    pub fn revoke_invite_btn(&self, l: Locale) -> (res: &str)
        ensures
            res@ == raw_text(self@, l, "revoke_invite_btn"@),
    {
        raw(&self.translations, l, "revoke_invite_btn")
    }

    pub fn invite_revoked_msg(&self, l: Locale) -> (res: &str)
        ensures
            res@ == raw_text(self@, l, "invite_revoked_msg"@),
    {
        raw(&self.translations, l, "invite_revoked_msg")
    }

    pub fn admin_frozen_msg(&self, l: Locale) -> (res: &str)
        ensures
            res@ == raw_text(self@, l, "admin_frozen_msg"@),
    {
        raw(&self.translations, l, "admin_frozen_msg")
    }

    pub fn admin_unfrozen_msg(&self, l: Locale) -> (res: &str)
        ensures
            res@ == raw_text(self@, l, "admin_unfrozen_msg"@),
    {
        raw(&self.translations, l, "admin_unfrozen_msg")
    }

    pub fn limit_reached_unfreeze(&self, l: Locale) -> (res: &str)
        ensures
            res@ == raw_text(self@, l, "limit_reached_unfreeze"@),
    {
        raw(&self.translations, l, "limit_reached_unfreeze")
    }

    pub fn free_limit_admins(&self, l: Locale) -> (res: &str)
        ensures
            res@ == raw_text(self@, l, "free_limit_admins"@),
    {
        raw(&self.translations, l, "free_limit_admins")
    }

    pub fn no_new_proposals(&self, l: Locale) -> (res: &str)
        ensures
            res@ == raw_text(self@, l, "no_new_proposals"@),
    {
        raw(&self.translations, l, "no_new_proposals")
    }

    pub fn proposal_items_count(&self, l: Locale, count: usize) -> (res: String)
        ensures
            res@ == t_text(self@, l, "proposal_items_count"@, seq![("count"@, nat_decimal(count as nat))]),
    {
        let count_text = u64_string(count as u64);
        let args = [("count", count_text.as_str())];
        proof {
            assert(args_view(args@) =~= seq![("count"@, nat_decimal(count as nat))]);
        }
        t(&self.translations, l, "proposal_items_count", &args)
    }

    pub fn failed_display_media(&self, l: Locale, e: &str) -> (res: String)
        ensures
            res@ == t_text(self@, l, "failed_display_media"@, seq![("e"@, e@)]),
    {
        let args = [("e", e)];
        proof {
            assert(args_view(args@) =~= seq![("e"@, e@)]);
        }
        t(&self.translations, l, "failed_display_media", &args)
    }

    pub fn proposal_action_header(&self, l: Locale, id: u64, date: &str) -> (res: String)
        ensures
            res@ == t_text(self@, l, "proposal_action_header"@, seq![("id"@, nat_decimal(id as nat)), ("date"@, date@)]),
    {
        let id_text = u64_string(id);
        let args = [("id", id_text.as_str()), ("date", date)];
        proof {
            assert(args_view(args@) =~= seq![("id"@, nat_decimal(id as nat)), ("date"@, date@)]);
        }
        t(&self.translations, l, "proposal_action_header", &args)
    }

    pub fn approve_btn(&self, l: Locale) -> (res: &str)
        ensures
            res@ == raw_text(self@, l, "approve_btn"@),
    {
        raw(&self.translations, l, "approve_btn")
    }

    pub fn reject_btn(&self, l: Locale) -> (res: &str)
        ensures
            res@ == raw_text(self@, l, "reject_btn"@),
    {
        raw(&self.translations, l, "reject_btn")
    }

    pub fn published(&self, l: Locale) -> (res: &str)
        ensures
            res@ == raw_text(self@, l, "published"@),
    {
        raw(&self.translations, l, "published")
    }

    pub fn published_no_id(&self, l: Locale) -> (res: &str)
        ensures
            res@ == raw_text(self@, l, "published_no_id"@),
    {
        raw(&self.translations, l, "published_no_id")
    }

    pub fn failed_publish(&self, l: Locale) -> (res: &str)
        ensures
            res@ == raw_text(self@, l, "failed_publish"@),
    {
        raw(&self.translations, l, "failed_publish")
    }

    pub fn rejected(&self, l: Locale) -> (res: &str)
        ensures
            res@ == raw_text(self@, l, "rejected"@),
    {
        raw(&self.translations, l, "rejected")
    }

    pub fn already_processing(&self, l: Locale) -> (res: &str)
        ensures
            res@ == raw_text(self@, l, "already_processing"@),
    {
        raw(&self.translations, l, "already_processing")
    }

    pub fn proposal_gone(&self, l: Locale) -> (res: &str)
        ensures
            res@ == raw_text(self@, l, "proposal_gone"@),
    {
        raw(&self.translations, l, "proposal_gone")
    }

    pub fn returned_to_queue(&self, l: Locale) -> (res: &str)
        ensures
            res@ == raw_text(self@, l, "returned_to_queue"@),
    {
        raw(&self.translations, l, "returned_to_queue")
    }

    pub fn choose_action(&self, l: Locale) -> (res: &str)
        ensures
            res@ == raw_text(self@, l, "choose_action"@),
    {
        raw(&self.translations, l, "choose_action")
    }

    pub fn reason_btn(&self, l: Locale) -> (res: &str)
        ensures
            res@ == raw_text(self@, l, "reason_btn"@),
    {
        raw(&self.translations, l, "reason_btn")
    }

    pub fn next_btn(&self, l: Locale) -> (res: &str)
        ensures
            res@ == raw_text(self@, l, "next_btn"@),
    {
        raw(&self.translations, l, "next_btn")
    }

    pub fn ban_btn(&self, l: Locale) -> (res: &str)
        ensures
            res@ == raw_text(self@, l, "ban_btn"@),
    {
        raw(&self.translations, l, "ban_btn")
    }

    pub fn enter_rejection_reason(&self, l: Locale) -> (res: &str)
        ensures
            res@ == raw_text(self@, l, "enter_rejection_reason"@),
    {
        raw(&self.translations, l, "enter_rejection_reason")
    }

    pub fn enter_ban_reason(&self, l: Locale) -> (res: &str)
        ensures
            res@ == raw_text(self@, l, "enter_ban_reason"@),
    {
        raw(&self.translations, l, "enter_ban_reason")
    }

    pub fn enter_reason_callback(&self, l: Locale) -> (res: &str)
        ensures
            res@ == raw_text(self@, l, "enter_reason_callback"@),
    {
        raw(&self.translations, l, "enter_reason_callback")
    }

    pub fn reason_sent(&self, l: Locale) -> (res: &str)
        ensures
            res@ == raw_text(self@, l, "reason_sent"@),
    {
        raw(&self.translations, l, "reason_sent")
    }

    pub fn rejected_reason(&self, l: Locale, reason: &str) -> (res: String)
        ensures
            res@ == t_text(self@, l, "rejected_reason"@, seq![("reason"@, reason@)]),
    {
        let args = [("reason", reason)];
        proof {
            assert(args_view(args@) =~= seq![("reason"@, reason@)]);
        }
        t(&self.translations, l, "rejected_reason", &args)
    }

    pub fn new_proposal_notif(&self, l: Locale, text: &str, media_type: &str) -> (res: String)
        ensures
            res@ == t_text(self@, l, "new_proposal_notif"@, seq![("text"@, text@), ("media_type"@, media_type@)]),
    {
        let args = [("text", text), ("media_type", media_type)];
        proof {
            assert(args_view(args@) =~= seq![("text"@, text@), ("media_type"@, media_type@)]);
        }
        t(&self.translations, l, "new_proposal_notif", &args)
    }

    pub fn proposal_accepted(&self, l: Locale) -> (res: &str)
        ensures
            res@ == raw_text(self@, l, "proposal_accepted"@),
    {
        raw(&self.translations, l, "proposal_accepted")
    }

    pub fn reply_accepted(&self, l: Locale) -> (res: &str)
        ensures
            res@ == raw_text(self@, l, "reply_accepted"@),
    {
        raw(&self.translations, l, "reply_accepted")
    }

    pub fn error_sending_reply(&self, l: Locale) -> (res: &str)
        ensures
            res@ == raw_text(self@, l, "error_sending_reply"@),
    {
        raw(&self.translations, l, "error_sending_reply")
    }

    pub fn no_active_bans(&self, l: Locale) -> (res: &str)
        ensures
            res@ == raw_text(self@, l, "no_active_bans"@),
    {
        raw(&self.translations, l, "no_active_bans")
    }

    pub fn active_bans_header(&self, l: Locale) -> (res: &str)
        ensures
            res@ == raw_text(self@, l, "active_bans_header"@),
    {
        raw(&self.translations, l, "active_bans_header")
    }

    pub fn ban_record_entry(&self, l: Locale, i: usize, ban_id: &str, reason: &str, date: &str) -> (res: String)
        ensures
            res@ == t_text(self@, l, "ban_record_entry"@, seq![("i"@, nat_decimal(i as nat)), ("ban_id"@, ban_id@), ("reason"@, reason@), ("date"@, date@)]),
    {
        let i_text = u64_string(i as u64);
        let args = [("i", i_text.as_str()), ("ban_id", ban_id), ("reason", reason), ("date", date)];
        proof {
            assert(args_view(args@) =~= seq![("i"@, nat_decimal(i as nat)), ("ban_id"@, ban_id@), ("reason"@, reason@), ("date"@, date@)]);
        }
        t(&self.translations, l, "ban_record_entry", &args)
    }

    pub fn pardon_usage(&self, l: Locale) -> (res: &str)
        ensures
            res@ == raw_text(self@, l, "pardon_usage"@),
    {
        raw(&self.translations, l, "pardon_usage")
    }

    pub fn ban_not_found(&self, l: Locale) -> (res: &str)
        ensures
            res@ == raw_text(self@, l, "ban_not_found"@),
    {
        raw(&self.translations, l, "ban_not_found")
    }

    pub fn access_restored(&self, l: Locale) -> (res: &str)
        ensures
            res@ == raw_text(self@, l, "access_restored"@),
    {
        raw(&self.translations, l, "access_restored")
    }

    pub fn ban_deactivated(&self, l: Locale, ban_id: &str) -> (res: String)
        ensures
            res@ == t_text(self@, l, "ban_deactivated"@, seq![("ban_id"@, ban_id@)]),
    {
        let args = [("ban_id", ban_id)];
        proof {
            assert(args_view(args@) =~= seq![("ban_id"@, ban_id@)]);
        }
        t(&self.translations, l, "ban_deactivated", &args)
    }

    pub fn user_banned(&self, l: Locale) -> (res: &str)
        ensures
            res@ == raw_text(self@, l, "user_banned"@),
    {
        raw(&self.translations, l, "user_banned")
    }

    pub fn user_banned_appeal(&self, l: Locale, reason: &str, ban_id: &str) -> (res: String)
        ensures
            res@ == t_text(self@, l, "user_banned_appeal"@, seq![("reason"@, reason@), ("ban_id"@, ban_id@)]),
    {
        let args = [("reason", reason), ("ban_id", ban_id)];
        proof {
            assert(args_view(args@) =~= seq![("reason"@, reason@), ("ban_id"@, ban_id@)]);
        }
        t(&self.translations, l, "user_banned_appeal", &args)
    }

    pub fn user_banned_success(&self, l: Locale) -> (res: &str)
        ensures
            res@ == raw_text(self@, l, "user_banned_success"@),
    {
        raw(&self.translations, l, "user_banned_success")
    }

    pub fn error_banning_user(&self, l: Locale) -> (res: &str)
        ensures
            res@ == raw_text(self@, l, "error_banning_user"@),
    {
        raw(&self.translations, l, "error_banning_user")
    }

    pub fn reply_usage(&self, l: Locale) -> (res: &str)
        ensures
            res@ == raw_text(self@, l, "reply_usage"@),
    {
        raw(&self.translations, l, "reply_usage")
    }

    pub fn send_reply_to_post(&self, l: Locale) -> (res: &str)
        ensures
            res@ == raw_text(self@, l, "send_reply_to_post"@),
    {
        raw(&self.translations, l, "send_reply_to_post")
    }

    pub fn invalid_reply_link(&self, l: Locale) -> (res: &str)
        ensures
            res@ == raw_text(self@, l, "invalid_reply_link"@),
    {
        raw(&self.translations, l, "invalid_reply_link")
    }

    pub fn post_not_found(&self, l: Locale) -> (res: &str)
        ensures
            res@ == raw_text(self@, l, "post_not_found"@),
    {
        raw(&self.translations, l, "post_not_found")
    }

    pub fn reply_link_text(&self, l: Locale) -> (res: &str)
        ensures
            res@ == raw_text(self@, l, "reply_link_text"@),
    {
        raw(&self.translations, l, "reply_link_text")
    }

    pub fn reply_quote(&self, l: Locale, quoted: &str) -> (res: String)
        ensures
            res@ == t_text(self@, l, "reply_quote"@, seq![("quoted"@, quoted@)]),
    {
        let args = [("quoted", quoted)];
        proof {
            assert(args_view(args@) =~= seq![("quoted"@, quoted@)]);
        }
        t(&self.translations, l, "reply_quote", &args)
    }

    pub fn mode_cancelled(&self, l: Locale) -> (res: &str)
        ensures
            res@ == raw_text(self@, l, "mode_cancelled"@),
    {
        raw(&self.translations, l, "mode_cancelled")
    }

    pub fn no_active_mode(&self, l: Locale) -> (res: &str)
        ensures
            res@ == raw_text(self@, l, "no_active_mode"@),
    {
        raw(&self.translations, l, "no_active_mode")
    }

    pub fn addreplies_usage(&self, l: Locale) -> (res: &str)
        ensures
            res@ == raw_text(self@, l, "addreplies_usage"@),
    {
        raw(&self.translations, l, "addreplies_usage")
    }

    pub fn addreplies_invalid_link(&self, l: Locale) -> (res: &str)
        ensures
            res@ == raw_text(self@, l, "addreplies_invalid_link"@),
    {
        raw(&self.translations, l, "addreplies_invalid_link")
    }

    pub fn addreplies_already_exists(&self, l: Locale) -> (res: &str)
        ensures
            res@ == raw_text(self@, l, "addreplies_already_exists"@),
    {
        raw(&self.translations, l, "addreplies_already_exists")
    }

    pub fn addreplies_success(&self, l: Locale) -> (res: &str)
        ensures
            res@ == raw_text(self@, l, "addreplies_success"@),
    {
        raw(&self.translations, l, "addreplies_success")
    }

    pub fn addreplies_failed_get(&self, l: Locale, e: &str) -> (res: String)
        ensures
            res@ == t_text(self@, l, "addreplies_failed_get"@, seq![("e"@, e@)]),
    {
        let args = [("e", e)];
        proof {
            assert(args_view(args@) =~= seq![("e"@, e@)]);
        }
        t(&self.translations, l, "addreplies_failed_get", &args)
    }

    pub fn addreplies_failed_edit(&self, l: Locale, e: &str) -> (res: String)
        ensures
            res@ == t_text(self@, l, "addreplies_failed_edit"@, seq![("e"@, e@)]),
    {
        let args = [("e", e)];
        proof {
            assert(args_view(args@) =~= seq![("e"@, e@)]);
        }
        t(&self.translations, l, "addreplies_failed_edit", &args)
    }

    pub fn text_proposal(&self, l: Locale, caption: &str) -> (res: String)
        ensures
            res@ == t_text(self@, l, "text_proposal"@, seq![("caption"@, caption@)]),
    {
        let args = [("caption", caption)];
        proof {
            assert(args_view(args@) =~= seq![("caption"@, caption@)]);
        }
        t(&self.translations, l, "text_proposal", &args)
    }

    pub fn media_proposal_text(&self, l: Locale, media_type: &str, caption: &str) -> (res: String)
        ensures
            res@ == t_text(self@, l, "media_proposal_text"@, seq![("media_type"@, media_type@), ("caption"@, caption@)]),
    {
        let args = [("media_type", media_type), ("caption", caption)];
        proof {
            assert(args_view(args@) =~= seq![("media_type"@, media_type@), ("caption"@, caption@)]);
        }
        t(&self.translations, l, "media_proposal_text", &args)
    }

    pub fn photo_text(&self, l: Locale) -> (res: &str)
        ensures
            res@ == raw_text(self@, l, "photo_text"@),
    {
        raw(&self.translations, l, "photo_text")
    }

    pub fn document_text(&self, l: Locale, name: &str) -> (res: String)
        ensures
            res@ == t_text(self@, l, "document_text"@, seq![("name"@, name@)]),
    {
        let args = [("name", name)];
        proof {
            assert(args_view(args@) =~= seq![("name"@, name@)]);
        }
        t(&self.translations, l, "document_text", &args)
    }

    pub fn video_text(&self, l: Locale) -> (res: &str)
        ensures
            res@ == raw_text(self@, l, "video_text"@),
    {
        raw(&self.translations, l, "video_text")
    }

    pub fn video_note_text(&self, l: Locale) -> (res: &str)
        ensures
            res@ == raw_text(self@, l, "video_note_text"@),
    {
        raw(&self.translations, l, "video_note_text")
    }

    pub fn audio_text(&self, l: Locale, title: &str) -> (res: String)
        ensures
            res@ == t_text(self@, l, "audio_text"@, seq![("title"@, title@)]),
    {
        let args = [("title", title)];
        proof {
            assert(args_view(args@) =~= seq![("title"@, title@)]);
        }
        t(&self.translations, l, "audio_text", &args)
    }

    pub fn voice_text(&self, l: Locale) -> (res: &str)
        ensures
            res@ == raw_text(self@, l, "voice_text"@),
    {
        raw(&self.translations, l, "voice_text")
    }

    pub fn sticker_text(&self, l: Locale) -> (res: &str)
        ensures
            res@ == raw_text(self@, l, "sticker_text"@),
    {
        raw(&self.translations, l, "sticker_text")
    }

    pub fn media_content_text(&self, l: Locale) -> (res: &str)
        ensures
            res@ == raw_text(self@, l, "media_content_text"@),
    {
        raw(&self.translations, l, "media_content_text")
    }

    pub fn make_by(&self, l: Locale, username: &str) -> (res: String)
        ensures
            res@ == t_text(self@, l, "make_by"@, seq![("username"@, username@)]),
    {
        let args = [("username", username)];
        proof {
            assert(args_view(args@) =~= seq![("username"@, username@)]);
        }
        t(&self.translations, l, "make_by", &args)
    }

    pub fn lang_usage(&self, l: Locale) -> (res: &str)
        ensures
            res@ == raw_text(self@, l, "lang_usage"@),
    {
        raw(&self.translations, l, "lang_usage")
    }

    pub fn lang_invalid(&self, l: Locale) -> (res: &str)
        ensures
            res@ == raw_text(self@, l, "lang_invalid"@),
    {
        raw(&self.translations, l, "lang_invalid")
    }

    pub fn lang_updated(&self, l: Locale) -> (res: &str)
        ensures
            res@ == raw_text(self@, l, "lang_updated"@),
    {
        raw(&self.translations, l, "lang_updated")
    }

    pub fn setup_checking(&self, l: Locale) -> (res: &str)
        ensures
            res@ == raw_text(self@, l, "setup_checking"@),
    {
        raw(&self.translations, l, "setup_checking")
    }

    pub fn setup_not_admin(&self, l: Locale) -> (res: &str)
        ensures
            res@ == raw_text(self@, l, "setup_not_admin"@),
    {
        raw(&self.translations, l, "setup_not_admin")
    }

    pub fn setup_chat_not_found(&self, l: Locale) -> (res: &str)
        ensures
            res@ == raw_text(self@, l, "setup_chat_not_found"@),
    {
        raw(&self.translations, l, "setup_chat_not_found")
    }

    pub fn setup_success(&self, l: Locale, channel_name: &str) -> (res: String)
        ensures
            res@ == t_text(self@, l, "setup_success"@, seq![("channel_name"@, channel_name@)]),
    {
        let args = [("channel_name", channel_name)];
        proof {
            assert(args_view(args@) =~= seq![("channel_name"@, channel_name@)]);
        }
        t(&self.translations, l, "setup_success", &args)
    }

    pub fn setup_enter_channel(&self, l: Locale) -> (res: &str)
        ensures
            res@ == raw_text(self@, l, "setup_enter_channel"@),
    {
        raw(&self.translations, l, "setup_enter_channel")
    }

    pub fn send_command_in_your_channel(&self, l: Locale) -> (res: &str)
        ensures
            res@ == raw_text(self@, l, "send_command_in_your_channel"@),
    {
        raw(&self.translations, l, "send_command_in_your_channel")
    }

    pub fn clients_list_title(&self, l: Locale) -> (res: &str)
        ensures
            res@ == raw_text(self@, l, "clients_list_title"@),
    {
        raw(&self.translations, l, "clients_list_title")
    }

    pub fn clients_empty(&self, l: Locale) -> (res: &str)
        ensures
            res@ == raw_text(self@, l, "clients_empty"@),
    {
        raw(&self.translations, l, "clients_empty")
    }

    pub fn client_not_found(&self, l: Locale) -> (res: &str)
        ensures
            res@ == raw_text(self@, l, "client_not_found"@),
    {
        raw(&self.translations, l, "client_not_found")
    }

    /// The account card of a client shown to the service owner.
    pub fn client_details(
        &self,
        l: Locale,
        tg_id: i64,
        plan: &str,
        expires: Option<&str>,
        banned: bool,
        bots_count: usize,
    ) -> (res: String)
        ensures
            res@ == client_details_text(
                self@,
                l,
                tg_id as int,
                plan@,
                match expires {
                    Some(d) => Some(d@),
                    None => None,
                },
                banned,
                bots_count as nat,
            ),
    {
        let tr = &self.translations;
        let plan_str: String = if str_eq(plan, "pro") {
            match expires {
                Some(date) => {
                    let args = [("date", date)];
                    proof {
                        assert(args_view(args@) =~= seq![("date"@, date@)]);
                    }
                    t(tr, l, "client_plan_pro_until", &args)
                },
                None => String::from_str(raw(tr, l, "client_plan_pro")),
            }
        } else {
            String::from_str(raw(tr, l, "client_plan_free"))
        };
        let status = if banned {
            raw(tr, l, "client_status_banned")
        } else {
            raw(tr, l, "client_status_active")
        };
        let tg_id_text = i64_string(tg_id);
        let bots_text = u64_string(bots_count as u64);
        let args = [
            ("id_label", raw(tr, l, "field_tg_id")),
            ("tg_id", tg_id_text.as_str()),
            ("plan_label", raw(tr, l, "field_plan")),
            ("plan", plan_str.as_str()),
            ("status_label", raw(tr, l, "field_status")),
            ("status", status),
            ("bots_label", raw(tr, l, "field_bots")),
            ("bots", bots_text.as_str()),
        ];
        proof {
            assert(args_view(args@) =~= client_details_args(
                self@,
                l,
                tg_id as int,
                plan@,
                match expires {
                    Some(d) => Some(d@),
                    None => None,
                },
                banned,
                bots_count as nat,
            ));
        }
        t(tr, l, "client_details", &args)
    }

    pub fn ban_client_btn(&self, l: Locale) -> (res: &str)
        ensures
            res@ == raw_text(self@, l, "ban_client_btn"@),
    {
        raw(&self.translations, l, "ban_client_btn")
    }

    pub fn unban_client_btn(&self, l: Locale) -> (res: &str)
        ensures
            res@ == raw_text(self@, l, "unban_client_btn"@),
    {
        raw(&self.translations, l, "unban_client_btn")
    }

    pub fn change_plan_btn(&self, l: Locale) -> (res: &str)
        ensures
            res@ == raw_text(self@, l, "change_plan_btn"@),
    {
        raw(&self.translations, l, "change_plan_btn")
    }

    pub fn make_free(&self, l: Locale) -> (res: &str)
        ensures
            res@ == raw_text(self@, l, "make_free"@),
    {
        raw(&self.translations, l, "make_free")
    }

    pub fn make_pro(&self, l: Locale) -> (res: &str)
        ensures
            res@ == raw_text(self@, l, "make_pro"@),
    {
        raw(&self.translations, l, "make_pro")
    }

    pub fn client_bots_btn(&self, l: Locale) -> (res: &str)
        ensures
            res@ == raw_text(self@, l, "client_bots_btn"@),
    {
        raw(&self.translations, l, "client_bots_btn")
    }

    pub fn client_bots_title(&self, l: Locale) -> (res: &str)
        ensures
            res@ == raw_text(self@, l, "client_bots_title"@),
    {
        raw(&self.translations, l, "client_bots_title")
    }

    pub fn client_banned_msg(&self, l: Locale) -> (res: &str)
        ensures
            res@ == raw_text(self@, l, "client_banned_msg"@),
    {
        raw(&self.translations, l, "client_banned_msg")
    }

    pub fn client_unbanned_msg(&self, l: Locale) -> (res: &str)
        ensures
            res@ == raw_text(self@, l, "client_unbanned_msg"@),
    {
        raw(&self.translations, l, "client_unbanned_msg")
    }

    pub fn plan_changed_pro_msg(&self, l: Locale) -> (res: &str)
        ensures
            res@ == raw_text(self@, l, "plan_changed_pro_msg"@),
    {
        raw(&self.translations, l, "plan_changed_pro_msg")
    }

    pub fn plan_changed_free_msg(&self, l: Locale) -> (res: &str)
        ensures
            res@ == raw_text(self@, l, "plan_changed_free_msg"@),
    {
        raw(&self.translations, l, "plan_changed_free_msg")
    }

    pub fn no_bots_msg(&self, l: Locale) -> (res: &str)
        ensures
            res@ == raw_text(self@, l, "no_bots_msg"@),
    {
        raw(&self.translations, l, "no_bots_msg")
    }

    /// The card of one bot shown to the service owner.
    pub fn bot_info_text(&self, l: Locale, username: &str, channel_display: &str, active: bool) -> (res:
        String)
        ensures
            res@ == t_text(self@, l, "bot_info"@, bot_info_args(self@, l, username@, channel_display@, active)),
    {
        let tr = &self.translations;
        let status = if active {
            raw(tr, l, "bot_status_active")
        } else {
            raw(tr, l, "bot_status_inactive")
        };
        let args = [
            ("username_label", raw(tr, l, "field_username")),
            ("username", username),
            ("channel_label", raw(tr, l, "field_channel")),
            ("channel", channel_display),
            ("status_label", raw(tr, l, "field_status")),
            ("status", status),
        ];
        proof {
            assert(args_view(args@) =~= bot_info_args(self@, l, username@, channel_display@, active));
        }
        t(tr, l, "bot_info", &args)
    }

    pub fn channel_not_configured(&self, l: Locale) -> (res: &str)
        ensures
            res@ == raw_text(self@, l, "channel_not_configured"@),
    {
        raw(&self.translations, l, "channel_not_configured")
    }
}

} // verus!
