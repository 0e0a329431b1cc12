//! Reading what users type: worker bot commands and their arguments, the
//! owner's commands to the master bot, post links and channel setup codes.

use vstd::prelude::*;

use crate::links::tme;
use crate::locales::Locale;
use crate::text::{
    chars_of, chars_eq, find_chars, find_from, find_whitespace, find_ws, has_prefix,
    index_of_char, lemma_find_from_bounds, lemma_find_ws_bounds, lower_chars, lower_seq, parse_i32, parse_i32_chars, parse_i64,
    parse_i64_chars, split, split_chars, starts_with_str, str_eq, string_of, sub_chars, trim,
    trim_chars, trim_start_char,
};

verus! {

/// The commands of a worker bot.
#[derive(Debug, PartialEq, Eq, Clone, Copy, Structural)]
pub enum WorkerCommand {
    Start,
    Proposals,
    AddAdmin,
    Admins,
    Banned,
    Pardon,
    Reply,
    AddReplies,
    Lang,
    Unknown,
}

/// A command with its (trimmed) argument text.
pub struct ParsedCommand {
    pub command: WorkerCommand,
    pub args: String,
}

/// The first word of a text: up to its first whitespace.
pub open spec fn first_word(text: Seq<char>) -> Seq<char> {
    match find_ws(text, 0) {
        Some(i) => text.take(i),
        None => text,
    }
}

/// The arguments of a command: the text after the first whitespace,
/// trimmed.
pub open spec fn command_args(text: Seq<char>) -> Seq<char> {
    match find_ws(text, 0) {
        Some(i) => trim(text.skip(i + 1)),
        None => Seq::empty(),
    }
}

/// The command a (lower-cased, slash-less) name names.
pub open spec fn command_named(name: Seq<char>) -> WorkerCommand {
    if name == "start"@ {
        WorkerCommand::Start
    } else if name == "proposals"@ {
        WorkerCommand::Proposals
    } else if name == "addadmin"@ {
        WorkerCommand::AddAdmin
    } else if name == "admins"@ {
        WorkerCommand::Admins
    } else if name == "banned"@ {
        WorkerCommand::Banned
    } else if name == "pardon"@ {
        WorkerCommand::Pardon
    } else if name == "reply"@ {
        WorkerCommand::Reply
    } else if name == "addreplies"@ {
        WorkerCommand::AddReplies
    } else if name == "lang"@ {
        WorkerCommand::Lang
    } else {
        WorkerCommand::Unknown
    }
}

/// The command of a message: its first word without leading slashes, in
/// any ASCII case.
pub open spec fn worker_command(text: Seq<char>) -> WorkerCommand {
    command_named(lower_seq(trim_start_char(first_word(text), '/')))
}

/// Reads the command and argument text of a message to a worker bot.
pub fn parse_command(text: &str) -> (res: ParsedCommand)
    ensures
        res.command == worker_command(text@),
        res.args@ == command_args(text@),
{
    let t = chars_of(text);
    proof {
        lemma_find_ws_bounds(t@, 0);
    }
    let (word, args) = match find_whitespace(&t, 0) {
        Some(i) => {
            let w = sub_chars(&t, 0, i);
            let rest = sub_chars(&t, i + 1, t.len());
            assert(w@ =~= t@.take(i as int));
            assert(rest@ =~= t@.skip(i + 1));
            (w, trim_chars(&rest))
        },
        None => {
            assert(t@.subrange(0, t.len() as int) =~= t@);
            (sub_chars(&t, 0, t.len()), Vec::new())
        },
    };
    assert(word@ == first_word(t@));
    let mut k: usize = 0;
    assert(word@.skip(0) =~= word@);
    while k < word.len() && word[k] == '/'
        invariant
            k <= word.len(),
            trim_start_char(word@, '/') == trim_start_char(word@.skip(k as int), '/'),
        decreases word.len() - k,
    {
        assert(word@.skip(k as int).drop_first() =~= word@.skip(k + 1));
        k = k + 1;
    }
    let name_raw = sub_chars(&word, k, word.len());
    assert(name_raw@ =~= word@.skip(k as int));
    assert(trim_start_char(word@, '/') == name_raw@) by {
        if name_raw@.len() > 0 {
            assert(name_raw@[0] == word@[k as int]);
        }
    }
    let name = string_of(lower_chars(&name_raw).as_slice());
    let n = name.as_str();
    let command = if str_eq(n, "start") {
        WorkerCommand::Start
    } else if str_eq(n, "proposals") {
        WorkerCommand::Proposals
    } else if str_eq(n, "addadmin") {
        WorkerCommand::AddAdmin
    } else if str_eq(n, "admins") {
        WorkerCommand::Admins
    } else if str_eq(n, "banned") {
        WorkerCommand::Banned
    } else if str_eq(n, "pardon") {
        WorkerCommand::Pardon
    } else if str_eq(n, "reply") {
        WorkerCommand::Reply
    } else if str_eq(n, "addreplies") {
        WorkerCommand::AddReplies
    } else if str_eq(n, "lang") {
        WorkerCommand::Lang
    } else {
        WorkerCommand::Unknown
    };
    ParsedCommand { command, args: string_of(args.as_slice()) }
}

/// What `/start <args>` asks for.
#[derive(Debug, PartialEq, Eq)]
pub enum StartAction {
    /// Accept the moderator invitation with this code.
    AdminInvite(String),
    /// Answer the channel post with this id.
    ReplyTo(i32),
    /// A "reply_" argument that is not a positive post id.
    InvalidReplyLink,
    /// No special argument: greet the user.
    Greet,
}

/// What `/start <args>` asks for, as a value.
pub enum StartActionView {
    AdminInvite(Seq<char>),
    ReplyTo(i32),
    InvalidReplyLink,
    Greet,
}

impl View for StartAction {
    type V = StartActionView;

    open spec fn view(&self) -> StartActionView {
        match self {
            StartAction::AdminInvite(c) => StartActionView::AdminInvite(c@),
            StartAction::ReplyTo(i) => StartActionView::ReplyTo(*i),
            StartAction::InvalidReplyLink => StartActionView::InvalidReplyLink,
            StartAction::Greet => StartActionView::Greet,
        }
    }
}

/// The action of `/start` arguments: "admin_<code>", "reply_<post id>", or
/// anything else.
pub open spec fn start_action(args: Seq<char>) -> StartActionView {
    if has_prefix(args, "admin_"@) {
        StartActionView::AdminInvite(args.skip(6))
    } else if has_prefix(args, "reply_"@) {
        match parse_i32(args.skip(6)) {
            Some(v) => if v > 0 {
                StartActionView::ReplyTo(v)
            } else {
                StartActionView::InvalidReplyLink
            },
            None => StartActionView::InvalidReplyLink,
        }
    } else {
        StartActionView::Greet
    }
}

/// Reads the arguments of `/start` (deep links into the bot).
pub fn parse_start_args(args: &str) -> (res: StartAction)
    ensures
        res@ == start_action(args@),
{
    proof {
        reveal_strlit("admin_");
        reveal_strlit("reply_");
    }
    let a = chars_of(args);
    if starts_with_str(&a, "admin_") {
        let code = sub_chars(&a, 6, a.len());
        assert(code@ =~= a@.skip(6));
        StartAction::AdminInvite(string_of(code.as_slice()))
    } else if starts_with_str(&a, "reply_") {
        assert(a@.subrange(6, a.len() as int) =~= a@.skip(6));
        match parse_i32_chars(&a, 6, a.len()) {
            Some(v) => if v > 0 {
                StartAction::ReplyTo(v)
            } else {
                StartAction::InvalidReplyLink
            },
            None => StartAction::InvalidReplyLink,
        }
    } else {
        StartAction::Greet
    }
}

/// A positive post id written as the whole (trimmed) argument text.
pub open spec fn positive_id(args: Seq<char>) -> Option<i32> {
    match parse_i32(trim(args)) {
        Some(v) => if v > 0 {
            Some(v)
        } else {
            None
        },
        None => None,
    }
}

/// The post id of `/reply <post id>`, when it is a positive number.
pub fn parse_reply_target(args: &str) -> (res: Option<i32>)
    ensures
        res == positive_id(args@),
{
    let t = trim_chars(&chars_of(args));
    assert(t@.subrange(0, t.len() as int) =~= t@);
    match parse_i32_chars(&t, 0, t.len()) {
        Some(v) => if v > 0 {
            Some(v)
        } else {
            None
        },
        None => None,
    }
}

/// The post id of a post link: after the first "t.me/" (in any ASCII
/// case) and before any '?', the path `c/<channel>/<post>` or
/// `<channel>/<post>`.
pub open spec fn post_link_id(link: Seq<char>) -> Option<i32> {
    let lower = lower_seq(link);
    match find_from(lower, tme(), 0) {
        Some(pos) => {
            let parts = split(split(lower.skip(pos + 5), '?')[0], '/');
            if parts.len() >= 3 && parts[0] == seq!['c'] {
                parse_i32(parts[2])
            } else if parts.len() >= 2 {
                parse_i32(parts[1])
            } else {
                None
            }
        },
        None => None,
    }
}

/// The post id a link to a channel post points to.
pub fn parse_post_link(link: &str) -> (res: Option<i32>)
    ensures
        res == post_link_id(link@),
{
    let lower = lower_chars(&chars_of(link));
    let pat = vec!['t', '.', 'm', 'e', '/'];
    assert(pat@ =~= tme());
    proof {
        lemma_find_from_bounds(lower@, tme(), 0);
    }
    let pos = match find_chars(&lower, &pat, 0) {
        Some(p) => p,
        None => return None,
    };
    assert(find_from(lower@, tme(), 0) == Some(pos as int));
    assert(pos + 5 <= lower.len());
    let path = sub_chars(&lower, pos + 5, lower.len());
    assert(path@ =~= lower@.skip(pos + 5));
    let pieces = split_chars(&path, '?');
    let first = sub_chars(&pieces[0], 0, pieces[0].len());
    assert(first@ =~= pieces@[0]@);
    let parts = split_chars(&first, '/');
    let c = vec!['c'];
    assert(c@ =~= seq!['c']);
    if parts.len() >= 3 && chars_eq(&parts[0], &c) {
        assert(parts@[2]@.subrange(0, parts@[2]@.len() as int) =~= parts@[2]@);
        parse_i32_chars(&parts[2], 0, parts[2].len())
    } else if parts.len() >= 2 {
        assert(parts@[1]@.subrange(0, parts@[1]@.len() as int) =~= parts@[1]@);
        parse_i32_chars(&parts[1], 0, parts[1].len())
    } else {
        None
    }
}

/// Whether a channel post is the setup command "/connect <code>" with the
/// expected code (both compared in ASCII lower case, the code trimmed).
pub open spec fn connects(text: Seq<char>, expected: Seq<char>) -> bool {
    let lower = lower_seq(text);
    has_prefix(lower, "/connect "@) && trim(lower.skip(9)) == lower_seq(expected)
}

/// Whether a channel post connects the channel with the expected code.
pub fn connect_code_matches(text: &str, expected: &str) -> (r: bool)
    ensures
        r == connects(text@, expected@),
{
    proof {
        reveal_strlit("/connect ");
    }
    let lower = lower_chars(&chars_of(text));
    if !starts_with_str(&lower, "/connect ") {
        return false;
    }
    let rest = sub_chars(&lower, 9, lower.len());
    assert(rest@ =~= lower@.skip(9));
    let provided = trim_chars(&rest);
    let want = lower_chars(&chars_of(expected));
    chars_eq(&provided, &want)
}

/// The owner's commands to the master bot, and the general ones.
#[derive(Debug, PartialEq, Eq)]
pub enum MasterCommand {
    Help,
    Clients,
    Stats,
    /// `/setplan <user id> <plan>`; an unreadable user id reads as 0.
    SetPlan(i64, String),
    /// `/setplan` without both arguments.
    SetPlanUsage,
    /// `/banclient <user id>`; an unreadable user id reads as 0.
    BanClient(i64),
    /// `/banclient` without an argument: nothing to do.
    BanClientMissing,
    Start,
    /// Not a command: the answer to a question the bot asked, if any.
    Other,
}

/// A master command as a value.
pub enum MasterCommandView {
    Help,
    Clients,
    Stats,
    SetPlan(i64, Seq<char>),
    SetPlanUsage,
    BanClient(i64),
    BanClientMissing,
    Start,
    Other,
}

impl View for MasterCommand {
    type V = MasterCommandView;

    open spec fn view(&self) -> MasterCommandView {
        match self {
            MasterCommand::Help => MasterCommandView::Help,
            MasterCommand::Clients => MasterCommandView::Clients,
            MasterCommand::Stats => MasterCommandView::Stats,
            MasterCommand::SetPlan(t, p) => MasterCommandView::SetPlan(*t, p@),
            MasterCommand::SetPlanUsage => MasterCommandView::SetPlanUsage,
            MasterCommand::BanClient(t) => MasterCommandView::BanClient(*t),
            MasterCommand::BanClientMissing => MasterCommandView::BanClientMissing,
            MasterCommand::Start => MasterCommandView::Start,
            MasterCommand::Other => MasterCommandView::Other,
        }
    }
}

/// An id, or 0 when the text is not one.
pub open spec fn i64_or_zero(s: Seq<char>) -> i64 {
    match parse_i64(s) {
        Some(v) => v,
        None => 0,
    }
}

/// `/setplan <id> <plan>`: the text split at its first two spaces (the plan
/// is the rest).
pub open spec fn set_plan_command(text: Seq<char>) -> MasterCommandView {
    match index_of_char(text, ' ') {
        Some(i) => {
            let rest = text.skip(i + 1);
            match index_of_char(rest, ' ') {
                Some(j) => MasterCommandView::SetPlan(i64_or_zero(rest.take(j)), rest.skip(j + 1)),
                None => MasterCommandView::SetPlanUsage,
            }
        },
        None => MasterCommandView::SetPlanUsage,
    }
}

/// `/banclient <id>`: the text after its first space.
pub open spec fn ban_client_command(text: Seq<char>) -> MasterCommandView {
    match index_of_char(text, ' ') {
        Some(i) => MasterCommandView::BanClient(i64_or_zero(text.skip(i + 1))),
        None => MasterCommandView::BanClientMissing,
    }
}

/// The command of a message to the master bot; the owner's commands count
/// only for the service owner.
pub open spec fn master_command(text: Seq<char>, is_owner: bool) -> MasterCommandView {
    if is_owner && has_prefix(text, "/help"@) {
        MasterCommandView::Help
    } else if is_owner && has_prefix(text, "/clients"@) {
        MasterCommandView::Clients
    } else if is_owner && has_prefix(text, "/stats"@) {
        MasterCommandView::Stats
    } else if is_owner && has_prefix(text, "/setplan"@) {
        set_plan_command(text)
    } else if is_owner && has_prefix(text, "/banclient"@) {
        ban_client_command(text)
    } else if has_prefix(text, "/start"@) {
        MasterCommandView::Start
    } else {
        MasterCommandView::Other
    }
}

fn index_of_space(s: &Vec<char>) -> (res: Option<usize>)
    ensures
        match res {
            Some(i) => index_of_char(s@, ' ') == Some(i as int) && i < s.len(),
            None => index_of_char(s@, ' ') is None,
        },
{
    let sp = vec![' '];
    assert(sp@ =~= seq![' ']);
    proof {
        lemma_find_from_bounds(s@, seq![' '], 0);
    }
    find_chars(s, &sp, 0)
}

fn i64_or_zero_exec(s: &Vec<char>, a: usize, b: usize) -> (res: i64)
    requires
        a <= b <= s.len(),
    ensures
        res == i64_or_zero(s@.subrange(a as int, b as int)),
{
    match parse_i64_chars(s, a, b) {
        Some(v) => v,
        None => 0,
    }
}

/// Reads a message to the master bot.
pub fn parse_master_command(text: &str, is_owner: bool) -> (res: MasterCommand)
    ensures
        res@ == master_command(text@, is_owner),
{
    let t = chars_of(text);
    if is_owner && starts_with_str(&t, "/help") {
        MasterCommand::Help
    } else if is_owner && starts_with_str(&t, "/clients") {
        MasterCommand::Clients
    } else if is_owner && starts_with_str(&t, "/stats") {
        MasterCommand::Stats
    } else if is_owner && starts_with_str(&t, "/setplan") {
        match index_of_space(&t) {
            Some(i) => {
                let rest = sub_chars(&t, i + 1, t.len());
                assert(rest@ =~= t@.skip(i + 1));
                match index_of_space(&rest) {
                    Some(j) => {
                        let id = i64_or_zero_exec(&rest, 0, j);
                        assert(rest@.subrange(0, j as int) =~= rest@.take(j as int));
                        let plan = sub_chars(&rest, j + 1, rest.len());
                        assert(plan@ =~= rest@.skip(j + 1));
                        MasterCommand::SetPlan(id, string_of(plan.as_slice()))
                    },
                    None => MasterCommand::SetPlanUsage,
                }
            },
            None => MasterCommand::SetPlanUsage,
        }
    } else if is_owner && starts_with_str(&t, "/banclient") {
        match index_of_space(&t) {
            Some(i) => {
                assert(t@.subrange(i + 1, t.len() as int) =~= t@.skip(i + 1));
                MasterCommand::BanClient(i64_or_zero_exec(&t, i + 1, t.len()))
            },
            None => MasterCommand::BanClientMissing,
        }
    } else if starts_with_str(&t, "/start") {
        MasterCommand::Start
    } else {
        MasterCommand::Other
    }
}

/// The language chosen by a `/lang <code>` argument.
pub fn parse_language_arg(args: &str) -> (res: Option<Locale>)
    ensures
        res == crate::locales::parse_locale(trim(args@)),
{
    let t = trim_chars(&chars_of(args));
    let s = string_of(t.as_slice());
    Locale::parse(s.as_str())
}

} // verus!
