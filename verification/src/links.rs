//! Links to channel posts (`t.me/<channel>/<post>` for public channels,
//! `t.me/c/<internal id>/<post>` for private ones): recognising them in
//! messages and building them.

use vstd::prelude::*;

use crate::text::{
    chars_eq, chars_of, concat_chars, find_chars, find_from, find_whitespace, find_ws,
    i64_decimal, int_decimal, is_ws, lemma_find_from_bounds, lemma_find_ws_bounds, lemma_trim_idempotent, lemma_lower_seq_idempotent, lower_chars, lower_seq, matches_at, parse_i32,
    parse_i32_chars, split, split_chars, string_of, sub_chars, trim, trim_chars,
};

verus! {

/// "t.me/"
pub open spec fn tme() -> Seq<char> {
    seq!['t', '.', 'm', 'e', '/']
}

/// "https://"
pub open spec fn https_prefix() -> Seq<char> {
    seq!['h', 't', 't', 'p', 's', ':', '/', '/']
}

/// "http://"
pub open spec fn http_prefix() -> Seq<char> {
    seq!['h', 't', 't', 'p', ':', '/', '/']
}

/// The internal id of a private channel as links write it: the channel id
/// without its "-100" prefix.
pub open spec fn internal_channel_id(channel_id: i64) -> Seq<char> {
    let s = int_decimal(channel_id as int);
    if s.len() >= 4 && s.take(4) == seq!['-', '1', '0', '0'] {
        s.skip(4)
    } else {
        s
    }
}

/// Where the link whose "t.me/" is at `pos` starts: at its "https://" or
/// "http://" when there is one.
pub open spec fn link_start(lower: Seq<char>, pos: int) -> int {
    if pos >= 8 && lower.subrange(pos - 8, pos) == https_prefix() {
        pos - 8
    } else if pos >= 7 && lower.subrange(pos - 7, pos) == http_prefix() {
        pos - 7
    } else {
        pos
    }
}

/// Where the link whose "t.me/" is at `pos` ends: at the next whitespace.
pub open spec fn link_end(lower: Seq<char>, pos: int) -> int {
    match find_ws(lower, pos) {
        Some(e) => e,
        None => lower.len() as int,
    }
}

/// The '/'-separated pieces of a link's path (after "t.me/", before '?').
pub open spec fn path_parts(lower: Seq<char>, pos: int, end: int) -> Seq<Seq<char>> {
    split(split(lower.subrange(pos + 5, end), '?')[0], '/')
}

/// The post a link's path points to, when the link is to the bot's own
/// channel: `c/<internal id>/<post>` for the channel with id `channel_id`,
/// or `<username>/<post>` for the channel `username` (in any case).
pub open spec fn linked_post(parts: Seq<Seq<char>>, channel_id: i64, username: Option<Seq<char>>) -> Option<
    i32,
> {
    if parts.len() >= 3 && parts[0] == seq!['c'] {
        if internal_channel_id(channel_id) == parts[1] {
            parse_i32(parts[2])
        } else {
            None
        }
    } else if parts.len() >= 2 {
        match username {
            Some(u) => if lower_seq(u) == lower_seq(parts[0]) {
                parse_i32(parts[1])
            } else {
                None
            },
            None => None,
        }
    } else {
        None
    }
}

/// The first "t.me/" link of a text (found without regard to ASCII case),
/// when it points to a post of the bot's channel: the span of the link and
/// the post id.
pub open spec fn channel_link(text: Seq<char>, channel_id: i64, username: Option<Seq<char>>) -> Option<
    (int, int, i32),
> {
    let lower = lower_seq(text);
    match find_from(lower, tme(), 0) {
        Some(pos) => {
            let end = link_end(lower, pos);
            match linked_post(path_parts(lower, pos, end), channel_id, username) {
                Some(m) => Some((link_start(lower, pos), end, m)),
                None => None,
            }
        },
        None => None,
    }
}

/// An optional string slice as an optional character sequence.
pub open spec fn opt_str_view(s: Option<&str>) -> Option<Seq<char>> {
    match s {
        Some(v) => Some(v@),
        None => None,
    }
}

proof fn lemma_find_ws_at_least(s: Seq<char>, i: int, j: int)
    requires
        0 <= i <= j <= s.len(),
        forall|k: int| i <= k < j ==> !is_ws(#[trigger] s[k]),
    ensures
        find_ws(s, i) == find_ws(s, j),
    decreases j - i,
{
    if i < j {
        lemma_find_ws_at_least(s, i + 1, j);
    }
}

fn internal_channel_id_chars(channel_id: i64) -> (res: Vec<char>)
    ensures
        res@ == internal_channel_id(channel_id),
{
    let s = i64_decimal(channel_id);
    let prefix = vec!['-', '1', '0', '0'];
    if matches_at(&s, 0, &prefix) {
        assert(s@.subrange(0, 4) == s@.take(4));
        let r = sub_chars(&s, 4, s.len());
        assert(r@ =~= s@.skip(4));
        r
    } else {
        assert(!(s@.len() >= 4 && s@.take(4) == seq!['-', '1', '0', '0'])) by {
            if s@.len() >= 4 {
                assert(s@.subrange(0, 4) == s@.take(4));
            }
        }
        s
    }
}

fn linked_post_exec(parts: &Vec<Vec<char>>, channel_id: i64, username: Option<&str>) -> (res: Option<
    i32,
>)
    ensures
        res == linked_post(
            parts@.map_values(|p: Vec<char>| p@),
            channel_id,
            opt_str_view(username),
        ),
{
    let ghost ps = parts@.map_values(|p: Vec<char>| p@);
    let c = vec!['c'];
    assert(c@ =~= seq!['c']);
    if parts.len() >= 3 && chars_eq(&parts[0], &c) {
        assert(ps[0] == parts@[0]@);
        let expected = internal_channel_id_chars(channel_id);
        if chars_eq(&expected, &parts[1]) {
            assert(ps[1] == parts@[1]@);
            assert(ps[2] == parts@[2]@);
            assert(parts@[2]@.subrange(0, parts@[2]@.len() as int) =~= parts@[2]@);
            parse_i32_chars(&parts[2], 0, parts[2].len())
        } else {
            assert(ps[1] == parts@[1]@);
            None
        }
    } else if parts.len() >= 2 {
        assert(parts.len() >= 3 ==> ps[0] == parts@[0]@);
        match username {
            Some(u) => {
                let ul = lower_chars(&chars_of(u));
                let pl = lower_chars(&parts[0]);
                assert(ps[0] == parts@[0]@);
                assert(parts.len() >= 3 ==> ps[0] != seq!['c']);
                if chars_eq(&ul, &pl) {
                    assert(ps[1] == parts@[1]@);
                    let r = parse_i32_chars(&parts[1], 0, parts[1].len());
                    assert(parts@[1]@.subrange(0, parts@[1]@.len() as int) =~= parts@[1]@);
                    r
                } else {
                    None
                }
            },
            None => None,
        }
    } else {
        None
    }
}

/// Looks for a link to a post of the bot's channel (id `channel_id`,
/// public username `channel_username`) in `text`. When the first "t.me/"
/// link of the text is one, the link (with its "https://" or "http://") is
/// cut out of the text, the text is trimmed, and the post id is returned;
/// otherwise the text is left as it is.
pub fn parse_and_strip_tme_link(text: &mut String, channel_id: i64, channel_username: Option<&str>) -> (res:
    Option<i32>)
    ensures
        match channel_link(old(text)@, channel_id, opt_str_view(channel_username)) {
            Some((a, b, m)) => res == Some(m) && final(text)@ == trim(
                old(text)@.subrange(0, a) + old(text)@.subrange(b, old(text)@.len() as int),
            ),
            None => res is None && final(text)@ == old(text)@,
        },
{
    let chars = chars_of(text.as_str());
    let lower = lower_chars(&chars);
    let pat = vec!['t', '.', 'm', 'e', '/'];
    assert(pat@ =~= tme());
    let pos = match find_chars(&lower, &pat, 0) {
        Some(p) => p,
        None => return None,
    };
    proof {
        lemma_find_from_bounds(lower@, tme(), 0);
    }
    let https = vec!['h', 't', 't', 'p', 's', ':', '/', '/'];
    let http = vec!['h', 't', 't', 'p', ':', '/', '/'];
    assert(https@ =~= https_prefix());
    assert(http@ =~= http_prefix());
    let start = if pos >= 8 && matches_at(&lower, pos - 8, &https) {
        pos - 8
    } else if pos >= 7 && matches_at(&lower, pos - 7, &http) {
        pos - 7
    } else {
        pos
    };
    assert(start == link_start(lower@, pos as int));
    proof {
        assert forall|k: int| pos <= k < pos + 5 implies !is_ws(#[trigger] lower@[k]) by {
            assert(lower@[k] == lower@.subrange(pos as int, pos + 5)[k - pos]);
        }
        lemma_find_ws_at_least(lower@, pos as int, pos + 5);
        lemma_find_ws_bounds(lower@, pos + 5);
    }
    let end = match find_whitespace(&lower, pos + 5) {
        Some(e) => e,
        None => lower.len(),
    };
    assert(end == link_end(lower@, pos as int));
    let path = sub_chars(&lower, pos + 5, end);
    let pieces = split_chars(&path, '?');
    let first = sub_chars(&pieces[0], 0, pieces[0].len());
    assert(first@ =~= split(path@, '?')[0]);
    let parts = split_chars(&first, '/');
    assert(parts@.map_values(|p: Vec<char>| p@) =~= path_parts(lower@, pos as int, end as int));
    match linked_post_exec(&parts, channel_id, channel_username) {
        Some(m) => {
            let before = sub_chars(&chars, 0, start);
            let after = sub_chars(&chars, end, chars.len());
            let joined = concat_chars(&before, &after);
            let trimmed = trim_chars(&joined);
            *text = string_of(trimmed.as_slice());
            Some(m)
        },
        None => None,
    }
}

/// A channel link is cut out only where the text, in lower case, holds
/// "t.me/"; what is left then is shorter than the text was and has no
/// leading or trailing whitespace.
pub proof fn law_link_strip_shrinks(text: Seq<char>, channel_id: i64, username: Option<Seq<char>>)
    ensures
        match channel_link(text, channel_id, username) {
            Some((a, b, m)) => {
                let stripped = trim(text.subrange(0, a) + text.subrange(b, text.len() as int));
                &&& find_from(lower_seq(text), tme(), 0) is Some
                &&& 0 <= a < b <= text.len()
                &&& stripped.len() < text.len()
                &&& trim(stripped) == stripped
            },
            None => true,
        },
{
    let lower = lower_seq(text);
    lemma_find_from_bounds(lower, tme(), 0);
    if let Some(pos) = find_from(lower, tme(), 0) {
        lemma_find_ws_bounds(lower, pos);
        let end = link_end(lower, pos);
        if let Some(e) = find_ws(lower, pos) {
            assert forall|k: int| pos <= k < pos + 5 implies !is_ws(#[trigger] lower[k]) by {
                assert(lower[k] == lower.subrange(pos, pos + 5)[k - pos]);
            }
            lemma_find_ws_at_least(lower, pos, pos + 5);
            lemma_find_ws_bounds(lower, pos + 5);
        }
        let start = link_start(lower, pos);
        assert(start <= pos < pos + 5 <= end);
        let joined = text.subrange(0, start) + text.subrange(end, text.len() as int);
        lemma_trim_idempotent(joined);
    }
}

/// The channel's username is matched without regard to ASCII case: two
/// usernames that differ only in case (such as a username and its lower-case
/// form) recognise the same posts in the same link paths and in the same
/// texts.
pub proof fn law_username_any_case(
    parts: Seq<Seq<char>>,
    text: Seq<char>,
    channel_id: i64,
    u: Seq<char>,
    v: Seq<char>,
)
    requires
        lower_seq(u) == lower_seq(v),
    ensures
        linked_post(parts, channel_id, Some(u)) == linked_post(parts, channel_id, Some(v)),
        channel_link(text, channel_id, Some(u)) == channel_link(text, channel_id, Some(v)),
{
}

/// A username is matched in any case: it recognises the same links as its
/// lower-case form.
pub proof fn law_username_lower_case(parts: Seq<Seq<char>>, text: Seq<char>, channel_id: i64, u: Seq<char>)
    ensures
        linked_post(parts, channel_id, Some(u)) == linked_post(parts, channel_id, Some(lower_seq(u))),
        channel_link(text, channel_id, Some(u)) == channel_link(text, channel_id, Some(lower_seq(u))),
{
    lemma_lower_seq_idempotent(u);
    law_username_any_case(parts, text, channel_id, u, lower_seq(u));
}

} // verus!
