//! Random identifiers: ban ids, invitation and setup codes, and the group
//! id of a proposal made of a single message.

use vstd::prelude::*;

use crate::text::{chars_of, string_of};

verus! {

/// A lowercase hexadecimal digit.
pub open spec fn is_lower_hex(c: char) -> bool {
    ('0' <= c <= '9') || ('a' <= c <= 'f')
}

/// An uppercase hexadecimal digit.
pub open spec fn is_upper_hex(c: char) -> bool {
    ('0' <= c <= '9') || ('A' <= c <= 'F')
}

/// A fresh random (version 4) UUID in its simple form.
///
/// Calls `uuid::Uuid::new_v4` and formats it with `simple()`; trusted: the
/// text is 32 lowercase hexadecimal digits, which is what the crate's
/// simple format writes. Nothing is stated of which digits come out.
#[verifier::external_body]
fn random_uuid_simple() -> (s: String)
    ensures
        s@.len() == 32,
        forall|i: int| 0 <= i < 32 ==> is_lower_hex(#[trigger] s@[i]),
{
    uuid::Uuid::new_v4().simple().to_string()
}

/// A fresh random (version 4) UUID in its hyphenated form.
///
/// Calls `uuid::Uuid::new_v4` and formats it with `Display`; trusted: the
/// text is 36 characters, hyphens at 8, 13, 18 and 23 and lowercase
/// hexadecimal digits elsewhere, which is what the crate's hyphenated
/// format writes. Nothing is stated of which digits come out.
#[verifier::external_body]
fn random_uuid_hyphenated() -> (s: String)
    ensures
        s@.len() == 36,
        forall|i: int|
            0 <= i < 36 ==> if i == 8 || i == 13 || i == 18 || i == 23 {
                #[trigger] s@[i] == '-'
            } else {
                is_lower_hex(s@[i])
            },
{
    uuid::Uuid::new_v4().to_string()
}

/// A lowercase hexadecimal letter in upper case; digits stay as they are.
pub open spec fn upper_char(c: char) -> char {
    if 'a' <= c <= 'f' {
        ((c as u32) - 32) as char
    } else {
        c
    }
}

proof fn lemma_upper_char(c: char)
    requires
        is_lower_hex(c),
    ensures
        is_upper_hex(upper_char(c)),
{
    if 'a' <= c <= 'f' {
        assert(((c as u32) - 32) as char == upper_char(c));
    }
}

fn upper_hex(c: char) -> (r: char)
    requires
        is_lower_hex(c),
    ensures
        r == upper_char(c),
{
    if 'a' <= c && c <= 'f' {
        let u: u32 = (c as u32) - 32;
        let b: u8 = u as u8;
        b as char
    } else {
        c
    }
}

/// The code `prefix` followed by the first `n` digits of the UUID text
/// `uuid` (lowercase hexadecimal digits), upper-cased.
pub fn code_of(prefix: &str, uuid: &str, n: usize) -> (res: String)
    requires
        n <= uuid@.len(),
        forall|i: int| 0 <= i < uuid@.len() ==> is_lower_hex(#[trigger] uuid@[i]),
    ensures
        res@ == prefix@ + uuid@.take(n as int).map_values(|c: char| upper_char(c)),
{
    let s = chars_of(uuid);
    let mut out = chars_of(prefix);
    let ghost p = out@;
    let mut i: usize = 0;
    while i < n
        invariant
            i <= n <= s@.len(),
            s@ == uuid@,
            forall|k: int| 0 <= k < s@.len() ==> is_lower_hex(#[trigger] s@[k]),
            out@ == p + s@.take(i as int).map_values(|c: char| upper_char(c)),
        decreases n - i,
    {
        out.push(upper_hex(s[i]));
        i = i + 1;
        assert(out@ =~= p + s@.take(i as int).map_values(|c: char| upper_char(c)));
    }
    string_of(out.as_slice())
}

/// `n` random uppercase hexadecimal digits after `prefix`, from the start
/// of a fresh UUID.
fn random_code(prefix: &str, n: usize) -> (res: String)
    requires
        n <= 32,
    ensures
        res@.len() == prefix@.len() + n,
        res@.take(prefix@.len() as int) == prefix@,
        forall|i: int| prefix@.len() <= i < res@.len() ==> is_upper_hex(#[trigger] res@[i]),
{
    let u = random_uuid_simple();
    let res = code_of(prefix, u.as_str(), n);
    let ghost tail = u@.take(n as int).map_values(|c: char| upper_char(c));
    assert(res@.take(prefix@.len() as int) =~= prefix@);
    assert forall|i: int| prefix@.len() <= i < res@.len() implies is_upper_hex(#[trigger] res@[i]) by {
        assert(res@[i] == tail[i - prefix@.len()]);
        lemma_upper_char(u@[i - prefix@.len()]);
    }
    res
}

/// A fresh ban id: "BAN-" and six random uppercase hexadecimal digits.
pub fn new_ban_id() -> (res: String)
    ensures
        res@.len() == 10,
        res@.take(4) == "BAN-"@,
        forall|i: int| 4 <= i < 10 ==> is_upper_hex(#[trigger] res@[i]),
{
    proof {
        reveal_strlit("BAN-");
    }
    random_code("BAN-", 6)
}

/// A fresh moderator invitation code: eight random uppercase hexadecimal
/// digits.
pub fn new_invite_code() -> (res: String)
    ensures
        res@.len() == 8,
        forall|i: int| 0 <= i < 8 ==> is_upper_hex(#[trigger] res@[i]),
{
    proof {
        reveal_strlit("");
    }
    random_code("", 8)
}

/// A fresh channel setup code: four random uppercase hexadecimal digits.
pub fn new_setup_code() -> (res: String)
    ensures
        res@.len() == 4,
        forall|i: int| 0 <= i < 4 ==> is_upper_hex(#[trigger] res@[i]),
{
    proof {
        reveal_strlit("");
    }
    random_code("", 4)
}

/// A group id of a single-message proposal: "single_" and a hyphenated
/// UUID (lowercase hexadecimal digits, hyphens after the 8th, 12th, 16th
/// and 20th digit).
pub open spec fn is_single_group_id(g: Seq<char>) -> bool {
    &&& g.len() == 43
    &&& g.take(7) == "single_"@
    &&& forall|i: int|
        7 <= i < 43 ==> if i == 15 || i == 20 || i == 25 || i == 30 {
            #[trigger] g[i] == '-'
        } else {
            is_lower_hex(g[i])
        }
}

/// The group id of a single-message proposal for UUID text `uuid`.
pub fn single_group_id_of(uuid: &str) -> (res: String)
    ensures
        res@ == "single_"@ + uuid@,
{
    let mut out = chars_of("single_");
    let u = chars_of(uuid);
    let ghost p = out@;
    let mut i: usize = 0;
    while i < u.len()
        invariant
            i <= u.len(),
            out@ == p + u@.subrange(0, i as int),
        decreases u.len() - i,
    {
        out.push(u[i]);
        i = i + 1;
        assert(out@ =~= p + u@.subrange(0, i as int));
    }
    assert(u@.subrange(0, i as int) =~= u@);
    string_of(out.as_slice())
}

/// A fresh group id for a proposal of a single message: "single_" and a
/// random hyphenated UUID.
pub fn new_single_group_id() -> (res: String)
    ensures
        is_single_group_id(res@),
{
    proof {
        reveal_strlit("single_");
    }
    let u = random_uuid_hyphenated();
    let res = single_group_id_of(u.as_str());
    assert(res@.take(7) =~= "single_"@);
    assert forall|i: int| 7 <= i < 43 implies if i == 15 || i == 20 || i == 25 || i == 30 {
        #[trigger] res@[i] == '-'
    } else {
        is_lower_hex(res@[i])
    } by {
        assert(res@[i] == u@[i - 7]);
    }
    res
}

} // verus!
