//! Pseudonymous user identifiers: a user id is stored only as the
//! lowercase hex of the SHA-256 digest of its little-endian bytes.

use sha2::{Digest, Sha256};
use vstd::prelude::*;

use crate::text::string_of;

verus! {

/// The SHA-256 digest of a byte string (FIPS 180-4).
pub uninterp spec fn sha256_digest(data: Seq<u8>) -> Seq<u8>;

/// Runs `sha2::Sha256` (`new`, `update`, `finalize`) over `data`.
///
/// Trusted: the result is the digest named `sha256_digest(data@)`, and it is
/// 32 bytes long, as `Sha256`'s output size `U32` fixes.
#[verifier::external_body]
fn sha256_of(data: &[u8]) -> (res: Vec<u8>)
    ensures
        res@ == sha256_digest(data@),
        res@.len() == 32,
{
    let mut hasher = Sha256::new();
    hasher.update(data);
    hasher.finalize().to_vec()
}

/// The `count` lowest base-256 digits of `u`, least significant first.
pub open spec fn le_digits(u: nat, count: nat) -> Seq<u8>
    decreases count,
{
    if count == 0 {
        Seq::empty()
    } else {
        seq![(u % 256) as u8] + le_digits(u / 256, (count - 1) as nat)
    }
}

/// The little-endian bytes of an `i64` in two's complement (what
/// `i64::to_le_bytes` returns).
pub open spec fn i64_le_bytes(n: i64) -> Seq<u8> {
    le_digits((n as u64) as nat, 8)
}

/// The lowercase hexadecimal digit for `d` (0..=15).
pub open spec fn hex_digit(d: int) -> char {
    if d < 10 {
        (48 + d) as char
    } else {
        (87 + d) as char
    }
}

/// Two lowercase hexadecimal digits per byte, most significant digit first.
pub open spec fn hex_lower(bytes: Seq<u8>) -> Seq<char>
    decreases bytes.len(),
{
    if bytes.len() == 0 {
        Seq::empty()
    } else {
        seq![hex_digit((bytes[0] / 16) as int), hex_digit((bytes[0] % 16) as int)] + hex_lower(bytes.drop_first())
    }
}

fn i64_to_le_bytes(n: i64) -> (res: Vec<u8>)
    ensures
        res@ == i64_le_bytes(n),
{
    let u0: u64 = n as u64;
    let mut cur: u64 = u0;
    let mut out: Vec<u8> = Vec::new();
    let mut k: usize = 0;
    while k < 8
        invariant
            k <= 8,
            le_digits(u0 as nat, 8) == out@ + le_digits(cur as nat, (8 - k) as nat),
        decreases 8 - k,
    {
        let ghost before = out@;
        out.push((cur % 256) as u8);
        assert(le_digits(cur as nat, (8 - k) as nat) == seq![(cur % 256) as u8] + le_digits(
            (cur / 256) as nat,
            (8 - k - 1) as nat,
        ));
        assert(before + (seq![(cur % 256) as u8] + le_digits((cur / 256) as nat, (8 - k - 1) as nat))
            =~= out@ + le_digits((cur / 256) as nat, (8 - k - 1) as nat));
        cur = cur / 256;
        k = k + 1;
    }
    assert(out@ + le_digits(cur as nat, 0) =~= out@);
    out
}

fn hex_char(d: u8) -> (c: char)
    requires
        d < 16,
    ensures
        c == hex_digit(d as int),
{
    if d < 10 {
        (48u8 + d) as char
    } else {
        (87u8 + d) as char
    }
}

/// The lowercase hexadecimal text of `bytes`, two digits per byte, most
/// significant digit first (`{:02x}` for each byte).
pub fn to_hex_lower(bytes: &Vec<u8>) -> (res: Vec<char>)
    ensures
        res@ == hex_lower(bytes@),
        res@.len() == 2 * bytes@.len(),
{
    let mut out: Vec<char> = Vec::new();
    let mut i: usize = 0;
    assert(bytes@.skip(0) =~= bytes@);
    while i < bytes.len()
        invariant
            i <= bytes.len(),
            out@.len() == 2 * i,
            hex_lower(bytes@) == out@ + hex_lower(bytes@.skip(i as int)),
        decreases bytes.len() - i,
    {
        let b = bytes[i];
        let ghost before = out@;
        out.push(hex_char(b / 16));
        out.push(hex_char(b % 16));
        assert(bytes@.skip(i as int).drop_first() =~= bytes@.skip(i + 1));
        assert(before + (seq![hex_digit((b / 16) as int), hex_digit((b % 16) as int)] + hex_lower(bytes@.skip(i + 1)))
            =~= out@ + hex_lower(bytes@.skip(i + 1)));
        i = i + 1;
    }
    assert(bytes@.skip(i as int) =~= Seq::<u8>::empty());
    assert(out@ + Seq::<char>::empty() =~= out@);
    out
}

/// The pseudonym of a user id: the lowercase hex of the SHA-256 digest of
/// the id's little-endian bytes (64 characters).
pub fn hash_user_id(user_id: i64) -> (res: String)
    ensures
        res@ == hex_lower(sha256_digest(i64_le_bytes(user_id))),
        res@.len() == 64,
{
    let bytes = i64_to_le_bytes(user_id);
    let digest = sha256_of(bytes.as_slice());
    let hex = to_hex_lower(&digest);
    string_of(hex.as_slice())
}

/// The digest input of a user id is exactly the id's eight bytes as a `u64`
/// in two's complement, least significant first: byte `k` is
/// `(n as u64) >> 8k` masked to its low eight bits.
pub proof fn law_le_bytes_are_the_bytes(n: i64)
    ensures
        i64_le_bytes(n).len() == 8,
        forall|k: int|
            0 <= k < 8 ==> #[trigger] i64_le_bytes(n)[k] as u64 == ((n as u64) >> ((8 * k) as u64)) & 0xff,
{
    reveal_with_fuel(le_digits, 9);
    let u: u64 = n as u64;
    let b = i64_le_bytes(n);
    let u1: u64 = u / 256;
    let u2: u64 = u1 / 256;
    let u3: u64 = u2 / 256;
    let u4: u64 = u3 / 256;
    let u5: u64 = u4 / 256;
    let u6: u64 = u5 / 256;
    let u7: u64 = u6 / 256;
    assert(b =~= seq![
        (u % 256) as u8,
        (u1 % 256) as u8,
        (u2 % 256) as u8,
        (u3 % 256) as u8,
        (u4 % 256) as u8,
        (u5 % 256) as u8,
        (u6 % 256) as u8,
        (u7 % 256) as u8,
    ]);
    assert(u % 256 == (u >> 0u64) & 0xff) by (bit_vector);
    assert((u / 256) % 256 == (u >> 8u64) & 0xff) by (bit_vector);
    assert(((u / 256) / 256) % 256 == (u >> 16u64) & 0xff) by (bit_vector);
    assert((((u / 256) / 256) / 256) % 256 == (u >> 24u64) & 0xff) by (bit_vector);
    assert(((((u / 256) / 256) / 256) / 256) % 256 == (u >> 32u64) & 0xff) by (bit_vector);
    assert((((((u / 256) / 256) / 256) / 256) / 256) % 256 == (u >> 40u64) & 0xff) by (bit_vector);
    assert(((((((u / 256) / 256) / 256) / 256) / 256) / 256) % 256 == (u >> 48u64) & 0xff)
        by (bit_vector);
    assert((((((((u / 256) / 256) / 256) / 256) / 256) / 256) / 256) % 256 == (u >> 56u64) & 0xff)
        by (bit_vector);
    assert forall|k: int| 0 <= k < 8 implies #[trigger] b[k] as u64 == (u >> ((8 * k) as u64)) & 0xff by {
        if k == 0 {
        } else if k == 1 {
        } else if k == 2 {
        } else if k == 3 {
        } else if k == 4 {
        } else if k == 5 {
        } else if k == 6 {
        } else {
        }
    }
}

/// Different user ids give different digest inputs, so the pseudonyms of
/// two users differ wherever SHA-256 tells their inputs apart.
pub proof fn law_le_bytes_injective(a: i64, b: i64)
    requires
        a != b,
    ensures
        i64_le_bytes(a) != i64_le_bytes(b),
{
    law_le_bytes_are_the_bytes(a);
    law_le_bytes_are_the_bytes(b);
    let u: u64 = a as u64;
    let v: u64 = b as u64;
    assert(u != v) by (bit_vector)
        requires
            a != b,
            u == a as u64,
            v == b as u64,
    ;
    if i64_le_bytes(a) == i64_le_bytes(b) {
        assert(i64_le_bytes(a)[0] == i64_le_bytes(b)[0]);
        assert(i64_le_bytes(a)[1] == i64_le_bytes(b)[1]);
        assert(i64_le_bytes(a)[2] == i64_le_bytes(b)[2]);
        assert(i64_le_bytes(a)[3] == i64_le_bytes(b)[3]);
        assert(i64_le_bytes(a)[4] == i64_le_bytes(b)[4]);
        assert(i64_le_bytes(a)[5] == i64_le_bytes(b)[5]);
        assert(i64_le_bytes(a)[6] == i64_le_bytes(b)[6]);
        assert(i64_le_bytes(a)[7] == i64_le_bytes(b)[7]);
        assert((u >> 0u64) & 0xff == (v >> 0u64) & 0xff);
        assert((u >> 8u64) & 0xff == (v >> 8u64) & 0xff);
        assert((u >> 16u64) & 0xff == (v >> 16u64) & 0xff);
        assert((u >> 24u64) & 0xff == (v >> 24u64) & 0xff);
        assert((u >> 32u64) & 0xff == (v >> 32u64) & 0xff);
        assert((u >> 40u64) & 0xff == (v >> 40u64) & 0xff);
        assert((u >> 48u64) & 0xff == (v >> 48u64) & 0xff);
        assert((u >> 56u64) & 0xff == (v >> 56u64) & 0xff);
        assert(u == v) by (bit_vector)
            requires
                (u >> 0u64) & 0xff == (v >> 0u64) & 0xff,
                (u >> 8u64) & 0xff == (v >> 8u64) & 0xff,
                (u >> 16u64) & 0xff == (v >> 16u64) & 0xff,
                (u >> 24u64) & 0xff == (v >> 24u64) & 0xff,
                (u >> 32u64) & 0xff == (v >> 32u64) & 0xff,
                (u >> 40u64) & 0xff == (v >> 40u64) & 0xff,
                (u >> 48u64) & 0xff == (v >> 48u64) & 0xff,
                (u >> 56u64) & 0xff == (v >> 56u64) & 0xff,
        ;
    }
}

} // verus!
