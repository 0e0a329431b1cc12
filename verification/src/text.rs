//! Character-level text utilities: decimal rendering, placeholder
//! substitution, and the conversions between `str` and `Vec<char>`.

use vstd::prelude::*;

verus! {

/// The characters of `s`, in order.
pub fn chars_of(s: &str) -> (v: Vec<char>)
    ensures
        v@ == s@,
{
    let mut v: Vec<char> = Vec::new();
    for c in it: s.chars()
        invariant
            it.seq() == s@,
            v@ == s@.take(it.index()),
    {
        v.push(c);
        assert(v@ =~= s@.take(it.index() + 1));
    }
    v
}

/// `String::push`: std documents that it appends the character to the end
/// of the string.
#[verifier::external_body]
fn push_char(s: &mut String, c: char)
    ensures
        final(s)@ == old(s)@.push(c),
{
    s.push(c);
}

/// A `String` made of the characters of `v`, in order.
pub fn string_of(v: &[char]) -> (s: String)
    ensures
        s@ == v@,
{
    let mut s = String::new();
    let mut i: usize = 0;
    while i < v.len()
        invariant
            i <= v.len(),
            s@ == v@.take(i as int),
        decreases v.len() - i,
    {
        push_char(&mut s, v[i]);
        i = i + 1;
        assert(s@ =~= v@.take(i as int));
    }
    assert(v@.take(i as int) =~= v@);
    s
}

/// Whether two string slices hold the same characters.
pub fn str_eq(a: &str, b: &str) -> (r: bool)
    ensures
        r == (a@ == b@),
{
    chars_eq(&chars_of(a), &chars_of(b))
}

/// The ASCII digit for `d` (0..=9).
pub open spec fn digit_char(d: int) -> char {
    (48 + d) as char
}

/// The decimal digits of a natural number, most significant first, with no
/// leading zeros (zero itself is "0").
pub open spec fn nat_decimal(n: nat) -> Seq<char>
    decreases n,
{
    if n < 10 {
        seq![digit_char(n as int)]
    } else {
        nat_decimal(n / 10).push(digit_char((n % 10) as int))
    }
}

/// The decimal rendering of an integer, as Rust's `Display` writes it:
/// a leading `-` for negative values.
pub open spec fn int_decimal(n: int) -> Seq<char> {
    if n < 0 {
        seq!['-'] + nat_decimal((-n) as nat)
    } else {
        nat_decimal(n as nat)
    }
}

fn digit(d: u64) -> (c: char)
    requires
        d < 10,
    ensures
        c == digit_char(d as int),
{
    let b: u8 = 48u8 + (d as u8);
    b as char
}

/// Decimal digits of `n`.
pub fn u64_decimal(n: u64) -> (v: Vec<char>)
    ensures
        v@ == nat_decimal(n as nat),
    decreases n,
{
    if n < 10 {
        let mut v: Vec<char> = Vec::new();
        v.push(digit(n));
        v
    } else {
        let mut v = u64_decimal(n / 10);
        v.push(digit(n % 10));
        v
    }
}

/// Decimal rendering of `n`, with a leading `-` when negative.
pub fn i64_decimal(n: i64) -> (v: Vec<char>)
    ensures
        v@ == int_decimal(n as int),
{
    if n < 0 {
        let mag: u64 = if n == i64::MIN {
            9223372036854775808u64
        } else {
            (-n) as u64
        };
        let digits = u64_decimal(mag);
        let mut v: Vec<char> = Vec::new();
        v.push('-');
        let mut i: usize = 0;
        while i < digits.len()
            invariant
                i <= digits.len(),
                v@ == seq!['-'] + digits@.subrange(0, i as int),
            decreases digits.len() - i,
        {
            v.push(digits[i]);
            i = i + 1;
            assert(v@ =~= seq!['-'] + digits@.subrange(0, i as int));
        }
        assert(digits@.subrange(0, digits.len() as int) =~= digits@);
        v
    } else {
        u64_decimal(n as u64)
    }
}


/// `s` with every occurrence of the non-empty pattern `p` replaced by `r`,
/// matches taken left to right without overlap (the behaviour of
/// `str::replace` for a non-empty pattern).
pub open spec fn replace_all(s: Seq<char>, p: Seq<char>, r: Seq<char>) -> Seq<char>
    decreases s.len(),
{
    if s.len() == 0 {
        s
    } else if 0 < p.len() <= s.len() && s.subrange(0, p.len() as int) == p {
        r + replace_all(s.skip(p.len() as int), p, r)
    } else {
        seq![s[0]] + replace_all(s.skip(1), p, r)
    }
}

/// Whether `p` occurs in `s` starting at index `i`.
pub fn matches_at(s: &Vec<char>, i: usize, p: &Vec<char>) -> (res: bool)
    requires
        i <= s.len(),
    ensures
        res == (i + p.len() <= s.len() && s@.subrange(i as int, i + p.len()) == p@),
{
    if p.len() > s.len() - i {
        return false;
    }
    let mut j: usize = 0;
    while j < p.len()
        invariant
            i + p.len() <= s.len(),
            j <= p.len(),
            forall|k: int| 0 <= k < j ==> s@[i + k] == p@[k],
        decreases p.len() - j,
    {
        if s[i + j] != p[j] {
            assert(s@.subrange(i as int, i + p.len())[j as int] != p@[j as int]);
            return false;
        }
        j = j + 1;
    }
    assert(s@.subrange(i as int, i + p.len()) =~= p@);
    true
}

/// Replaces every occurrence of the non-empty pattern `p` in `s` by `r`.
pub fn replace_all_chars(s: &Vec<char>, p: &Vec<char>, r: &Vec<char>) -> (out: Vec<char>)
    requires
        p.len() > 0,
    ensures
        out@ == replace_all(s@, p@, r@),
{
    let mut out: Vec<char> = Vec::new();
    let mut i: usize = 0;
    assert(s@.skip(0) =~= s@);
    while i < s.len()
        invariant
            i <= s.len(),
            p.len() > 0,
            replace_all(s@, p@, r@) == out@ + replace_all(s@.skip(i as int), p@, r@),
        decreases s.len() - i,
    {
        let ghost rest = s@.skip(i as int);
        if matches_at(s, i, p) {
            assert(rest.subrange(0, p.len() as int) =~= s@.subrange(i as int, i + p.len()));
            assert(rest.skip(p.len() as int) =~= s@.skip(i + p.len()));
            let mut k: usize = 0;
            let ghost before = out@;
            while k < r.len()
                invariant
                    k <= r.len(),
                    out@ == before + r@.subrange(0, k as int),
                decreases r.len() - k,
            {
                out.push(r[k]);
                k = k + 1;
                assert(out@ =~= before + r@.subrange(0, k as int));
            }
            assert(r@.subrange(0, r.len() as int) =~= r@);
            assert(out@ + replace_all(s@.skip(i + p.len()), p@, r@) =~= before + (r@
                + replace_all(rest.skip(p.len() as int), p@, r@)));
            i = i + p.len();
        } else {
            assert(!(rest.subrange(0, p.len() as int) == p@) || p.len() > rest.len()) by {
                if p.len() <= rest.len() {
                    assert(rest.subrange(0, p.len() as int) =~= s@.subrange(i as int, i + p.len()));
                }
            }
            assert(rest.skip(1) =~= s@.skip(i + 1));
            let ghost before = out@;
            out.push(s[i]);
            assert(out@ + replace_all(s@.skip(i + 1), p@, r@) =~= before + (seq![rest[0]]
                + replace_all(rest.skip(1), p@, r@)));
            i = i + 1;
        }
    }
    assert(s@.skip(i as int) =~= Seq::<char>::empty());
    assert(out@ + Seq::<char>::empty() =~= out@);
    out
}

/// `c` with ASCII capitals mapped to lower case.
pub open spec fn lower_char(c: char) -> char {
    if 'A' <= c <= 'Z' {
        ((c as u32) + 32) as char
    } else {
        c
    }
}

/// `c` with ASCII capitals mapped to lower case.
pub fn ascii_lower(c: char) -> (r: char)
    ensures
        r == lower_char(c),
{
    if 'A' <= c && c <= 'Z' {
        let u: u32 = (c as u32) + 32;
        let b: u8 = u as u8;
        b as char
    } else {
        c
    }
}

/// `s` with ASCII capitals mapped to lower case (`str::to_ascii_lowercase`).
pub open spec fn lower_seq(s: Seq<char>) -> Seq<char> {
    s.map_values(|c: char| lower_char(c))
}

/// Lower-casing twice is lower-casing once.
pub proof fn lemma_lower_seq_idempotent(s: Seq<char>)
    ensures
        lower_seq(lower_seq(s)) == lower_seq(s),
{
    assert forall|i: int| 0 <= i < s.len() implies lower_char(lower_char(s[i])) == lower_char(s[i]) by {
        let c = s[i];
        if 'A' <= c <= 'Z' {
            assert(97 <= (c as u32) + 32 <= 122);
        }
    }
    assert(lower_seq(lower_seq(s)) =~= lower_seq(s));
}

/// The characters of `s` with ASCII capitals mapped to lower case.
pub fn lower_chars(s: &Vec<char>) -> (res: Vec<char>)
    ensures
        res@ == lower_seq(s@),
{
    let mut out: Vec<char> = Vec::new();
    let mut i: usize = 0;
    while i < s.len()
        invariant
            i <= s.len(),
            out@ == lower_seq(s@.subrange(0, i as int)),
        decreases s.len() - i,
    {
        out.push(ascii_lower(s[i]));
        i = i + 1;
        assert(out@ =~= lower_seq(s@.subrange(0, i as int)));
    }
    assert(s@.subrange(0, i as int) =~= s@);
    out
}

/// Whether two character vectors are equal.
pub fn chars_eq(a: &Vec<char>, b: &Vec<char>) -> (r: bool)
    ensures
        r == (a@ == b@),
{
    if a.len() != b.len() {
        return false;
    }
    let r = matches_at(a, 0, b);
    assert(a@.subrange(0, b.len() as int) =~= a@);
    r
}

/// The concatenation of two character vectors.
pub fn concat_chars(a: &Vec<char>, b: &Vec<char>) -> (res: Vec<char>)
    ensures
        res@ == a@ + b@,
{
    let mut out = sub_chars(a, 0, a.len());
    let mut i: usize = 0;
    while i < b.len()
        invariant
            i <= b.len(),
            out@ == a@ + b@.subrange(0, i as int),
        decreases b.len() - i,
    {
        out.push(b[i]);
        i = i + 1;
        assert(out@ =~= a@ + b@.subrange(0, i as int));
    }
    assert(a@.subrange(0, a.len() as int) =~= a@);
    assert(b@.subrange(0, b.len() as int) =~= b@);
    out
}

/// Appends the characters of `s`.
pub fn push_str(v: &mut Vec<char>, s: &str)
    ensures
        final(v)@ == old(v)@ + s@,
{
    let c = chars_of(s);
    let mut i: usize = 0;
    let ghost start = v@;
    while i < c.len()
        invariant
            i <= c.len(),
            v@ == start + c@.subrange(0, i as int),
        decreases c.len() - i,
    {
        v.push(c[i]);
        i = i + 1;
        assert(v@ =~= start + c@.subrange(0, i as int));
    }
    assert(c@.subrange(0, i as int) =~= c@);
}

/// Appends the characters of `s`.
pub fn push_chars(v: &mut Vec<char>, s: &Vec<char>)
    ensures
        final(v)@ == old(v)@ + s@,
{
    let mut i: usize = 0;
    let ghost start = v@;
    while i < s.len()
        invariant
            i <= s.len(),
            v@ == start + s@.subrange(0, i as int),
        decreases s.len() - i,
    {
        v.push(s[i]);
        i = i + 1;
        assert(v@ =~= start + s@.subrange(0, i as int));
    }
    assert(s@.subrange(0, i as int) =~= s@);
}

/// Appends the decimal rendering of `n`.
pub fn push_i64(v: &mut Vec<char>, n: i64)
    ensures
        final(v)@ == old(v)@ + int_decimal(n as int),
{
    let d = i64_decimal(n);
    push_chars(v, &d);
}

/// Appends the decimal rendering of `n`.
pub fn push_u64(v: &mut Vec<char>, n: u64)
    ensures
        final(v)@ == old(v)@ + nat_decimal(n as nat),
{
    let d = u64_decimal(n);
    push_chars(v, &d);
}

/// Unicode White_Space, the characters `char::is_whitespace` accepts.
pub open spec fn is_ws(c: char) -> bool {
    ||| ('\u{9}' <= c <= '\u{d}')
    ||| c == ' '
    ||| c == '\u{85}'
    ||| c == '\u{a0}'
    ||| c == '\u{1680}'
    ||| ('\u{2000}' <= c <= '\u{200a}')
    ||| c == '\u{2028}'
    ||| c == '\u{2029}'
    ||| c == '\u{202f}'
    ||| c == '\u{205f}'
    ||| c == '\u{3000}'
}

/// Whether `c` is whitespace (`char::is_whitespace`).
pub fn is_whitespace(c: char) -> (r: bool)
    ensures
        r == is_ws(c),
{
    ('\u{9}' <= c && c <= '\u{d}') || c == ' ' || c == '\u{85}' || c == '\u{a0}' || c == '\u{1680}'
        || ('\u{2000}' <= c && c <= '\u{200a}') || c == '\u{2028}' || c == '\u{2029}' || c
        == '\u{202f}' || c == '\u{205f}' || c == '\u{3000}'
}

/// `s` without leading whitespace.
pub open spec fn trim_start(s: Seq<char>) -> Seq<char>
    decreases s.len(),
{
    if s.len() > 0 && is_ws(s[0]) {
        trim_start(s.drop_first())
    } else {
        s
    }
}

/// `s` without trailing whitespace.
pub open spec fn trim_end(s: Seq<char>) -> Seq<char>
    decreases s.len(),
{
    if s.len() > 0 && is_ws(s.last()) {
        trim_end(s.drop_last())
    } else {
        s
    }
}

/// `s` without leading and trailing whitespace (`str::trim`).
pub open spec fn trim(s: Seq<char>) -> Seq<char> {
    trim_end(trim_start(s))
}

/// `trim_start` drops a prefix, and what it keeps starts with no whitespace.
proof fn lemma_trim_start_shape(s: Seq<char>)
    ensures
        trim_start(s).len() <= s.len(),
        trim_start(s) == s.skip(s.len() - trim_start(s).len()),
        trim_start(s).len() > 0 ==> !is_ws(trim_start(s)[0]),
    decreases s.len(),
{
    if s.len() > 0 && is_ws(s[0]) {
        lemma_trim_start_shape(s.drop_first());
        assert(s.drop_first().skip(s.drop_first().len() - trim_start(s).len()) =~= s.skip(
            s.len() - trim_start(s).len(),
        ));
    } else {
        assert(s.skip(0) =~= s);
    }
}

/// `trim_end` drops a suffix, and what it keeps ends with no whitespace.
proof fn lemma_trim_end_shape(s: Seq<char>)
    ensures
        trim_end(s).len() <= s.len(),
        trim_end(s) == s.take(trim_end(s).len() as int),
        trim_end(s).len() > 0 ==> !is_ws(trim_end(s).last()),
    decreases s.len(),
{
    if s.len() > 0 && is_ws(s.last()) {
        lemma_trim_end_shape(s.drop_last());
        assert(s.drop_last().take(trim_end(s).len() as int) =~= s.take(trim_end(s).len() as int));
    } else {
        assert(s.take(s.len() as int) =~= s);
    }
}

/// Trimming never lengthens a text, and trimming it twice is trimming it
/// once.
pub proof fn lemma_trim_idempotent(s: Seq<char>)
    ensures
        trim(s).len() <= s.len(),
        trim(trim(s)) == trim(s),
{
    let t = trim_start(s);
    lemma_trim_start_shape(s);
    lemma_trim_end_shape(t);
    let u = trim_end(t);
    if u.len() > 0 {
        assert(u[0] == t[0]);
        assert(trim_start(u) == u);
        assert(trim_end(u) == u);
    } else {
        assert(trim_start(u) == u);
        assert(trim_end(u) == u);
    }
}

/// The characters of `s` from `a` to `b`.
pub fn sub_chars(s: &Vec<char>, a: usize, b: usize) -> (res: Vec<char>)
    requires
        a <= b <= s.len(),
    ensures
        res@ == s@.subrange(a as int, b as int),
{
    let mut out: Vec<char> = Vec::new();
    let mut i: usize = a;
    while i < b
        invariant
            a <= i <= b <= s.len(),
            out@ == s@.subrange(a as int, i as int),
        decreases b - i,
    {
        out.push(s[i]);
        i = i + 1;
        assert(out@ =~= s@.subrange(a as int, i as int));
    }
    out
}

/// `s` without leading and trailing whitespace.
pub fn trim_chars(s: &Vec<char>) -> (res: Vec<char>)
    ensures
        res@ == trim(s@),
{
    let mut a: usize = 0;
    assert(s@.skip(0) =~= s@);
    while a < s.len() && is_whitespace(s[a])
        invariant
            a <= s.len(),
            trim_start(s@) == trim_start(s@.skip(a as int)),
        decreases s.len() - a,
    {
        assert(s@.skip(a as int).drop_first() =~= s@.skip(a + 1));
        a = a + 1;
    }
    let ghost ts = s@.skip(a as int);
    assert(trim_start(s@) == ts) by {
        if ts.len() > 0 {
            assert(ts[0] == s@[a as int]);
        }
    }
    let mut b: usize = s.len();
    assert(ts =~= s@.subrange(a as int, b as int));
    while b > a && is_whitespace(s[b - 1])
        invariant
            a <= b <= s.len(),
            trim_end(ts) == trim_end(s@.subrange(a as int, b as int)),
        decreases b - a,
    {
        assert(s@.subrange(a as int, b as int).drop_last() =~= s@.subrange(a as int, b - 1));
        b = b - 1;
    }
    let ghost te = s@.subrange(a as int, b as int);
    assert(trim_end(te) == te) by {
        if te.len() > 0 {
            assert(te.last() == s@[b - 1]);
        }
    }
    sub_chars(s, a, b)
}

/// The first index at or after `i` where `p` occurs in `s`.
pub open spec fn find_from(s: Seq<char>, p: Seq<char>, i: int) -> Option<int>
    decreases s.len() + 1 - i,
{
    if i < 0 || i + p.len() > s.len() {
        None
    } else if s.subrange(i, i + p.len()) == p {
        Some(i)
    } else {
        find_from(s, p, i + 1)
    }
}

/// The first index where `p` occurs in `s`, from index `i` on.
pub fn find_chars(s: &Vec<char>, p: &Vec<char>, i: usize) -> (res: Option<usize>)
    requires
        i <= s.len(),
    ensures
        match res {
            Some(k) => find_from(s@, p@, i as int) == Some(k as int),
            None => find_from(s@, p@, i as int) is None,
        },
{
    let mut k: usize = i;
    while k < s.len()
        invariant
            i <= k <= s.len(),
            find_from(s@, p@, i as int) == find_from(s@, p@, k as int),
        decreases s.len() - k,
    {
        if matches_at(s, k, p) {
            return Some(k);
        }
        k = k + 1;
    }
    if matches_at(s, k, p) {
        Some(k)
    } else {
        assert(find_from(s@, p@, k + 1) is None);
        None
    }
}

/// The first whitespace index at or after `i`.
pub open spec fn find_ws(s: Seq<char>, i: int) -> Option<int>
    decreases s.len() - i,
{
    if i < 0 || i >= s.len() {
        None
    } else if is_ws(s[i]) {
        Some(i)
    } else {
        find_ws(s, i + 1)
    }
}

/// The first whitespace index at or after `i`.
pub fn find_whitespace(s: &Vec<char>, i: usize) -> (res: Option<usize>)
    requires
        i <= s.len(),
    ensures
        match res {
            Some(k) => find_ws(s@, i as int) == Some(k as int),
            None => find_ws(s@, i as int) is None,
        },
{
    let mut k: usize = i;
    while k < s.len()
        invariant
            i <= k <= s.len(),
            find_ws(s@, i as int) == find_ws(s@, k as int),
        decreases s.len() - k,
    {
        if is_whitespace(s[k]) {
            return Some(k);
        }
        k = k + 1;
    }
    None
}

/// The index of the first `c` in `s`.
pub open spec fn index_of_char(s: Seq<char>, c: char) -> Option<int> {
    find_from(s, seq![c], 0)
}

/// The pieces of `s` between occurrences of `c` (`str::split` with a
/// character): always at least one piece.
pub open spec fn split(s: Seq<char>, c: char) -> Seq<Seq<char>>
    decreases s.len(),
{
    match index_of_char(s, c) {
        Some(i) => if 0 <= i < s.len() {
            seq![s.take(i)] + split(s.skip(i + 1), c)
        } else {
            seq![s]
        },
        None => seq![s],
    }
}

/// Where `find_from` finds `p`, `p` is there, at or after `i`.
pub proof fn lemma_find_from_bounds(s: Seq<char>, p: Seq<char>, i: int)
    ensures
        find_from(s, p, i) matches Some(k) ==> i <= k && k + p.len() <= s.len() && s.subrange(
            k,
            k + p.len(),
        ) == p,
    decreases s.len() + 1 - i,
{
    if i < 0 || i + p.len() > s.len() {
    } else if s.subrange(i, i + p.len()) == p {
    } else {
        lemma_find_from_bounds(s, p, i + 1);
    }
}

/// Where `find_ws` finds whitespace, it is within `s`, at or after `i`.
pub proof fn lemma_find_ws_bounds(s: Seq<char>, i: int)
    ensures
        find_ws(s, i) matches Some(k) ==> i <= k < s.len(),
    decreases s.len() - i,
{
    if 0 <= i < s.len() && !is_ws(s[i]) {
        lemma_find_ws_bounds(s, i + 1);
    }
}

/// The pieces of `s` between occurrences of `c`.
pub fn split_chars(s: &Vec<char>, c: char) -> (res: Vec<Vec<char>>)
    ensures
        res@.len() == split(s@, c).len(),
        forall|j: int| 0 <= j < res@.len() ==> (#[trigger] res@[j])@ == split(s@, c)[j],
    decreases s.len(),
{
    let mut sep: Vec<char> = Vec::new();
    sep.push(c);
    proof {
        lemma_find_from_bounds(s@, seq![c], 0);
    }
    assert(sep@ =~= seq![c]);
    match find_chars(s, &sep, 0) {
        Some(i) => {
            let head = sub_chars(s, 0, i);
            let tail = sub_chars(s, i + 1, s.len());
            assert(head@ =~= s@.take(i as int));
            assert(tail@ =~= s@.skip(i + 1));
            let rest = split_chars(&tail, c);
            let mut out: Vec<Vec<char>> = Vec::new();
            out.push(head);
            let mut j: usize = 0;
            while j < rest.len()
                invariant
                    j <= rest.len(),
                    out@.len() == j + 1,
                    out@[0]@ == s@.take(i as int),
                    forall|k: int| 1 <= k <= j ==> (#[trigger] out@[k])@ == split(tail@, c)[k - 1],
                    rest@.len() == split(tail@, c).len(),
                    forall|k: int| 0 <= k < rest@.len() ==> (#[trigger] rest@[k])@ == split(tail@, c)[k],
                decreases rest.len() - j,
            {
                let piece = sub_chars(&rest[j], 0, rest[j].len());
                assert(piece@ =~= rest@[j as int]@);
                out.push(piece);
                j = j + 1;
            }
            let ghost expect = seq![s@.take(i as int)] + split(s@.skip(i + 1), c);
            assert(split(s@, c) == expect);
            assert forall|k: int| 0 <= k < out@.len() implies (#[trigger] out@[k])@ == split(s@, c)[k] by {
                if k > 0 {
                    assert(expect[k] == split(tail@, c)[k - 1]);
                }
            }
            out
        },
        None => {
            let mut out: Vec<Vec<char>> = Vec::new();
            out.push(sub_chars(s, 0, s.len()));
            assert(s@.subrange(0, s.len() as int) =~= s@);
            out
        },
    }
}

/// The value of a non-empty run of ASCII digits.
pub open spec fn digits_value(s: Seq<char>) -> int
    decreases s.len(),
{
    if s.len() == 0 {
        0
    } else {
        10 * digits_value(s.drop_last()) + (s.last() as int - 48)
    }
}

/// Every character is an ASCII digit.
pub open spec fn all_digits(s: Seq<char>) -> bool {
    forall|i: int| 0 <= i < s.len() ==> '0' <= #[trigger] s[i] <= '9'
}

/// The integer a decimal text denotes: an optional `+` or `-`, then one or
/// more ASCII digits (what `str::parse` accepts for integer types).
pub open spec fn parse_int(s: Seq<char>) -> Option<int> {
    if s.len() >= 2 && s[0] == '+' && all_digits(s.skip(1)) {
        Some(digits_value(s.skip(1)))
    } else if s.len() >= 2 && s[0] == '-' && all_digits(s.skip(1)) {
        Some(-digits_value(s.skip(1)))
    } else if s.len() >= 1 && all_digits(s) {
        Some(digits_value(s))
    } else {
        None
    }
}

/// `str::parse::<i64>`: the denoted integer when it fits in an `i64`.
pub open spec fn parse_i64(s: Seq<char>) -> Option<i64> {
    match parse_int(s) {
        Some(v) => if i64::MIN <= v <= i64::MAX {
            Some(v as i64)
        } else {
            None
        },
        None => None,
    }
}

/// `str::parse::<i32>`: the denoted integer when it fits in an `i32`.
pub open spec fn parse_i32(s: Seq<char>) -> Option<i32> {
    match parse_int(s) {
        Some(v) => if i32::MIN <= v <= i32::MAX {
            Some(v as i32)
        } else {
            None
        },
        None => None,
    }
}

proof fn lemma_digits_value_nonneg(s: Seq<char>)
    requires
        all_digits(s),
    ensures
        digits_value(s) >= 0,
    decreases s.len(),
{
    if s.len() > 0 {
        assert(all_digits(s.drop_last()) && '0' <= s[s.len() - 1] <= '9') by {
            assert forall|i: int| 0 <= i < s.drop_last().len() implies '0' <= #[trigger] s.drop_last()[i] <= '9' by {
                assert(s.drop_last()[i] == s[i]);
            }
        }
        lemma_digits_value_nonneg(s.drop_last());
    }
}

/// The value of the digits of `s` from `a` to `b` when it is at most
/// `2^64`; `None` when the run holds a non-digit, is empty, or is larger.
fn digits_run(s: &Vec<char>, a: usize, b: usize) -> (res: Option<u128>)
    requires
        a <= b <= s.len(),
    ensures
        match res {
            Some(v) => a < b && all_digits(s@.subrange(a as int, b as int)) && v == digits_value(
                s@.subrange(a as int, b as int),
            ) && v <= 0x1_0000_0000_0000_0000,
            None => a == b || !all_digits(s@.subrange(a as int, b as int)) || digits_value(
                s@.subrange(a as int, b as int),
            ) > 0x1_0000_0000_0000_0000,
        },
{
    if a == b {
        return None;
    }
    let mut acc: u128 = 0;
    let mut big = false;
    let mut i: usize = a;
    while i < b
        invariant
            a <= i <= b <= s.len(),
            all_digits(s@.subrange(a as int, i as int)),
            !big ==> acc == digits_value(s@.subrange(a as int, i as int)),
            !big ==> acc <= 0x1_0000_0000_0000_0000,
            big ==> digits_value(s@.subrange(a as int, i as int)) > 0x1_0000_0000_0000_0000,
        decreases b - i,
    {
        let c = s[i];
        let ghost pre = s@.subrange(a as int, i as int);
        let ghost next = s@.subrange(a as int, i + 1);
        assert(next.drop_last() =~= pre);
        assert(next.last() == c);
        if c < '0' || c > '9' {
            assert(!all_digits(s@.subrange(a as int, b as int))) by {
                assert(s@.subrange(a as int, b as int)[i - a] == c);
            }
            return None;
        }
        assert(all_digits(next)) by {
            assert forall|k: int| 0 <= k < next.len() implies '0' <= #[trigger] next[k] <= '9' by {
                if k < pre.len() {
                    assert(next[k] == pre[k]);
                }
            }
        }
        proof {
            lemma_digits_value_nonneg(pre);
        }
        let d: u128 = (c as u32 - 48) as u128;
        if !big {
            let nv: u128 = acc * 10 + d;
            if nv > 0x1_0000_0000_0000_0000 {
                big = true;
            } else {
                acc = nv;
            }
        }
        i = i + 1;
    }
    if big {
        None
    } else {
        Some(acc)
    }
}

/// `str::parse::<i64>` on the characters of `s` from `a` to `b`.
pub fn parse_i64_chars(s: &Vec<char>, a: usize, b: usize) -> (res: Option<i64>)
    requires
        a <= b <= s.len(),
    ensures
        res == parse_i64(s@.subrange(a as int, b as int)),
{
    let ghost t = s@.subrange(a as int, b as int);
    if a == b {
        return None;
    }
    let sign = s[a];
    if (sign == '+' || sign == '-') && b - a >= 2 {
        assert(t.skip(1) =~= s@.subrange(a + 1, b as int));
        assert(t[0] == sign);
        match digits_run(s, a + 1, b) {
            Some(v) => {
                if sign == '+' {
                    if v <= 9223372036854775807 {
                        Some(v as i64)
                    } else {
                        None
                    }
                } else {
                    if v <= 9223372036854775808 {
                        if v == 9223372036854775808 {
                            Some(i64::MIN)
                        } else {
                            Some(-(v as i64))
                        }
                    } else {
                        None
                    }
                }
            },
            None => {
                assert(!all_digits(t)) by {
                    if all_digits(t) {
                        assert(t[0] == sign);
                    }
                }
                None
            },
        }
    } else {
        if sign == '+' || sign == '-' {
            assert(!all_digits(t)) by {
                assert(t[0] == sign);
            }
            return None;
        }
        match digits_run(s, a, b) {
            Some(v) => {
                if v <= 9223372036854775807 {
                    Some(v as i64)
                } else {
                    None
                }
            },
            None => None,
        }
    }
}

/// `str::parse::<i32>` on the characters of `s` from `a` to `b`.
pub fn parse_i32_chars(s: &Vec<char>, a: usize, b: usize) -> (res: Option<i32>)
    requires
        a <= b <= s.len(),
    ensures
        res == parse_i32(s@.subrange(a as int, b as int)),
{
    match parse_i64_chars(s, a, b) {
        Some(v) => {
            if -2147483648 <= v && v <= 2147483647 {
                Some(v as i32)
            } else {
                None
            }
        },
        None => None,
    }
}

/// `p` is a prefix of `s`.
pub open spec fn has_prefix(s: Seq<char>, p: Seq<char>) -> bool {
    p.len() <= s.len() && s.take(p.len() as int) == p
}

/// Whether `s` starts with the characters of `p`.
pub fn starts_with_str(s: &Vec<char>, p: &str) -> (r: bool)
    ensures
        r == has_prefix(s@, p@),
{
    let pc = chars_of(p);
    let r = matches_at(s, 0, &pc);
    assert(s@.subrange(0, pc@.len() as int) =~= s@.take(pc@.len() as int));
    r
}

/// `s` without its leading `c` characters (`str::trim_start_matches` with
/// a character).
pub open spec fn trim_start_char(s: Seq<char>, c: char) -> Seq<char>
    decreases s.len(),
{
    if s.len() > 0 && s[0] == c {
        trim_start_char(s.drop_first(), c)
    } else {
        s
    }
}

/// The index of the last `c` in `s`.
pub open spec fn last_index_of(s: Seq<char>, c: char) -> Option<int>
    decreases s.len(),
{
    if s.len() == 0 {
        None
    } else if s.last() == c {
        Some(s.len() - 1)
    } else {
        last_index_of(s.drop_last(), c)
    }
}

/// The index of the last `c` in `s`.
pub fn rfind_char(s: &Vec<char>, c: char) -> (res: Option<usize>)
    ensures
        match res {
            Some(i) => last_index_of(s@, c) == Some(i as int) && i < s.len(),
            None => last_index_of(s@, c) is None,
        },
{
    let mut k: usize = s.len();
    assert(s@.subrange(0, k as int) =~= s@);
    while k > 0
        invariant
            k <= s.len(),
            last_index_of(s@, c) == last_index_of(s@.subrange(0, k as int), c),
        decreases k,
    {
        if s[k - 1] == c {
            return Some(k - 1);
        }
        assert(s@.subrange(0, k as int).drop_last() =~= s@.subrange(0, k - 1));
        k = k - 1;
    }
    None
}

proof fn lemma_nat_decimal(m: nat)
    ensures
        all_digits(nat_decimal(m)),
        digits_value(nat_decimal(m)) == m,
        nat_decimal(m).len() >= 1,
    decreases m,
{
    if m < 10 {
        let s = nat_decimal(m);
        assert(s.drop_last() =~= Seq::<char>::empty());
        assert(s.last() as int == 48 + m);
        assert(digits_value(Seq::<char>::empty()) == 0);
    } else {
        lemma_nat_decimal(m / 10);
        let s = nat_decimal(m);
        let d = (m % 10) as int;
        assert(s.drop_last() =~= nat_decimal(m / 10));
        assert(s.last() as int == 48 + d);
        assert(10 * (m / 10) + d == m);
        assert forall|i: int| 0 <= i < s.len() implies '0' <= #[trigger] s[i] <= '9' by {
            if i < s.len() - 1 {
                assert(s[i] == nat_decimal(m / 10)[i]);
            }
        }
    }
}

/// Reading back a rendered integer gives the integer: `str::parse` undoes
/// `to_string` on `i64`.
pub proof fn lemma_parse_i64_decimal(n: i64)
    ensures
        parse_i64(int_decimal(n as int)) == Some(n),
        parse_int(int_decimal(n as int)) == Some(n as int),
{
    if n < 0 {
        let m = (-n) as nat;
        lemma_nat_decimal(m);
        let s = int_decimal(n as int);
        assert(s.skip(1) =~= nat_decimal(m));
        assert(s[0] == '-');
    } else {
        lemma_nat_decimal(n as nat);
        let s = nat_decimal(n as nat);
        assert('0' <= s[0] <= '9');
    }
}

} // verus!
