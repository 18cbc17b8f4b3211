//! Character-level helpers shared by the whole launcher: conversions between
//! strings and character vectors, decimal and hexadecimal rendering, trimming,
//! prefix and suffix tests and substring replacement.

use vstd::prelude::*;

verus! {

// ---------------------------------------------------------------------------
// Conversions between `str`/`String` and `Vec<char>`
// ---------------------------------------------------------------------------

/// The characters of `s`, in order (walking `str::chars`).
pub(crate) fn chars_of(s: &str) -> (r: Vec<char>)
    ensures
        r@ == s@,
{
    broadcast use vstd::string::axiom_spec_iter;

    let mut out: Vec<char> = Vec::new();
    for c in it: s.chars()
        invariant
            it.seq() == s@,
            out@ == it.seq().take(it.index() as int),
    {
        out.push(c);
    }
    out
}

/// Builds a `String` from characters (std `FromIterator<char> for String`);
/// the string holds exactly these characters, in order.
#[verifier::external_body]
pub(crate) fn string_of(v: &Vec<char>) -> (r: String)
    ensures
        r@ == v@,
{
    v.iter().collect()
}

/// Unicode lower-casing of a character sequence as std `str::to_lowercase`
/// computes it.
pub uninterp spec fn unicode_lowercase(s: Seq<char>) -> Seq<char>;

/// Every character is ASCII.
pub open spec fn is_ascii_text(s: Seq<char>) -> bool {
    forall|i: int| 0 <= i < s.len() ==> (#[trigger] s[i] as u32) < 128
}

/// `s` with the ASCII upper-case letters lower-cased.
pub open spec fn ascii_lowercase(s: Seq<char>) -> Seq<char> {
    s.map_values(|c: char| ascii_lower(c))
}

/// std `str::to_lowercase`: the result is the Unicode lower-case form of
/// `s`, a function of the characters of `s` alone. Of ASCII text the
/// contract also says that each letter `A`-`Z` becomes `a`-`z` and every
/// other character stays (the Unicode lower case of ASCII); of other text it
/// claims nothing more.
#[verifier::external_body]
pub(crate) fn to_lowercase(s: &str) -> (r: String)
    ensures
        r@ == unicode_lowercase(s@),
        is_ascii_text(s@) ==> r@ == ascii_lowercase(s@),
{
    s.to_lowercase()
}

/// A `String` holding the characters of `s`.
pub fn owned(s: &str) -> (r: String)
    ensures
        r@ == s@,
{
    let mut out = String::new();
    out.append(s);
    out
}

/// A `String` holding `a` followed by `b`.
pub fn concat2(a: &str, b: &str) -> (r: String)
    ensures
        r@ == a@ + b@,
{
    let mut out = String::new();
    out.append(a);
    out.append(b);
    out
}

/// A `String` holding `a`, `b`, `c` in order.
pub fn concat3(a: &str, b: &str, c: &str) -> (r: String)
    ensures
        r@ == a@ + b@ + c@,
{
    let mut out = String::new();
    out.append(a);
    out.append(b);
    out.append(c);
    out
}

// ---------------------------------------------------------------------------
// Decimal and hexadecimal rendering
// ---------------------------------------------------------------------------

/// The ASCII digit for `d < 10`.
pub open spec fn digit_char(d: nat) -> char {
    ((d + 48) as u32) as char
}

/// Decimal representation of a natural number, without leading zeros.
pub open spec fn decimal(n: nat) -> Seq<char>
    decreases n,
{
    if n < 10 {
        seq![digit_char(n)]
    } else {
        decimal(n / 10).push(digit_char(n % 10))
    }
}

/// Decimal representation of an integer, with a leading `-` when negative.
pub open spec fn signed_decimal(n: int) -> Seq<char> {
    if n < 0 {
        seq!['-'] + decimal((-n) as nat)
    } else {
        decimal(n as nat)
    }
}

fn digit(d: u64) -> (c: char)
    requires
        d < 10,
    ensures
        c == digit_char(d as nat),
{
    let b: u8 = 48u8 + (d as u8);
    b as char
}

proof fn lemma_decimal_nonempty(n: nat)
    ensures
        decimal(n).len() >= 1,
    decreases n,
{
    if n >= 10 {
        lemma_decimal_nonempty(n / 10);
    }
}

/// Appends the decimal representation of `n` to `out`.
pub fn push_decimal(out: &mut String, n: u64)
    ensures
        final(out)@ == old(out)@ + decimal(n as nat),
    decreases n,
{
    if n >= 10 {
        push_decimal(out, n / 10);
        let c = digit(n % 10);
        push_char(out, c);
        assert(decimal(n as nat) == decimal((n / 10) as nat).push(digit_char((n % 10) as nat)));
        assert(final(out)@ =~= old(out)@ + decimal(n as nat)) by {
            assert(old(out)@ + decimal((n / 10) as nat) + seq![digit_char((n % 10) as nat)]
                =~= old(out)@ + decimal((n / 10) as nat).push(digit_char((n % 10) as nat)));
        }
    } else {
        let c = digit(n);
        push_char(out, c);
        assert(decimal(n as nat) =~= seq![digit_char(n as nat)]);
        assert(old(out)@.push(c) =~= old(out)@ + decimal(n as nat));
    }
}

/// The decimal representation of `n` (what `n.to_string()` gives).
pub fn decimal_string(n: u64) -> (r: String)
    ensures
        r@ == decimal(n as nat),
{
    let mut out = String::new();
    push_decimal(&mut out, n);
    assert(out@ =~= decimal(n as nat));
    out
}

/// The decimal representation of a signed `n` (what `n.to_string()` gives).
pub fn signed_decimal_string(n: i64) -> (r: String)
    ensures
        r@ == signed_decimal(n as int),
{
    let mut out = String::new();
    if n < 0 {
        push_char(&mut out, '-');
        let m: u64 = if n == i64::MIN {
            9223372036854775808u64
        } else {
            (-n) as u64
        };
        push_decimal(&mut out, m);
        assert(out@ =~= signed_decimal(n as int));
    } else {
        push_decimal(&mut out, n as u64);
        assert(out@ =~= signed_decimal(n as int));
    }
    out
}

/// Appends one character to a `String` (std `String::push`).
#[verifier::external_body]
pub(crate) fn push_char(s: &mut String, c: char)
    ensures
        final(s)@ == old(s)@.push(c),
{
    s.push(c);
}

/// The lower-case hexadecimal digit for `d < 16`.
pub open spec fn hex_char(d: nat) -> char {
    if d < 10 {
        ((d + 48) as u32) as char
    } else {
        ((d + 87) as u32) as char
    }
}

/// `0`-`9` or `a`-`f`.
pub open spec fn is_hex_lower_digit(c: char) -> bool {
    ('0' <= c && c <= '9') || ('a' <= c && c <= 'f')
}

/// Two lower-case hexadecimal digits per byte, most significant first
/// (what `format!("{:02x}", b)` gives, byte after byte).
pub open spec fn hex_lower(bytes: Seq<u8>) -> Seq<char>
    decreases bytes.len(),
{
    if bytes.len() == 0 {
        seq![]
    } else {
        seq![hex_char((bytes[0] / 16) as nat), hex_char((bytes[0] % 16) as nat)] + hex_lower(
            bytes.drop_first(),
        )
    }
}

proof fn lemma_hex_lower_len(bytes: Seq<u8>)
    ensures
        hex_lower(bytes).len() == 2 * bytes.len(),
    decreases bytes.len(),
{
    if bytes.len() > 0 {
        lemma_hex_lower_len(bytes.drop_first());
    }
}

/// The two digits of byte `i` stand at positions `2i` and `2i + 1`.
pub proof fn lemma_hex_lower_index(bytes: Seq<u8>, i: int)
    requires
        0 <= i < bytes.len(),
    ensures
        hex_lower(bytes).len() == 2 * bytes.len(),
        hex_lower(bytes)[2 * i] == hex_char((bytes[i] / 16) as nat),
        hex_lower(bytes)[2 * i + 1] == hex_char((bytes[i] % 16) as nat),
    decreases i,
{
    lemma_hex_lower_len(bytes);
    lemma_hex_lower_len(bytes.drop_first());
    if i > 0 {
        lemma_hex_lower_index(bytes.drop_first(), i - 1);
    }
}

/// Every character of the hexadecimal form is a lower-case hex digit.
pub proof fn lemma_hex_lower_digits(bytes: Seq<u8>)
    ensures
        hex_lower(bytes).len() == 2 * bytes.len(),
        forall|i: int| 0 <= i < hex_lower(bytes).len() ==> is_hex_lower_digit(#[trigger] hex_lower(bytes)[i]),
{
    lemma_hex_lower_len(bytes);
    assert forall|i: int| 0 <= i < hex_lower(bytes).len() implies is_hex_lower_digit(
        #[trigger] hex_lower(bytes)[i],
    ) by {
        let k = i / 2;
        lemma_hex_lower_index(bytes, k);
        assert(bytes[k] / 16 < 16 && bytes[k] % 16 < 16);
        if i % 2 == 0 {
            assert(i == 2 * k);
        } else {
            assert(i == 2 * k + 1);
        }
    }
}

proof fn lemma_hex_lower_snoc(bytes: Seq<u8>, b: u8)
    ensures
        hex_lower(bytes.push(b)) == hex_lower(bytes) + seq![
            hex_char((b / 16) as nat),
            hex_char((b % 16) as nat),
        ],
    decreases bytes.len(),
{
    if bytes.len() == 0 {
        assert(bytes.push(b).drop_first() =~= Seq::<u8>::empty());
        assert(hex_lower(Seq::<u8>::empty()) =~= Seq::<char>::empty());
        assert(hex_lower(bytes) =~= Seq::<char>::empty());
        assert(hex_lower(bytes.push(b)) =~= seq![hex_char((b / 16) as nat), hex_char((b % 16) as nat)]);
    } else {
        assert(bytes.push(b).drop_first() =~= bytes.drop_first().push(b));
        lemma_hex_lower_snoc(bytes.drop_first(), b);
        assert(hex_lower(bytes.push(b)) =~= hex_lower(bytes) + seq![
            hex_char((b / 16) as nat),
            hex_char((b % 16) as nat),
        ]);
    }
}

fn hex_digit(d: u8) -> (c: char)
    requires
        d < 16,
    ensures
        c == hex_char(d as nat),
{
    if d < 10 {
        (48u8 + d) as char
    } else {
        (87u8 + d) as char
    }
}

/// Lower-case hexadecimal rendering of `bytes`.
pub fn hex_string(bytes: &[u8]) -> (r: String)
    ensures
        r@ == hex_lower(bytes@),
        r@.len() == 2 * bytes@.len(),
{
    let mut out = String::new();
    let mut i: usize = 0;
    while i < bytes.len()
        invariant
            i <= bytes@.len(),
            out@ == hex_lower(bytes@.subrange(0, i as int)),
        decreases bytes@.len() - i,
    {
        let b = bytes[i];
        let hi = hex_digit(b / 16);
        let lo = hex_digit(b % 16);
        proof {
            lemma_hex_lower_snoc(bytes@.subrange(0, i as int), b);
            assert(bytes@.subrange(0, i as int).push(b) =~= bytes@.subrange(0, i + 1));
        }
        push_char(&mut out, hi);
        push_char(&mut out, lo);
        i = i + 1;
    }
    proof {
        assert(bytes@.subrange(0, bytes@.len() as int) =~= bytes@);
        lemma_hex_lower_len(bytes@);
    }
    out
}

// ---------------------------------------------------------------------------
// Character classes
// ---------------------------------------------------------------------------

pub open spec fn is_ascii_digit(c: char) -> bool {
    '0' <= c && c <= '9'
}

pub open spec fn is_ascii_alpha(c: char) -> bool {
    ('a' <= c && c <= 'z') || ('A' <= c && c <= 'Z')
}

pub open spec fn is_ascii_alphanumeric(c: char) -> bool {
    is_ascii_digit(c) || is_ascii_alpha(c)
}

pub open spec fn is_ascii_hexdigit(c: char) -> bool {
    is_ascii_digit(c) || ('a' <= c && c <= 'f') || ('A' <= c && c <= 'F')
}

/// Unicode `White_Space`, the class that std `char::is_whitespace` tests.
pub open spec fn is_whitespace(c: char) -> bool {
    ||| ('\u{9}' <= c && c <= '\u{d}')
    ||| c == ' '
    ||| c == '\u{85}'
    ||| c == '\u{a0}'
    ||| c == '\u{1680}'
    ||| ('\u{2000}' <= c && c <= '\u{200a}')
    ||| c == '\u{2028}'
    ||| c == '\u{2029}'
    ||| c == '\u{202f}'
    ||| c == '\u{205f}'
    ||| c == '\u{3000}'
}

pub fn ascii_digit(c: char) -> (b: bool)
    ensures
        b == is_ascii_digit(c),
{
    '0' <= c && c <= '9'
}

pub fn ascii_alphanumeric(c: char) -> (b: bool)
    ensures
        b == is_ascii_alphanumeric(c),
{
    ('0' <= c && c <= '9') || ('a' <= c && c <= 'z') || ('A' <= c && c <= 'Z')
}

pub fn ascii_hexdigit(c: char) -> (b: bool)
    ensures
        b == is_ascii_hexdigit(c),
{
    ('0' <= c && c <= '9') || ('a' <= c && c <= 'f') || ('A' <= c && c <= 'F')
}

pub fn whitespace(c: char) -> (b: bool)
    ensures
        b == is_whitespace(c),
{
    ('\u{9}' <= c && c <= '\u{d}') || c == ' ' || c == '\u{85}' || c == '\u{a0}' || c
        == '\u{1680}' || ('\u{2000}' <= c && c <= '\u{200a}') || c == '\u{2028}' || c
        == '\u{2029}' || c == '\u{202f}' || c == '\u{205f}' || c == '\u{3000}'
}

/// ASCII lower-casing of one character (std `char::to_ascii_lowercase`).
pub open spec fn ascii_lower(c: char) -> char {
    if 'A' <= c && c <= 'Z' {
        ((c as u32) + 32) as char
    } else {
        c
    }
}

pub fn to_ascii_lower(c: char) -> (r: char)
    ensures
        r == ascii_lower(c),
{
    if 'A' <= c && c <= 'Z' {
        let u: u32 = (c as u32) + 32;
        let b: u8 = u as u8;
        b as char
    } else {
        c
    }
}

/// Equality up to ASCII case (std `str::eq_ignore_ascii_case`).
pub open spec fn eq_ignore_ascii_case(a: Seq<char>, b: Seq<char>) -> bool {
    a.len() == b.len() && forall|i: int| 0 <= i < a.len() ==> ascii_lower(a[i]) == ascii_lower(
        #[trigger] b[i],
    )
}

pub fn str_eq_ignore_ascii_case(a: &str, b: &str) -> (r: bool)
    ensures
        r == eq_ignore_ascii_case(a@, b@),
{
    let x = chars_of(a);
    let y = chars_of(b);
    if x.len() != y.len() {
        return false;
    }
    let mut i: usize = 0;
    while i < x.len()
        invariant
            x@ == a@,
            y@ == b@,
            x@.len() == y@.len(),
            i <= x@.len(),
            forall|j: int| 0 <= j < i ==> ascii_lower(x@[j]) == ascii_lower(#[trigger] y@[j]),
        decreases x@.len() - i,
    {
        if to_ascii_lower(x[i]) != to_ascii_lower(y[i]) {
            return false;
        }
        i = i + 1;
    }
    true
}

// ---------------------------------------------------------------------------
// Trimming
// ---------------------------------------------------------------------------

/// Number of leading whitespace characters.
pub open spec fn lead_ws(s: Seq<char>) -> nat
    decreases s.len(),
{
    if s.len() > 0 && is_whitespace(s[0]) {
        1 + lead_ws(s.drop_first())
    } else {
        0
    }
}

/// Number of trailing whitespace characters.
pub open spec fn trail_ws(s: Seq<char>) -> nat
    decreases s.len(),
{
    if s.len() > 0 && is_whitespace(s.last()) {
        1 + trail_ws(s.drop_last())
    } else {
        0
    }
}

/// `s` without trailing whitespace (std `str::trim_end`).
pub open spec fn trim_end(s: Seq<char>) -> Seq<char> {
    s.subrange(0, s.len() - trail_ws(s))
}

/// `s` without leading or trailing whitespace (std `str::trim`).
pub open spec fn trim(s: Seq<char>) -> Seq<char> {
    let t = trim_end(s);
    t.subrange(lead_ws(t) as int, t.len() as int)
}

/// The trimmed text is a stretch of the text: its character `i` is the
/// text's character `i + lead_ws(trim_end(s))`.
pub proof fn lemma_trim_within(s: Seq<char>)
    ensures
        lead_ws(trim_end(s)) + trim(s).len() <= s.len(),
        forall|i: int|
            0 <= i < trim(s).len() ==> #[trigger] trim(s)[i] == s[i + lead_ws(trim_end(s))],
{
    lemma_trail_ws_bound(s);
    lemma_lead_ws_bound(trim_end(s));
}

proof fn lemma_lead_ws_bound(s: Seq<char>)
    ensures
        lead_ws(s) <= s.len(),
        forall|i: int| 0 <= i < lead_ws(s) ==> is_whitespace(#[trigger] s[i]),
        lead_ws(s) < s.len() ==> !is_whitespace(s[lead_ws(s) as int]),
    decreases s.len(),
{
    if s.len() > 0 && is_whitespace(s[0]) {
        lemma_lead_ws_bound(s.drop_first());
        assert forall|i: int| 0 <= i < lead_ws(s) implies is_whitespace(#[trigger] s[i]) by {
            if i > 0 {
                assert(s[i] == s.drop_first()[i - 1]);
            }
        }
        if lead_ws(s) < s.len() {
            assert(s[lead_ws(s) as int] == s.drop_first()[lead_ws(s.drop_first()) as int]);
        }
    }
}

proof fn lemma_trail_ws_bound(s: Seq<char>)
    ensures
        trail_ws(s) <= s.len(),
        forall|i: int| s.len() - trail_ws(s) <= i < s.len() ==> is_whitespace(#[trigger] s[i]),
        trail_ws(s) < s.len() ==> !is_whitespace(s[s.len() - trail_ws(s) - 1]),
    decreases s.len(),
{
    if s.len() > 0 && is_whitespace(s.last()) {
        lemma_trail_ws_bound(s.drop_last());
        assert forall|i: int| s.len() - trail_ws(s) <= i < s.len() implies is_whitespace(
            #[trigger] s[i],
        ) by {
            if i < s.len() - 1 {
                assert(s[i] == s.drop_last()[i]);
            }
        }
        if trail_ws(s) < s.len() {
            assert(s[s.len() - trail_ws(s) - 1] == s.drop_last()[s.drop_last().len() - trail_ws(
                s.drop_last(),
            ) - 1]);
        }
    }
}

/// Count of leading whitespace in `v[from..to]`.
fn count_lead_ws(v: &Vec<char>, from: usize, to: usize) -> (n: usize)
    requires
        from <= to <= v@.len(),
    ensures
        n == lead_ws(v@.subrange(from as int, to as int)),
        from + n <= to,
    decreases to - from,
{
    if from < to && whitespace(v[from]) {
        let n = count_lead_ws(v, from + 1, to);
        assert(v@.subrange(from as int, to as int).drop_first() =~= v@.subrange(from + 1, to as int));
        n + 1
    } else {
        0
    }
}

/// Count of trailing whitespace in `v[from..to]`.
fn count_trail_ws(v: &Vec<char>, from: usize, to: usize) -> (n: usize)
    requires
        from <= to <= v@.len(),
    ensures
        n == trail_ws(v@.subrange(from as int, to as int)),
        from + n <= to,
    decreases to - from,
{
    if from < to && whitespace(v[to - 1]) {
        let n = count_trail_ws(v, from, to - 1);
        assert(v@.subrange(from as int, to as int).drop_last() =~= v@.subrange(from as int, to - 1));
        n + 1
    } else {
        0
    }
}

/// Bounds `(start, end)` of the trimmed part of `v`.
pub fn trim_bounds(v: &Vec<char>) -> (r: (usize, usize))
    ensures
        r.0 <= r.1 <= v@.len(),
        v@.subrange(r.0 as int, r.1 as int) == trim(v@),
{
    let len = v.len();
    let t = count_trail_ws(v, 0, len);
    let end = len - t;
    let l = count_lead_ws(v, 0, end);
    proof {
        assert(v@.subrange(0, len as int) =~= v@);
        assert(trim_end(v@) =~= v@.subrange(0, end as int));
        assert(v@.subrange(0, end as int).subrange(l as int, end as int) =~= v@.subrange(
            l as int,
            end as int,
        ));
    }
    (l, end)
}

/// The characters of `v[from..to]` as a `String`.
pub fn slice_string(v: &Vec<char>, from: usize, to: usize) -> (r: String)
    requires
        from <= to <= v@.len(),
    ensures
        r@ == v@.subrange(from as int, to as int),
{
    let mut out = String::new();
    let mut i = from;
    while i < to
        invariant
            from <= i <= to <= v@.len(),
            out@ == v@.subrange(from as int, i as int),
        decreases to - i,
    {
        push_char(&mut out, v[i]);
        assert(v@.subrange(from as int, i + 1) =~= v@.subrange(from as int, i as int).push(v@[i as int]));
        i = i + 1;
    }
    out
}

/// `s` without leading and trailing whitespace (std `str::trim`).
pub fn trimmed(s: &str) -> (r: String)
    ensures
        r@ == trim(s@),
{
    let v = chars_of(s);
    let (a, b) = trim_bounds(&v);
    slice_string(&v, a, b)
}

// ---------------------------------------------------------------------------
// Prefixes, suffixes, searching
// ---------------------------------------------------------------------------

pub open spec fn has_prefix(s: Seq<char>, p: Seq<char>) -> bool {
    p.len() <= s.len() && s.subrange(0, p.len() as int) == p
}

pub open spec fn has_suffix(s: Seq<char>, p: Seq<char>) -> bool {
    p.len() <= s.len() && s.subrange(s.len() - p.len(), s.len() as int) == p
}

/// `p` occurs in `s` at position `i`.
pub open spec fn occurs_at(s: Seq<char>, p: Seq<char>, i: int) -> bool {
    0 <= i && i + p.len() <= s.len() && s.subrange(i, i + p.len()) == p
}

/// `p` occurs somewhere in `s` (std `str::contains`).
pub open spec fn contains_seq(s: Seq<char>, p: Seq<char>) -> bool {
    exists|i: int| occurs_at(s, p, i)
}

/// Whether `p` occurs in `v` at index `at`.
pub fn matches_at(v: &Vec<char>, p: &Vec<char>, at: usize) -> (b: bool)
    ensures
        b == occurs_at(v@, p@, at as int),
{
    if at > v.len() || p.len() > v.len() - at {
        return false;
    }
    let mut j: usize = 0;
    while j < p.len()
        invariant
            at + p@.len() <= v@.len(),
            v@.len() <= usize::MAX,
            j <= p@.len(),
            forall|k: int| 0 <= k < j ==> v@[at + k] == p@[k],
        decreases p@.len() - j,
    {
        if v[at + j] != p[j] {
            assert(v@.subrange(at as int, at + p@.len())[j as int] != p@[j as int]);
            return false;
        }
        j = j + 1;
    }
    assert(v@.subrange(at as int, at + p@.len()) =~= p@);
    true
}

/// Character-wise equality of two strings.
pub fn str_eq(a: &str, b: &str) -> (r: bool)
    ensures
        r == (a@ == b@),
{
    let x = chars_of(a);
    let y = chars_of(b);
    if x.len() != y.len() {
        return false;
    }
    let r = matches_at(&x, &y, 0);
    proof {
        if r {
            assert(x@.subrange(0, y@.len() as int) =~= x@);
        } else {
            if a@ == b@ {
                assert(x@.subrange(0, y@.len() as int) =~= y@);
            }
        }
    }
    r
}

pub fn starts_with(s: &str, p: &str) -> (b: bool)
    ensures
        b == has_prefix(s@, p@),
{
    let v = chars_of(s);
    let q = chars_of(p);
    matches_at(&v, &q, 0)
}

pub fn ends_with(s: &str, p: &str) -> (b: bool)
    ensures
        b == has_suffix(s@, p@),
{
    let v = chars_of(s);
    let q = chars_of(p);
    if q.len() > v.len() {
        return false;
    }
    matches_at(&v, &q, v.len() - q.len())
}

pub fn contains(s: &str, p: &str) -> (b: bool)
    ensures
        b == contains_seq(s@, p@),
{
    let v = chars_of(s);
    let q = chars_of(p);
    if q.len() > v.len() {
        return false;
    }
    if q.len() == 0 {
        assert(occurs_at(v@, q@, 0)) by {
            assert(v@.subrange(0, 0) =~= q@);
        }
        return true;
    }
    let mut i: usize = 0;
    while i <= v.len() - q.len()
        invariant
            v@ == s@,
            q@ == p@,
            0 < q@.len() <= v@.len(),
            i <= v@.len() - q@.len() + 1,
            forall|k: int| 0 <= k < i ==> !occurs_at(v@, q@, k),
        decreases v@.len() - q@.len() + 1 - i,
    {
        if matches_at(&v, &q, i) {
            return true;
        }
        i = i + 1;
    }
    assert forall|k: int| !occurs_at(v@, q@, k) by {
        if 0 <= k < i {
        } else {
        }
    }
    false
}

// ---------------------------------------------------------------------------
// Splitting
// ---------------------------------------------------------------------------

/// The pieces of `s` between occurrences of `sep` (std `str::split` with a
/// character); there is always at least one piece.
pub open spec fn split_char(s: Seq<char>, sep: char) -> Seq<Seq<char>>
    decreases s.len(),
{
    if s.len() == 0 {
        seq![Seq::<char>::empty()]
    } else {
        let r = split_char(s.drop_last(), sep);
        if s.last() == sep {
            r.push(Seq::<char>::empty())
        } else {
            r.update(r.len() - 1, r.last().push(s.last()))
        }
    }
}

proof fn lemma_split_nonempty(s: Seq<char>, sep: char)
    ensures
        split_char(s, sep).len() >= 1,
    decreases s.len(),
{
    if s.len() > 0 {
        lemma_split_nonempty(s.drop_last(), sep);
    }
}

/// Splits `v` at every `sep`.
pub fn split_chars(v: &Vec<char>, sep: char) -> (r: Vec<Vec<char>>)
    ensures
        r@.len() >= 1,
        r@.map_values(|p: Vec<char>| p@) == split_char(v@, sep),
{
    let mut parts: Vec<Vec<char>> = Vec::new();
    parts.push(Vec::new());
    let mut i: usize = 0;
    assert(parts@.map_values(|p: Vec<char>| p@) =~= split_char(v@.subrange(0, 0), sep));
    while i < v.len()
        invariant
            i <= v@.len(),
            parts@.len() >= 1,
            parts@.map_values(|p: Vec<char>| p@) == split_char(v@.subrange(0, i as int), sep),
        decreases v@.len() - i,
    {
        let c = v[i];
        let ghost pre = v@.subrange(0, i as int);
        let ghost post = v@.subrange(0, i + 1);
        assert(post.drop_last() =~= pre);
        assert(post.last() == c);
        proof {
            lemma_split_nonempty(pre, sep);
        }
        if c == sep {
            parts.push(Vec::new());
            assert(parts@.map_values(|p: Vec<char>| p@) =~= split_char(post, sep));
        } else {
            let last = parts.len() - 1;
            let mut piece = parts.remove(last);
            piece.push(c);
            parts.push(piece);
            assert(parts@.map_values(|p: Vec<char>| p@) =~= split_char(post, sep));
        }
        i = i + 1;
    }
    assert(v@.subrange(0, v@.len() as int) =~= v@);
    parts
}

/// `s` with every `from` replaced by `to` (std `str::replace` with chars).
pub open spec fn map_char(s: Seq<char>, from: char, to: char) -> Seq<char> {
    s.map_values(|c: char| if c == from { to } else { c })
}

pub fn replace_char(v: &Vec<char>, from: char, to: char) -> (r: Vec<char>)
    ensures
        r@ == map_char(v@, from, to),
{
    let mut out: Vec<char> = Vec::new();
    let mut i: usize = 0;
    while i < v.len()
        invariant
            i <= v@.len(),
            out@ == map_char(v@.subrange(0, i as int), from, to),
        decreases v@.len() - i,
    {
        let c = v[i];
        out.push(if c == from { to } else { c });
        assert(map_char(v@.subrange(0, i + 1), from, to) =~= map_char(v@.subrange(0, i as int), from, to).push(if c == from { to } else { c }));
        i = i + 1;
    }
    assert(v@.subrange(0, v@.len() as int) =~= v@);
    out
}

/// Appends the characters of `v` to `out`.
pub fn push_chars(out: &mut String, v: &Vec<char>)
    ensures
        final(out)@ == old(out)@ + v@,
{
    let s = string_of(v);
    out.append(s.as_str());
}

// ---------------------------------------------------------------------------
// Replacement
// ---------------------------------------------------------------------------

/// Non-overlapping left-to-right replacement of every occurrence of a
/// non-empty `pat` by `with` (std `str::replace`).
pub open spec fn replace_all(s: Seq<char>, pat: Seq<char>, with: Seq<char>) -> Seq<char>
    recommends
        pat.len() > 0,
    decreases s.len(),
{
    if s.len() == 0 || pat.len() == 0 {
        s
    } else if has_prefix(s, pat) {
        with + replace_all(s.subrange(pat.len() as int, s.len() as int), pat, with)
    } else {
        seq![s[0]] + replace_all(s.drop_first(), pat, with)
    }
}

/// `replace_all` of the suffix of `v` starting at `i`.
fn replace_from(v: &Vec<char>, i: usize, pat: &Vec<char>, with: &str, out: &mut String)
    requires
        i <= v@.len(),
        pat@.len() > 0,
    ensures
        final(out)@ == old(out)@ + replace_all(v@.subrange(i as int, v@.len() as int), pat@, with@),
    decreases v@.len() - i,
{
    let ghost rest = v@.subrange(i as int, v@.len() as int);
    if i == v.len() {
        assert(rest.len() == 0);
        assert(old(out)@ + replace_all(rest, pat@, with@) =~= old(out)@);
        return;
    }
    if matches_at(v, pat, i) {
        assert(has_prefix(rest, pat@)) by {
            assert(rest.subrange(0, pat@.len() as int) =~= v@.subrange(i as int, i + pat@.len()));
        }
        out.append(with);
        let ghost mid = out@;
        replace_from(v, i + pat.len(), pat, with, out);
        assert(rest.subrange(pat@.len() as int, rest.len() as int) =~= v@.subrange(
            i + pat@.len(),
            v@.len() as int,
        ));
        assert(final(out)@ =~= old(out)@ + replace_all(rest, pat@, with@));
    } else {
        assert(!has_prefix(rest, pat@)) by {
            if has_prefix(rest, pat@) {
                assert(rest.subrange(0, pat@.len() as int) =~= v@.subrange(i as int, i + pat@.len()));
            }
        }
        push_char(out, v[i]);
        replace_from(v, i + 1, pat, with, out);
        assert(rest.drop_first() =~= v@.subrange(i + 1, v@.len() as int));
        assert(final(out)@ =~= old(out)@ + replace_all(rest, pat@, with@));
    }
}

/// Replaces every occurrence of `pat` in `s` by `with` (std `str::replace`),
/// for a non-empty `pat`.
pub fn replace(s: &str, pat: &str, with: &str) -> (r: String)
    requires
        pat@.len() > 0,
    ensures
        r@ == replace_all(s@, pat@, with@),
{
    let v = chars_of(s);
    let p = chars_of(pat);
    let mut out = String::new();
    replace_from(&v, 0, &p, with, &mut out);
    assert(v@.subrange(0, v@.len() as int) =~= v@);
    assert(out@ =~= replace_all(s@, pat@, with@));
    out
}

// ---------------------------------------------------------------------------
// Repeated trimming of a pattern
// ---------------------------------------------------------------------------

/// `s` with every leading repetition of `p` removed (std
/// `str::trim_start_matches` with a string pattern).
pub open spec fn strip_prefix_all(s: Seq<char>, p: Seq<char>) -> Seq<char>
    decreases s.len(),
{
    if p.len() > 0 && has_prefix(s, p) {
        strip_prefix_all(s.subrange(p.len() as int, s.len() as int), p)
    } else {
        s
    }
}

/// `s` with every trailing repetition of `p` removed (std
/// `str::trim_end_matches` with a string pattern).
pub open spec fn strip_suffix_all(s: Seq<char>, p: Seq<char>) -> Seq<char>
    decreases s.len(),
{
    if p.len() > 0 && has_suffix(s, p) {
        strip_suffix_all(s.subrange(0, s.len() - p.len()), p)
    } else {
        s
    }
}

/// `s` with every leading and trailing `c` removed (std `str::trim_matches`
/// with a character).
pub open spec fn trim_char(s: Seq<char>, c: char) -> Seq<char> {
    strip_suffix_all(strip_prefix_all(s, seq![c]), seq![c])
}

/// Index in `v` where `strip_prefix_all(v[from..], p)` starts.
fn prefix_all_end(v: &Vec<char>, p: &Vec<char>, from: usize) -> (r: usize)
    requires
        from <= v@.len(),
    ensures
        from <= r <= v@.len(),
        strip_prefix_all(v@.subrange(from as int, v@.len() as int), p@) == v@.subrange(
            r as int,
            v@.len() as int,
        ),
    decreases v@.len() - from,
{
    let ghost s = v@.subrange(from as int, v@.len() as int);
    if p.len() > 0 && p.len() <= v.len() - from && matches_at(v, p, from) {
        assert(s.subrange(0, p@.len() as int) =~= v@.subrange(from as int, from + p@.len()));
        assert(s.subrange(p@.len() as int, s.len() as int) =~= v@.subrange(
            from + p@.len(),
            v@.len() as int,
        ));
        prefix_all_end(v, p, from + p.len())
    } else {
        proof {
            if p@.len() > 0 && has_prefix(s, p@) {
                assert(s.subrange(0, p@.len() as int) =~= v@.subrange(from as int, from + p@.len()));
            }
        }
        from
    }
}

/// Index in `v` where `strip_suffix_all(v[..to], p)` ends.
fn suffix_all_start(v: &Vec<char>, p: &Vec<char>, to: usize) -> (r: usize)
    requires
        to <= v@.len(),
    ensures
        r <= to,
        strip_suffix_all(v@.subrange(0, to as int), p@) == v@.subrange(0, r as int),
    decreases to,
{
    let ghost s = v@.subrange(0, to as int);
    if p.len() > 0 && p.len() <= to && matches_at(v, p, to - p.len()) {
        assert(s.subrange(s.len() - p@.len(), s.len() as int) =~= v@.subrange(
            to - p@.len(),
            to as int,
        ));
        assert(s.subrange(0, s.len() - p@.len()) =~= v@.subrange(0, to - p@.len()));
        suffix_all_start(v, p, to - p.len())
    } else {
        proof {
            if p@.len() > 0 && has_suffix(s, p@) {
                assert(s.subrange(s.len() - p@.len(), s.len() as int) =~= v@.subrange(
                    to - p@.len(),
                    to as int,
                ));
            }
        }
        to
    }
}

/// `s` without leading repetitions of `p`.
pub fn trim_start_matches(s: &str, p: &str) -> (r: String)
    ensures
        r@ == strip_prefix_all(s@, p@),
{
    let v = chars_of(s);
    let q = chars_of(p);
    let a = prefix_all_end(&v, &q, 0);
    assert(v@.subrange(0, v@.len() as int) =~= v@);
    slice_string(&v, a, v.len())
}

/// `s` without trailing repetitions of `p`.
pub fn trim_end_matches(s: &str, p: &str) -> (r: String)
    ensures
        r@ == strip_suffix_all(s@, p@),
{
    let v = chars_of(s);
    let q = chars_of(p);
    let b = suffix_all_start(&v, &q, v.len());
    assert(v@.subrange(0, v@.len() as int) =~= v@);
    slice_string(&v, 0, b)
}

/// `s` without leading or trailing `c`.
pub fn trim_matches_char(s: &str, c: char) -> (r: String)
    ensures
        r@ == trim_char(s@, c),
{
    let q: Vec<char> = vec![c];
    let p = string_of(&q);
    let a = trim_start_matches(s, p.as_str());
    assert(q@ =~= seq![c]);
    trim_end_matches(a.as_str(), p.as_str())
}

// ---------------------------------------------------------------------------
// Ordering of texts
// ---------------------------------------------------------------------------

/// `a` comes no later than `b` in the order of `String`'s `Ord` (code point
/// by code point, a prefix first).
pub open spec fn lex_le(a: Seq<char>, b: Seq<char>) -> bool
    decreases a.len(),
{
    if a.len() == 0 {
        true
    } else if b.len() == 0 {
        false
    } else if a[0] != b[0] {
        (a[0] as int) < (b[0] as int)
    } else {
        lex_le(a.drop_first(), b.drop_first())
    }
}

pub proof fn lemma_lex_total(a: Seq<char>, b: Seq<char>)
    ensures
        lex_le(a, b) || lex_le(b, a),
    decreases a.len(),
{
    if a.len() > 0 && b.len() > 0 && a[0] == b[0] {
        lemma_lex_total(a.drop_first(), b.drop_first());
    }
}

pub proof fn lemma_lex_trans(a: Seq<char>, b: Seq<char>, c: Seq<char>)
    requires
        lex_le(a, b),
        lex_le(b, c),
    ensures
        lex_le(a, c),
    decreases a.len(),
{
    if a.len() > 0 && b.len() > 0 && c.len() > 0 && a[0] == b[0] && b[0] == c[0] {
        lemma_lex_trans(a.drop_first(), b.drop_first(), c.drop_first());
    }
}

/// Whether `a` comes no later than `b`.
pub fn lex_le_chars(a: &Vec<char>, b: &Vec<char>) -> (r: bool)
    ensures
        r == lex_le(a@, b@),
{
    let mut i: usize = 0;
    assert(a@.subrange(0, a@.len() as int) =~= a@);
    assert(b@.subrange(0, b@.len() as int) =~= b@);
    loop
        invariant
            i <= a@.len(),
            i <= b@.len(),
            lex_le(a@, b@) == lex_le(
                a@.subrange(i as int, a@.len() as int),
                b@.subrange(i as int, b@.len() as int),
            ),
        decreases a@.len() - i,
    {
        let ghost x = a@.subrange(i as int, a@.len() as int);
        let ghost y = b@.subrange(i as int, b@.len() as int);
        if i == a.len() {
            return true;
        }
        if i == b.len() {
            return false;
        }
        assert(x[0] == a@[i as int] && y[0] == b@[i as int]);
        if a[i] != b[i] {
            return a[i] < b[i];
        }
        assert(x.drop_first() =~= a@.subrange(i + 1, a@.len() as int));
        assert(y.drop_first() =~= b@.subrange(i + 1, b@.len() as int));
        i = i + 1;
    }
}

/// Whether text `a` comes no later than text `b`.
pub fn str_lex_le(a: &str, b: &str) -> (r: bool)
    ensures
        r == lex_le(a@, b@),
{
    let x = chars_of(a);
    let y = chars_of(b);
    lex_le_chars(&x, &y)
}

} // verus!
