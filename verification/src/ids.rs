//! Identifiers and clock readings: random UUIDs, the current time, RFC 3339
//! timestamps, and the canonical text form of a UUID.

use vstd::prelude::*;
use crate::text;

verus! {

/// A random (version 4) UUID: version nibble 4 and the RFC 4122 variant
/// bits `10`.
pub open spec fn is_v4_uuid(id: u128) -> bool {
    (id >> 76u128) & 0xfu128 == 4 && (id >> 62u128) & 0x3u128 == 2
}

/// A fresh random (version 4) UUID as a 128-bit number
/// (`uuid::Uuid::new_v4`, which masks random bits and sets the version to 4
/// and the variant to `10`); of the random bits nothing is claimed.
#[verifier::external_body]
pub(crate) fn new_uuid_v4() -> (r: u128)
    ensures
        is_v4_uuid(r),
{
    uuid::Uuid::new_v4().as_u128()
}

/// The latest clock reading `now_millis` can return: a `chrono` date counts
/// its days from the Common Era in an `i32`, so its millisecond timestamp
/// stays below this.
pub open spec fn clock_bound() -> int {
    200_000_000_000_000_000
}

/// The current time as milliseconds since the Unix epoch
/// (`chrono::Utc::now`). Which instant comes back is not claimed; only its
/// range: `Utc::now` panics (`expect`) on a system time before the epoch and
/// (`unwrap`) on one `DateTime` cannot hold, so a reading that returns is
/// not negative and below `clock_bound()`.
#[verifier::external_body]
pub(crate) fn now_millis() -> (r: i64)
    ensures
        0 <= r < clock_bound(),
{
    chrono::Utc::now().timestamp_millis()
}

/// What `chrono::DateTime::parse_from_rfc3339` makes of a text, as
/// milliseconds since the Unix epoch (`None` when the text is not RFC 3339).
pub uninterp spec fn rfc3339_millis(s: Seq<char>) -> Option<i64>;

/// Parses an RFC 3339 timestamp with `chrono`; the result is a function of
/// the text alone.
#[verifier::external_body]
pub(crate) fn parse_rfc3339_millis(s: &str) -> (r: Option<i64>)
    ensures
        r == rfc3339_millis(s@),
{
    match chrono::DateTime::parse_from_rfc3339(s) {
        Ok(dt) => Some(dt.timestamp_millis()),
        Err(_) => None,
    }
}

/// What `chrono` writes for the UTC instant `millis` (milliseconds since
/// the Unix epoch) with the pattern `%d.%m.%Y`; `None` when a `DateTime`
/// cannot hold the instant.
pub uninterp spec fn date_dmy(millis: i64) -> Option<Seq<char>>;

/// Formats an instant as day.month.year with `chrono`
/// (`DateTime::from_timestamp_millis`, then `format("%d.%m.%Y")`, in UTC);
/// the text is a function of the instant alone.
#[verifier::external_body]
pub(crate) fn format_date_dmy(millis: i64) -> (r: Option<String>)
    ensures
        match r {
            Some(t) => date_dmy(millis) == Some(t@),
            None => date_dmy(millis) is None,
        },
{
    chrono::DateTime::from_timestamp_millis(millis).map(|d| d.format("%d.%m.%Y").to_string())
}

/// Byte `i` (0 = most significant) of the big-endian form of `id`.
pub open spec fn uuid_byte(id: u128, i: int) -> u8 {
    ((id >> ((120 - 8 * i) as u128)) & 0xff) as u8
}

/// The sixteen big-endian bytes of `id`.
pub open spec fn uuid_bytes(id: u128) -> Seq<u8> {
    Seq::new(16, |i: int| uuid_byte(id, i))
}

/// The hyphenated lower-case form `8-4-4-4-12` of a UUID (its `Display`).
pub open spec fn uuid_text(id: u128) -> Seq<char> {
    let h = text::hex_lower(uuid_bytes(id));
    h.subrange(0, 8) + seq!['-'] + h.subrange(8, 12) + seq!['-'] + h.subrange(12, 16) + seq!['-']
        + h.subrange(16, 20) + seq!['-'] + h.subrange(20, 32)
}

/// The text form of a UUID is 36 characters, each a lower-case hex digit
/// or a hyphen.
pub proof fn lemma_uuid_text_hex(id: u128)
    ensures
        uuid_text(id).len() == 36,
        forall|i: int|
            0 <= i < 36 ==> text::is_hex_lower_digit(#[trigger] uuid_text(id)[i]) || uuid_text(
                id,
            )[i] == '-',
{
    let h = text::hex_lower(uuid_bytes(id));
    text::lemma_hex_lower_digits(uuid_bytes(id));
    let t = uuid_text(id);
    assert forall|i: int| 0 <= i < 36 implies text::is_hex_lower_digit(#[trigger] t[i])
        || t[i] == '-' by {
        if i < 8 {
            assert(t[i] == h[i]);
        } else if i == 8 || i == 13 || i == 18 || i == 23 {
        } else if i < 13 {
            assert(t[i] == h[i - 1]);
        } else if i < 18 {
            assert(t[i] == h[i - 2]);
        } else if i < 23 {
            assert(t[i] == h[i - 3]);
        } else {
            assert(t[i] == h[i - 4]);
        }
    }
}

/// The hyphenated text form of a UUID.
pub fn uuid_to_string(id: u128) -> (r: String)
    ensures
        r@ == uuid_text(id),
{
    let mut bytes: Vec<u8> = Vec::new();
    let mut i: u128 = 0;
    while i < 16
        invariant
            i <= 16,
            bytes@.len() == i,
            forall|j: int| 0 <= j < i ==> bytes@[j] == uuid_byte(id, j),
        decreases 16 - i,
    {
        let b: u8 = ((id >> (120 - 8 * i)) & 0xff) as u8;
        bytes.push(b);
        i = i + 1;
    }
    assert(bytes@ =~= uuid_bytes(id));
    let h = text::hex_string(bytes.as_slice());
    let hv = text::chars_of(h.as_str());
    let mut out = text::slice_string(&hv, 0, 8);
    text::push_char(&mut out, '-');
    let p2 = text::slice_string(&hv, 8, 12);
    out.append(p2.as_str());
    text::push_char(&mut out, '-');
    let p3 = text::slice_string(&hv, 12, 16);
    out.append(p3.as_str());
    text::push_char(&mut out, '-');
    let p4 = text::slice_string(&hv, 16, 20);
    out.append(p4.as_str());
    text::push_char(&mut out, '-');
    let p5 = text::slice_string(&hv, 20, 32);
    out.append(p5.as_str());
    assert(out@ =~= uuid_text(id));
    out
}

} // verus!
