use vstd::prelude::*;

verus! {

/// The largest Unix timestamp that chrono can represent: the last second of
/// the year 262142, chrono's last year.
pub open spec fn max_timestamp() -> int {
    8_210_266_876_799
}

/// The RFC 3339 text of the instant `secs` seconds and `nanos` nanoseconds
/// after the Unix epoch, in UTC, as chrono renders it.
pub uninterp spec fn rfc3339_text(secs: int, nanos: int) -> Seq<char>;

/// Calls `chrono::Utc::now` and returns its `timestamp`, the seconds since
/// the Unix epoch. `Utc::now` builds the instant from the system time since
/// the epoch with `DateTime::from_timestamp(..).unwrap()`, so when it
/// returns, the count is not negative and lies in chrono's range. Which
/// second it is depends on the clock.
#[verifier::external_body]
pub(crate) fn now_unix_seconds() -> (r: i64)
    ensures
        0 <= r <= max_timestamp(),
{
    chrono::Utc::now().timestamp()
}

/// Calls `chrono::Utc::now` and returns its `timestamp` and
/// `timestamp_subsec_nanos`. `Utc::now` builds the instant from the system
/// time since the epoch with `DateTime::from_timestamp(..).unwrap()`, so when
/// it returns, the seconds are not negative and lie in chrono's range, and the
/// nanoseconds, a `Duration`'s `subsec_nanos`, are below a billion. Which
/// instant it is depends on the clock.
#[verifier::external_body]
pub(crate) fn now_instant() -> (r: (i64, u32))
    ensures
        0 <= r.0 <= max_timestamp(),
        r.1 < 1_000_000_000,
{
    let now = chrono::Utc::now();
    (now.timestamp(), now.timestamp_subsec_nanos())
}

/// Calls `chrono::DateTime::from_timestamp` and renders the instant with
/// `to_rfc3339`. The text is the named RFC 3339 text of its arguments.
/// `from_timestamp` gives `None` only for seconds outside chrono's range or
/// an invalid nanosecond count, so a timestamp from zero to the largest one
/// with fewer than a billion nanoseconds is rendered.
#[verifier::external_body]
pub(crate) fn rfc3339_at(secs: i64, nanos: u32) -> (r: Option<String>)
    ensures
        r matches Some(t) ==> t@ == rfc3339_text(secs as int, nanos as int),
        0 <= secs <= max_timestamp() && nanos < 1_000_000_000 ==> r is Some,
{
    match chrono::DateTime::from_timestamp(secs, nanos) {
        Some(t) => Some(t.to_rfc3339()),
        None => None,
    }
}

/// Whether a text is the RFC 3339 rendering of an instant that chrono can
/// represent, from the epoch to its last second.
pub open spec fn is_instant_text(t: Seq<char>) -> bool {
    exists|secs: int, nanos: int|
        0 <= secs <= max_timestamp() && 0 <= nanos < 1_000_000_000 && t == #[trigger] rfc3339_text(
            secs,
            nanos,
        )
}

/// The current time in RFC 3339: the clock's instant, rendered.
pub(crate) fn now_text() -> (r: String)
    ensures
        is_instant_text(r@),
{
    let (secs, nanos) = now_instant();
    match rfc3339_at(secs, nanos) {
        Some(t) => t,
        None => {
            proof {
                assert(false);
            }
            String::new()
        },
    }
}

/// Whether a character is a lower-case hexadecimal digit.
pub open spec fn is_lower_hex_char(c: char) -> bool {
    ('0' <= c <= '9') || ('a' <= c <= 'f')
}

/// The text of a random (version 4) UUID in its hyphenated lower-case form:
/// thirty-six characters, hyphens at positions 8, 13, 18 and 23, lower-case
/// hexadecimal digits elsewhere, the version digit `4` at position 14 and a
/// variant digit from `8` to `b` at position 19.
pub open spec fn is_uuid_v4_text(s: Seq<char>) -> bool {
    &&& s.len() == 36
    &&& forall|i: int|
        0 <= i < 36 ==> if i == 8 || i == 13 || i == 18 || i == 23 {
            s[i] == '-'
        } else {
            is_lower_hex_char(#[trigger] s[i])
        }
    &&& s[14] == '4'
    &&& (s[19] == '8' || s[19] == '9' || s[19] == 'a' || s[19] == 'b')
}

/// Calls `uuid::Uuid::new_v4` and renders it with `to_string`. `new_v4` sets
/// the version bits to 4 and the variant bits to `10`, and `Display` writes
/// the hyphenated lower-case form. The value is otherwise random; `new_v4`
/// panics when the system offers no random bytes, which no argument can rule
/// out.
#[verifier::external_body]
pub(crate) fn new_uuid() -> (r: String)
    ensures
        is_uuid_v4_text(r@),
{
    uuid::Uuid::new_v4().to_string()
}

} // verus!
