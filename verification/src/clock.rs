//! Wall-clock times as the chat shows them: `HH:MM` in the machine's local
//! time zone, or `--:--` where no time can be given.
use vstd::prelude::*;
use chrono::TimeZone;

verus! {

/// `c` is an ASCII decimal digit.
pub open spec fn is_digit(c: char) -> bool {
    0x30 <= (c as u32) <= 0x39
}

/// The value of a decimal digit.
pub open spec fn digit_value(c: char) -> int {
    (c as u32) - 0x30
}

/// `s` is a time of day written `HH:MM` (hours 00–23, minutes 00–59).
pub open spec fn is_clock_text(s: Seq<char>) -> bool {
    &&& s.len() == 5
    &&& is_digit(s[0]) && is_digit(s[1])
    &&& s[2] == ':'
    &&& is_digit(s[3]) && is_digit(s[4])
    &&& digit_value(s[0]) * 10 + digit_value(s[1]) < 24
    &&& digit_value(s[3]) * 10 + digit_value(s[4]) < 60
}

/// The text shown in place of a time that cannot be given.
pub open spec fn no_time() -> Seq<char> {
    "--:--"@
}

/// The earliest UNIX timestamp chrono can represent
/// (`DateTime::<Utc>::MIN_UTC.timestamp()`, 1 January of year -262143).
pub const MIN_TIMESTAMP: i64 = -8334601228800i64;

/// The latest UNIX timestamp chrono can represent
/// (`DateTime::<Utc>::MAX_UTC.timestamp()`, 31 December 262142, 23:59:59).
pub const MAX_TIMESTAMP: i64 = 8210266876799i64;

/// chrono can turn `unix_secs` into a date and time.
pub open spec fn in_clock_range(unix_secs: i64) -> bool {
    MIN_TIMESTAMP <= unix_secs <= MAX_TIMESTAMP
}

/// `s` is how the chat shows the time `unix_secs`: a local `HH:MM` when
/// chrono can represent it, `--:--` otherwise.
pub open spec fn shows_time_of(unix_secs: i64, s: Seq<char>) -> bool {
    if in_clock_range(unix_secs) {
        is_clock_text(s)
    } else {
        s == no_time()
    }
}

/// Calls chrono: `Local.timestamp_opt(unix_secs, 0).single()`, formatted with
/// `%H:%M`. Claimed: there is a result exactly when `unix_secs` lies in
/// chrono's range (`timestamp_opt` is documented to give `None` only for
/// out-of-range seconds and `Single` otherwise, and it decides through
/// `DateTime::from_timestamp`, which depends on the seconds alone); a result
/// is an `HH:MM` time (`%H` is the hour 00–23 and `%M` the minute 00–59, both
/// zero-padded to two digits). Which time comes out depends on the machine's
/// time zone, so it is left unsaid.
#[verifier::external_body]
fn local_clock_time(unix_secs: i64) -> (r: Option<String>)
    ensures
        r is Some <==> in_clock_range(unix_secs),
        r matches Some(s) ==> is_clock_text(s@),
{
    chrono::Local.timestamp_opt(unix_secs, 0).single().map(|dt| dt.format("%H:%M").to_string())
}

/// Calls chrono: `Local::now()` formatted with `%H:%M`. Claimed: the result
/// is an `HH:MM` time (see `local_clock_time`); which one depends on the clock.
#[verifier::external_body]
pub(crate) fn current_clock_time() -> (r: String)
    ensures
        is_clock_text(r@),
{
    chrono::Local::now().format("%H:%M").to_string()
}

/// The shown form of an optional clock time: the time itself, or `--:--`.
pub fn clock_or_placeholder(t: Option<String>) -> (r: String)
    ensures
        r@ == match t {
            Some(s) => s@,
            None => no_time(),
        },
{
    match t {
        Some(s) => s,
        None => "--:--".to_owned(),
    }
}

/// The local `HH:MM` time of a UNIX timestamp, or `--:--` when chrono
/// cannot represent it.
pub fn format_ts(unix_secs: i64) -> (r: String)
    ensures
        shows_time_of(unix_secs, r@),
{
    clock_or_placeholder(local_clock_time(unix_secs))
}

} // verus!
