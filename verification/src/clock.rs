//! The wall clock and the calendar, both taken from `chrono`.

use vstd::prelude::*;

verus! {

/// The text that `chrono` writes for the instant `secs` seconds after the
/// epoch, read as a date and time without a time zone, under the `strftime`
/// pattern `pattern`. It is `None` where `chrono` has no date for `secs` or
/// rejects the pattern.
pub uninterp spec fn timestamp_text(secs: i64, pattern: Seq<char>) -> Option<Seq<char>>;

/// Calls `chrono::NaiveDateTime::from_timestamp_opt` with `secs` and no
/// nanoseconds, then `NaiveDateTime::format` with `pattern`, and writes the
/// outcome with `DelayedFormat::write_to`. Trusted: the result is what those
/// calls give for these two arguments, and nothing else decides it (the
/// formatter's locale is fixed). `None` stands for `None` from the first call
/// or an error from the last.
#[verifier::external_body]
#[allow(deprecated)]
pub(crate) fn format_timestamp(secs: i64, pattern: &str) -> (text: Option<String>)
    ensures
        text.deep_view() == timestamp_text(secs, pattern@),
{
    let instant = chrono::NaiveDateTime::from_timestamp_opt(secs, 0)?;
    let mut text = String::new();
    match instant.format(pattern).write_to(&mut text) {
        Ok(()) => Some(text),
        Err(_) => None,
    }
}

/// Calls `chrono::Utc::now` and takes its `timestamp`: the seconds since the
/// epoch on the machine's clock. Trusted, with nothing claimed of the value:
/// two calls may differ, and the clock may be set to any instant. Off the
/// browser `Utc::now` does not return where the clock stands before the
/// epoch.
#[verifier::external_body]
pub(crate) fn current_timestamp() -> i64 {
    chrono::Utc::now().timestamp()
}

} // verus!
