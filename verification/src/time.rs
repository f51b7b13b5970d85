//! Wall-clock readings and their textual form.

use vstd::prelude::*;

verus! {

/// A moment on the local wall clock: seconds since the Unix epoch, and the
/// number of seconds by which local time was ahead of UTC at that moment.
#[derive(Clone, Copy, Debug, PartialEq, Eq, Structural)]
pub struct ClockTime {
    pub secs: i64,
    pub offset: i32,
}

/// What `chrono` writes for the moment `secs` seconds after the Unix epoch, seen
/// `offset` seconds east of UTC, under the strftime pattern `pattern`; `None`
/// where `chrono` has no such moment, no such offset, or rejects the pattern.
pub uninterp spec fn formatted(secs: int, offset: int, pattern: Seq<char>) -> Option<Seq<char>>;

/// Reads the local wall clock with `chrono::Local::now`.
///
/// Nothing is claimed of the reading: it is whatever the machine's clock and time
/// zone say, cut to whole seconds. `chrono` panics when the system clock is set
/// before the Unix epoch.
#[verifier::external_body]
pub(crate) fn local_now() -> ClockTime {
    let now = chrono::Local::now();
    ClockTime { secs: now.timestamp(), offset: now.offset().local_minus_utc() }
}

/// Formats a moment with `chrono::DateTime::format`.
///
/// The moment is rebuilt with `chrono::DateTime::from_timestamp` and moved to the
/// zone given by `chrono::FixedOffset::east_opt`. The text is a function of the
/// moment and the pattern alone: it is [`formatted`], by definition. `None` comes
/// back where either constructor refuses its argument or the pattern is rejected
/// while writing.
#[verifier::external_body]
pub(crate) fn format_time(time: ClockTime, pattern: &str) -> (text: Option<String>)
    ensures
        match text {
            Some(s) => formatted(time.secs as int, time.offset as int, pattern@) == Some(s@),
            None => formatted(time.secs as int, time.offset as int, pattern@).is_none(),
        },
{
    let utc = chrono::DateTime::from_timestamp(time.secs, 0)?;
    let zone = chrono::FixedOffset::east_opt(time.offset)?;
    let mut text = String::new();
    utc.with_timezone(&zone).format(pattern).write_to(&mut text).ok()?;
    Some(text)
}

} // verus!
