//! Times as the app shows them: how long ago a moment was, and the moments
//! that Thunderstore writes as RFC 3339 text.

use vstd::prelude::*;

verus! {

/// The clock of this machine, seconds since the Unix epoch, from
/// `chrono::Utc::now`. Nothing is assumed of the value.
#[verifier::external_body]
pub(crate) fn now_seconds() -> i64 {
    chrono::Utc::now().timestamp()
}

/// How long `seconds` is, in the words of `timeago` with minutes as the
/// smallest unit: "just now", "5 minutes ago", "3 weeks ago".
pub uninterp spec fn time_ago(seconds: u64) -> Seq<char>;

/// The words for a span of `seconds` from `timeago::Formatter::convert`,
/// with minutes as the smallest unit and "just now" as the text below it.
/// Assumed: the words are `time_ago` of the span, and "just now" below a
/// minute, where no unit fits.
#[verifier::external_body]
pub(crate) fn ago_words(seconds: u64) -> (words: String)
    ensures
        words@ == time_ago(seconds),
        seconds < 60 ==> words@ == "just now"@,
{
    let mut formatter = timeago::Formatter::new();
    formatter.min_unit(timeago::TimeUnit::Minutes).too_low("just now");
    formatter.convert(std::time::Duration::from_secs(seconds))
}

/// The seconds from `at` to `now`, none when `at` lies ahead.
pub open spec fn elapsed(now: i64, at: i64) -> u64 {
    if now - at <= 0 {
        0
    } else {
        (now - at) as u64
    }
}

/// How long ago `at` was at `now`, both in seconds since the Unix epoch.
pub fn ago_at(now: i64, at: i64) -> (words: String)
    ensures
        words@ == time_ago(elapsed(now, at)),
{
    let span: i128 = now as i128 - at as i128;
    let seconds: u64 = if span <= 0 { 0 } else { span as u64 };
    ago_words(seconds)
}

/// How long ago `at`, seconds since the Unix epoch, was: "just now",
/// "5 minutes ago", "3 weeks ago".
pub fn ago(at: i64) -> (words: String)
    ensures
        exists|now: i64| words@ == time_ago(elapsed(now, at)),
{
    let now = now_seconds();
    ago_at(now, at)
}

/// The moment an RFC 3339 text names, in seconds since the epoch.
pub uninterp spec fn rfc3339_seconds(text: Seq<char>) -> Option<i64>;

/// An RFC 3339 time as Thunderstore writes it, in seconds since the epoch,
/// from `chrono::DateTime::parse_from_rfc3339` and `timestamp`; assumed to
/// be `rfc3339_seconds` of the text.
#[verifier::external_body]
pub fn parse(text: &str) -> (r: Option<i64>)
    ensures
        r == rfc3339_seconds(text@),
{
    chrono::DateTime::parse_from_rfc3339(text).ok().map(|time| time.timestamp())
}

} // verus!
