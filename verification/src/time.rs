use vstd::prelude::*;

verus! {

/// The error of chrono's parsers.
#[verifier::external_type_specification]
#[verifier::external_body]
pub struct ExChronoParseError(chrono::ParseError);

/// The longest span of time, in seconds, that can be put in words.
pub const LONGEST_SPAN: i64 = 9_223_372_036_854_775;

/// What chrono makes of `text` read as a date and time with an offset:
/// nothing where it rejects the text, else the seconds from the start of
/// 1970 (UTC) to that moment.
pub uninterp spec fn timestamp_parsed(text: Seq<char>) -> Option<i64>;

/// The words that chrono-humanize finds for a span of `seconds` seconds,
/// counted from now: into the future where it is positive, into the past
/// where it is negative.
pub uninterp spec fn humanized(seconds: i64) -> Seq<char>;

/// Calls chrono's `FromStr` for `DateTime<FixedOffset>` on `text`, a parser
/// of a relaxed RFC 3339 that reads nothing but its argument, and keeps of a
/// date its `timestamp()`.
#[verifier::external_body]
pub(crate) fn parse_timestamp(text: &str) -> (result: Result<i64, chrono::ParseError>)
    ensures
        match result {
            Ok(seconds) => timestamp_parsed(text@) == Some(seconds),
            Err(_) => timestamp_parsed(text@) is None,
        },
{
    match text.parse::<chrono::DateTime<chrono::FixedOffset>>() {
        Ok(moment) => Ok(moment.timestamp()),
        Err(err) => Err(err),
    }
}

/// Formats chrono-humanize's `HumanTime` of a chrono duration of `seconds`
/// seconds. The text depends on the duration alone. `Duration::seconds`
/// takes no more than a thousandth of the largest 64-bit number, either way.
#[verifier::external_body]
pub(crate) fn humanize(seconds: i64) -> (text: String)
    requires
        -LONGEST_SPAN <= seconds <= LONGEST_SPAN,
    ensures
        text@ == humanized(seconds),
{
    format!("{}", chrono_humanize::HumanTime::from(chrono::Duration::seconds(seconds)))
}

/// The seconds from `now` to `moment`, kept within the longest span that can
/// be put in words.
pub open spec fn span_between(moment: i64, now: i64) -> i64 {
    if moment - now > LONGEST_SPAN {
        LONGEST_SPAN
    } else if moment - now < -LONGEST_SPAN {
        (-LONGEST_SPAN) as i64
    } else {
        (moment - now) as i64
    }
}

/// When `moment` is, seen from `now`, in words; both are counted in seconds
/// from the start of 1970.
pub fn relative_time(moment: i64, now: i64) -> (text: String)
    ensures
        text@ == humanized(span_between(moment, now)),
{
    let apart: i128 = moment as i128 - now as i128;
    let span: i64 = if apart > LONGEST_SPAN as i128 {
        LONGEST_SPAN
    } else if apart < -(LONGEST_SPAN as i128) {
        -LONGEST_SPAN
    } else {
        apart as i64
    };
    humanize(span)
}

} // verus!
