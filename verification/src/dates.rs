use vstd::prelude::*;

verus! {

/// The instant, in seconds since the Unix epoch, that a date-time text
/// denotes under a format string; `None` where the text does not match the
/// format. A pure function of the two strings.
pub uninterp spec fn parsed_datetime(s: Seq<char>, fmt: Seq<char>) -> Option<i64>;

/// The format of the date-time texts the portal's markup carries.
pub open spec fn portal_datetime_format() -> Seq<char> {
    "%d-%m-%Y %H:%M"@
}

/// Relies on chrono's `NaiveDateTime::parse_from_str` and
/// `NaiveDateTime::and_utc`: the denoted instant in epoch seconds, a function
/// of the text and the format alone, with no time zone or locale involved.
#[verifier::external_body]
pub(crate) fn parse_datetime(s: &str, fmt: &str) -> (r: Option<i64>)
    ensures
        r == parsed_datetime(s@, fmt@),
{
    chrono::NaiveDateTime::parse_from_str(s, fmt).ok().map(|d| d.and_utc().timestamp())
}

/// Parses a date-time text of the portal's markup into epoch seconds.
pub fn parse_portal_datetime(s: &str) -> (r: Option<i64>)
    ensures
        r == parsed_datetime(s@, portal_datetime_format()),
{
    parse_datetime(s, "%d-%m-%Y %H:%M")
}

} // verus!
