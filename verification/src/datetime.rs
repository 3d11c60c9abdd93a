use vstd::prelude::*;
use crate::context::Scal;
use crate::errors::Error;

verus! {

/// Whether chrono's `DateTime<Utc>` parser accepts the string: a relaxed
/// RFC 3339 timestamp.  Acceptance is a function of the string alone.
pub uninterp spec fn rfc3339_ok(s: Seq<char>) -> bool;

/// The UTC moment that chrono's `DateTime<Utc>` parser reads from an
/// accepted string, as (unix seconds, subsecond nanoseconds).  The
/// parse is deterministic in the string, so the moment is a function of
/// the string alone.
pub uninterp spec fn utc_instant_of(s: Seq<char>) -> (int, int);

/// Whether chrono's strftime parser accepts every specifier of the
/// pattern.  Acceptance is a function of the pattern alone.
pub uninterp spec fn strftime_ok(fmt: Seq<char>) -> bool;

/// Relies on chrono's `FromStr for DateTime<Utc>`, which parses a
/// relaxed RFC 3339 timestamp, deterministically in the string, and on
/// `DateTime::timestamp` and `DateTime::timestamp_subsec_nanos`.  The
/// bounds are those of chrono's representable dates, years -262143
/// through 262142: every timestamp lies between the two values stated
/// here (the first moment of the least year and the last second of the
/// greatest).  Subsecond nanoseconds stay under two billion, and reach
/// one billion only on a leap second, which chrono attaches to a
/// second numbered 59.
#[verifier::external_body]
fn parse_utc(s: &str) -> (r: Result<(i64, u32), String>)
    ensures
        r is Ok <==> rfc3339_ok(s@),
        r matches Ok(p) ==> (p.0 as int, p.1 as int) == utc_instant_of(s@),
        r matches Ok(p) ==> -8_334_601_228_800 <= p.0 <= 8_210_266_876_799,
        r matches Ok(p) ==> p.1 < 2_000_000_000,
        r matches Ok(p) ==> (p.1 >= 1_000_000_000 ==> p.0 as int % 60 == 59),
{
    match s.parse::<chrono::DateTime<chrono::Utc>>() {
        Ok(dt) => Ok((dt.timestamp(), dt.timestamp_subsec_nanos())),
        Err(e) => Err(e.to_string()),
    }
}

/// Relies on chrono's `StrftimeItems`: it yields an `Item::Error`
/// exactly where the pattern holds an invalid specifier, and formatting
/// such an item is what would make rendering fail.
#[verifier::external_body]
fn strftime_pattern_ok(fmt: &str) -> (r: bool)
    ensures
        r == strftime_ok(fmt@),
{
    chrono::format::StrftimeItems::new(fmt)
        .all(|item| !matches!(item, chrono::format::Item::Error))
}

/// Relies on chrono's `DateTime::from_timestamp`, on its timezone
/// conversion, and on `DateTime::format`: the moment is turned into the
/// process's local time and rendered with the pattern.  The result
/// depends on the machine's local timezone, so nothing is claimed of
/// it.  `from_timestamp` accepts exactly the moments admitted here —
/// seconds within chrono's date range, nanoseconds under two billion,
/// and a leap-second nanosecond count only on a second numbered 59 —
/// and an invalid pattern would make the rendering panic, so the
/// pattern must have been checked first.
#[verifier::external_body]
fn format_in_local(secs: i64, nanos: u32, fmt: &str) -> (r: String)
    requires
        strftime_ok(fmt@),
        -8_334_601_228_800 <= secs <= 8_210_266_876_799,
        nanos < 2_000_000_000,
        nanos >= 1_000_000_000 ==> secs as int % 60 == 59,
{
    let utc = chrono::DateTime::<chrono::Utc>::from_timestamp(secs, nanos).unwrap();
    let local: chrono::DateTime<chrono::Local> = utc.into();
    format!("{}", local.format(fmt))
}

/// Normalizes a creation-time value.  The value must be a string; it is
/// parsed as a UTC timestamp, converted to the process's local time,
/// and rendered with the caller's strftime-style pattern.  Each failure
/// names its cause: a non-string value, an unparsable timestamp, or an
/// invalid pattern.  The moment handed to the formatter is pinned to
/// `utc_instant_of` of the string; the rendered text itself depends on
/// the machine's local timezone and is deliberately left unstated.
pub fn normalize_datetime(value: &Scal, fmt: &str) -> (r: Result<String, Error>)
    ensures
        r is Ok <==> (value matches Scal::Str(s) && rfc3339_ok(s@) && strftime_ok(fmt@)),
        !(value is Str) ==> r == Err::<String, Error>(Error::TypeMismatch),
        (value matches Scal::Str(s) && !rfc3339_ok(s@)) ==> (r matches Err(e)
            && e is DatetimeParse),
        (value matches Scal::Str(s) && rfc3339_ok(s@) && !strftime_ok(fmt@)) ==> r
            == Err::<String, Error>(Error::BadDatetimeFormat),
{
    match value {
        Scal::Str(s) => match parse_utc(s.as_str()) {
            Ok(p) => {
                if strftime_pattern_ok(fmt) {
                    Ok(format_in_local(p.0, p.1, fmt))
                } else {
                    Err(Error::BadDatetimeFormat)
                }
            },
            Err(msg) => Err(Error::DatetimeParse(msg)),
        },
        _ => Err(Error::TypeMismatch),
    }
}

} // verus!
