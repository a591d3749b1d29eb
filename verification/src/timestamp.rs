//! Labels for the timestamps of recovery files.

use vstd::prelude::*;

verus! {

/// The first second that `time::OffsetDateTime` can represent
/// (`-9999-01-01 00:00:00 UTC`) without its `large-dates` feature.
pub const UNIX_TIMESTAMP_MIN: i64 = -377705203200i64;

/// The last second that `time::OffsetDateTime` can represent
/// (`9999-12-31 23:59:59 UTC`) without its `large-dates` feature.
pub const UNIX_TIMESTAMP_MAX: i64 = 253402300799i64;

/// The first second of the year 1900 (`1900-01-01 00:00:00 UTC`): RFC 2822
/// requires four-digit years from 1900 on.
pub const UNIX_TIMESTAMP_YEAR_1900: i64 = -2208988800i64;

/// Whether `time` can turn the unix timestamp into a date-time.
pub open spec fn timestamp_in_range(unix: i64) -> bool {
    UNIX_TIMESTAMP_MIN <= unix <= UNIX_TIMESTAMP_MAX
}

/// Whether the RFC 2822 formatter of `time` accepts the date-time of the timestamp.
pub open spec fn timestamp_formattable(unix: i64) -> bool {
    UNIX_TIMESTAMP_YEAR_1900 <= unix <= UNIX_TIMESTAMP_MAX
}

/// The text that `time` writes for the UTC date-time of the unix timestamp in
/// the RFC 2822 format, such as `Thu, 01 Jan 1970 00:00:00 +0000`.
pub uninterp spec fn rfc2822_text(unix: i64) -> Seq<char>;

#[verifier::external_type_specification]
#[verifier::external_body]
pub struct ExFormatError(time::error::Format);

/// Calls `time::OffsetDateTime::from_unix_timestamp` and reports whether it
/// succeeded. Its source accepts exactly the timestamps from
/// `-9999-01-01 00:00:00` to `9999-12-31 23:59:59` UTC.
#[verifier::external_body]
fn datetime_from_unix_ok(unix: i64) -> (ok: bool)
    ensures
        ok == timestamp_in_range(unix),
{
    time::OffsetDateTime::from_unix_timestamp(unix).is_ok()
}

/// Calls `time::OffsetDateTime::format` with the `Rfc2822` format description
/// on the UTC date-time that `OffsetDateTime::from_unix_timestamp` builds from
/// `unix`. The source refuses years before 1900 (and only those, since the
/// offset is UTC and the output is a `Vec`); what it writes otherwise is named
/// `rfc2822_text`.
#[verifier::external_body]
fn format_rfc2822(unix: i64) -> (r: Result<String, time::error::Format>)
    requires
        timestamp_in_range(unix),
    ensures
        r is Ok <==> timestamp_formattable(unix),
        r matches Ok(s) ==> s@ == rfc2822_text(unix),
{
    let datetime = time::OffsetDateTime::from_unix_timestamp(unix).unwrap();
    datetime.format(&time::format_description::well_known::Rfc2822)
}

/// The label shown when the timestamp lies outside what `time` represents.
pub open spec fn label_error_getting_time() -> Seq<char> {
    seq!['E', 'r', 'r', 'o', 'r', ' ', 'g', 'e', 't', 't', 'i', 'n', 'g', ' ', 't', 'i', 'm', 'e']
}

/// The label shown when the date-time cannot be written as RFC 2822.
pub open spec fn label_error_formatting_time() -> Seq<char> {
    seq![
        'E', 'r', 'r', 'o', 'r', ' ', 'f', 'o', 'r', 'm', 'a', 't', 't', 'i', 'n', 'g', ' ', 't',
        'i', 'm', 'e',
    ]
}

/// What the label of a timestamp is, given the outcome of the conversion and
/// of the formatting: `None` when the conversion failed, `Some(Err(()))` when
/// the formatting failed, `Some(Ok(text))` otherwise.
pub open spec fn spec_timestamp_label(outcome: Option<Result<Seq<char>, ()>>) -> Seq<char> {
    match outcome {
        None => label_error_getting_time(),
        Some(Err(_)) => label_error_formatting_time(),
        Some(Ok(text)) => text,
    }
}

/// The label of a unix timestamp: its RFC 2822 text, or the text of the error
/// in place of it, so that a bad timestamp never stops the listing.
pub open spec fn spec_format_unix_timestamp(unix: i64) -> Seq<char> {
    if !timestamp_in_range(unix) {
        label_error_getting_time()
    } else if !timestamp_formattable(unix) {
        label_error_formatting_time()
    } else {
        rfc2822_text(unix)
    }
}

/// Builds the label from the outcome of the conversion and the formatting.
pub fn timestamp_label(outcome: Option<Result<String, ()>>) -> (label: String)
    ensures
        label@ == spec_timestamp_label(
            match outcome {
                None => None,
                Some(Err(_)) => Some(Err(())),
                Some(Ok(s)) => Some(Ok(s@)),
            },
        ),
{
    match outcome {
        None => {
            let s = String::from_str("Error getting time");
            proof {
                reveal_strlit("Error getting time");
            }
            s
        },
        Some(Err(_)) => {
            let s = String::from_str("Error formatting time");
            proof {
                reveal_strlit("Error formatting time");
            }
            s
        },
        Some(Ok(text)) => text,
    }
}

/// Formats the unix timestamp of a recovery file as RFC 2822 text in UTC, or
/// as the text of the error that stopped it.
pub fn format_unix_timestamp(unix: i64) -> (label: String)
    ensures
        label@ == spec_format_unix_timestamp(unix),
{
    if !datetime_from_unix_ok(unix) {
        return timestamp_label(None);
    }
    match format_rfc2822(unix) {
        Ok(text) => timestamp_label(Some(Ok(text))),
        Err(_) => timestamp_label(Some(Err(()))),
    }
}

} // verus!
