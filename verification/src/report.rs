//! The name of the file that the report of a scan is written to.

use crate::decimal::all_digits;
use crate::decimal::is_digit;
use vstd::prelude::*;
use vstd::string::StringExecFns;

verus! {

/// The notation of the time in the file's name, as `chrono` reads it: the
/// date and the time of day, each with hyphens, joined by an underscore.
pub open spec fn stamp_format() -> Seq<char> {
    "%Y-%m-%d_%H-%M-%S"@
}

/// The notation of a year: four digits, or a sign and four or more digits for
/// a year before 0 or after 9999.
pub open spec fn is_year(s: Seq<char>) -> bool {
    ||| s.len() == 4 && all_digits(s)
    ||| s.len() >= 5 && (s[0] == '+' || s[0] == '-') && all_digits(s.subrange(1, s.len() as int))
}

/// Whether `s` holds `mark` at position `at` and a digit at each of the two
/// positions after it.
pub open spec fn is_field(s: Seq<char>, at: int, mark: char) -> bool {
    s[at] == mark && is_digit(s[at + 1]) && is_digit(s[at + 2])
}

/// The shape of a time stamp: a year, then month, day, hour, minute and
/// second with two digits each; hyphens before month, day, minute and second,
/// an underscore before the hour.
pub open spec fn is_time_stamp(s: Seq<char>) -> bool {
    let n = s.len() as int;
    &&& n >= 19
    &&& is_year(s.subrange(0, n - 15))
    &&& is_field(s, n - 15, '-')
    &&& is_field(s, n - 12, '-')
    &&& is_field(s, n - 9, '_')
    &&& is_field(s, n - 6, '-')
    &&& is_field(s, n - 3, '-')
}

/// The name of the report for a time stamp.
pub open spec fn log_file_name(stamp: Seq<char>) -> Seq<char> {
    "vlan_ips_"@ + stamp + ".json"@
}

/// Builds the name of the report for a time stamp.
pub fn log_file(stamp: &str) -> (r: String)
    ensures
        r@ == log_file_name(stamp@),
{
    let mut out = String::from_str("vlan_ips_");
    out.append(stamp);
    out.append(".json");
    out
}

/// Reads the machine's clock with `chrono::Local::now` and writes the local
/// time with `DateTime::format` in the notation given. Which time it is
/// depends on the moment and on the time zone; the contract claims the shape
/// that `chrono` gives every time in this notation: the year with four digits
/// or with a sign and at least four, every other field with two digits. The
/// one notation admitted is the one of the report's name; writing the time
/// would panic on a format that `chrono` does not accept.
#[verifier::external_body]
pub(crate) fn local_time_text(format: &str) -> (r: String)
    requires
        format@ == stamp_format(),
    ensures
        is_time_stamp(r@),
{
    chrono::Local::now().format(format).to_string()
}

/// Names the report of a scan that ends now: the name for the time stamp of
/// the current local time. Which time that is cannot be stated; that the name
/// holds a time stamp can.
pub fn current_log_file() -> (r: String)
    ensures
        exists|stamp: Seq<char>| is_time_stamp(stamp) && r@ == #[trigger] log_file_name(stamp),
{
    let stamp = local_time_text("%Y-%m-%d_%H-%M-%S");
    log_file(stamp.as_str())
}

} // verus!
