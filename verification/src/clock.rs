//! Times in words. The caller reads the clock; `chrono` writes the time out;
//! this module asks for the two forms that the application shows and makes
//! sure that a name for an output version has the form of one.

use vstd::prelude::*;
use crate::text::{chars_of, text_of};

verus! {

/// The form of the name of an output version: `YYYYMMDD_HHMMSS`.
pub open spec fn stamp_pattern() -> Seq<char> {
    "%Y%m%d_%H%M%S"@
}

/// The form in which a time is shown: `YYYY-MM-DD HH:MM`.
pub open spec fn display_pattern() -> Seq<char> {
    "%Y-%m-%d %H:%M"@
}

/// What `chrono` writes for the time that lies `secs` seconds after the
/// beginning of 1970, read on a clock that is `offset_secs` seconds ahead of
/// universal time, in the form `pattern`; none where it knows no such time
/// or no such clock.
pub uninterp spec fn time_text(secs: i64, offset_secs: i32, pattern: Seq<char>) -> Option<
    Seq<char>,
>;

/// `chrono::DateTime::format`, on the time that `DateTime::from_timestamp`
/// gives for `secs`, moved by `DateTime::with_timezone` to the clock that
/// `FixedOffset::east_opt` gives for `offset_secs`. The result is a function
/// of the three arguments alone. The two forms let through are ones that
/// `chrono` can write, so that writing does not fail.
#[verifier::external_body]
fn format_time(secs: i64, offset_secs: i32, pattern: &str) -> (r: Option<String>)
    requires
        pattern@ == stamp_pattern() || pattern@ == display_pattern(),
    ensures
        text_of(r) == time_text(secs, offset_secs, pattern@),
{
    let offset = chrono::FixedOffset::east_opt(offset_secs)?;
    let utc = chrono::DateTime::from_timestamp(secs, 0)?;
    Some(utc.with_timezone(&offset).format(pattern).to_string())
}

/// Whether `c` is a digit from 0 to 9.
pub open spec fn is_digit(c: char) -> bool {
    0x30 <= c as u32 <= 0x39
}

/// Whether `s` has the form of the name of an output version: eight digits,
/// an underscore, six digits.
pub open spec fn is_stamp(s: Seq<char>) -> bool {
    &&& s.len() == 15
    &&& s[8] == '_'
    &&& forall|i: int| 0 <= i < 15 && i != 8 ==> is_digit(#[trigger] s[i])
}

/// Tells whether `name` has the form of the name of an output version.
pub fn is_version_stamp(name: &str) -> (r: bool)
    ensures
        r == is_stamp(name@),
{
    let v = chars_of(name);
    if v.len() != 15 || v[8] != '_' {
        return false;
    }
    let mut i: usize = 0;
    while i < 15
        invariant
            i <= 15,
            v.len() == 15,
            v@ == name@,
            v@[8] == '_',
            forall|k: int| 0 <= k < i && k != 8 ==> is_digit(#[trigger] v@[k]),
        decreases 15 - i,
    {
        let n: u32 = v[i] as u32;
        if i != 8 && !(0x30 <= n && n <= 0x39) {
            assert(!is_digit(name@[i as int]));
            return false;
        }
        i += 1;
    }
    true
}

/// The name of an output version for the time given, if the time can be
/// written as one.
pub open spec fn stamp_of(secs: i64, offset_secs: i32) -> Option<Seq<char>> {
    match time_text(secs, offset_secs, stamp_pattern()) {
        Some(t) => if is_stamp(t) {
            Some(t)
        } else {
            None
        },
        None => None,
    }
}

/// Names an output version by a time: the time that lies `secs` seconds
/// after the beginning of 1970, on a clock that is `offset_secs` seconds
/// ahead of universal time. There is no name for a time that does not fit
/// the form, such as one outside the years 0000 to 9999.
pub fn version_stamp(secs: i64, offset_secs: i32) -> (r: Option<String>)
    ensures
        text_of(r) == stamp_of(secs, offset_secs),
        r matches Some(s) ==> is_stamp(s@),
{
    match format_time(secs, offset_secs, "%Y%m%d_%H%M%S") {
        Some(t) => if is_version_stamp(t.as_str()) {
            Some(t)
        } else {
            None
        },
        None => None,
    }
}

/// Writes a time for display, if the time can be written.
pub fn display_time(secs: i64, offset_secs: i32) -> (r: Option<String>)
    ensures
        text_of(r) == time_text(secs, offset_secs, display_pattern()),
{
    format_time(secs, offset_secs, "%Y-%m-%d %H:%M")
}

} // verus!
