//! Instants in time, and the recovery of a recording's creation time from
//! a container tag or from the name of its file.

use vstd::prelude::*;
use crate::text::{chars_of, lemma_split_join, pieces_view, split, split_chars, string_of};

verus! {

/// An instant, counted from 1970-01-01 00:00:00 UTC without leap seconds.
#[derive(Debug, Clone, Copy, PartialEq, Eq, Structural)]
pub struct Timestamp {
    /// Whole seconds since the epoch.
    pub secs: i64,
    /// Nanoseconds since the last second boundary.
    pub nanos: u32,
}

impl Timestamp {
    /// Whether this instant lies more than `seconds` before `now`.
    pub open spec fn older_than(&self, seconds: int, now: Timestamp) -> bool {
        self.secs + seconds < now.secs || (self.secs + seconds == now.secs && self.nanos
            < now.nanos)
    }

    /// Microseconds since the epoch, sub-microsecond digits dropped.
    pub open spec fn micros(&self) -> int {
        self.secs * 1_000_000 + self.nanos / 1000
    }

    /// Decides whether this instant lies more than `seconds` before `now`.
    pub fn is_older_than(&self, seconds: u32, now: &Timestamp) -> (r: bool)
        ensures
            r == self.older_than(seconds as int, *now),
    {
        let shifted: i128 = self.secs as i128 + seconds as i128;
        let limit: i128 = now.secs as i128;
        shifted < limit || (shifted == limit && self.nanos < now.nanos)
    }

    /// Computes [`Timestamp::micros`].
    pub fn to_micros(&self) -> (r: i128)
        ensures
            r == self.micros(),
    {
        (self.secs as i128) * 1_000_000 + (self.nanos / 1000) as i128
    }
}

/// The instant that `chrono` reads from `text` as an RFC 3339 date and
/// time, if it reads one.
pub uninterp spec fn rfc3339_instant(text: Seq<char>) -> Option<Timestamp>;

/// The instant that `chrono` reads from `text` under the strftime-style
/// `format`, which must yield a time zone, if it reads one.
pub uninterp spec fn zoned_instant(text: Seq<char>, format: Seq<char>) -> Option<Timestamp>;

/// The instant that `chrono` reads from `text` under the strftime-style
/// `format` when the date and time read are taken to be in UTC, if it
/// reads one.
pub uninterp spec fn naive_instant(text: Seq<char>, format: Seq<char>) -> Option<Timestamp>;

/// `chrono::DateTime::parse_from_rfc3339`, with the instant parsed given as
/// seconds and nanoseconds.  The result depends on the text alone.
#[verifier::external_body]
fn parse_rfc3339(text: &str) -> (r: Option<Timestamp>)
    ensures
        r == rfc3339_instant(text@),
{
    chrono::DateTime::parse_from_rfc3339(text).ok().map(
        |t| Timestamp { secs: t.timestamp(), nanos: t.timestamp_subsec_nanos() },
    )
}

/// `chrono::DateTime::parse_from_str`, with the instant parsed given as
/// seconds and nanoseconds.  The result depends on text and format alone.
#[verifier::external_body]
fn parse_zoned(text: &str, format: &str) -> (r: Option<Timestamp>)
    ensures
        r == zoned_instant(text@, format@),
{
    chrono::DateTime::parse_from_str(text, format).ok().map(
        |t| Timestamp { secs: t.timestamp(), nanos: t.timestamp_subsec_nanos() },
    )
}

/// `chrono::NaiveDateTime::parse_from_str`, the date and time then declared
/// to be in UTC, given as seconds and nanoseconds.  The result depends on
/// text and format alone.
#[verifier::external_body]
fn parse_naive_utc(text: &str, format: &str) -> (r: Option<Timestamp>)
    ensures
        r == naive_instant(text@, format@),
{
    chrono::NaiveDateTime::parse_from_str(text, format).ok().and_then(
        |t| t.and_local_timezone(chrono::Utc).earliest(),
    ).map(|t| Timestamp { secs: t.timestamp(), nanos: t.timestamp_subsec_nanos() })
}

/// `chrono::Utc::now`, given as seconds and nanoseconds.  Nothing is
/// claimed of the instant returned.  The call panics where the system
/// clock is set before 1970.
#[verifier::external_body]
pub(crate) fn current_time() -> Timestamp {
    let t = chrono::Utc::now();
    Timestamp { secs: t.timestamp(), nanos: t.timestamp_subsec_nanos() }
}

/// The format of a date and time with fraction and numeric zone offset.
pub open spec fn zoned_format() -> Seq<char> {
    "%Y-%m-%d %H:%M:%S%.f %z"@
}

/// The format of a date and time to the second.
pub open spec fn plain_format() -> Seq<char> {
    "%Y-%m-%d %H:%M:%S"@
}

/// The instant that a `creation_time` tag states.  Three readings are
/// tried in order and the first that succeeds counts: RFC 3339, then date,
/// time with fraction and zone offset, then date and time to the second,
/// which is taken to be in UTC.
pub open spec fn tag_instant(tag: Seq<char>) -> Option<Timestamp> {
    if rfc3339_instant(tag) is Some {
        rfc3339_instant(tag)
    } else if zoned_instant(tag, zoned_format()) is Some {
        zoned_instant(tag, zoned_format())
    } else {
        naive_instant(tag, plain_format())
    }
}

/// Reads a `creation_time` tag.
pub fn parse_creation_tag(tag: &str) -> (r: Option<Timestamp>)
    ensures
        r == tag_instant(tag@),
{
    match parse_rfc3339(tag) {
        Some(t) => Some(t),
        None => match parse_zoned(tag, "%Y-%m-%d %H:%M:%S%.f %z") {
            Some(t) => Some(t),
            None => parse_naive_utc(tag, "%Y-%m-%d %H:%M:%S"),
        },
    }
}

/// `std::path::Path::file_name`, as text where the name is Unicode.  What
/// counts as the final component of a path differs between platforms, so
/// nothing is claimed of the result.
#[verifier::external_body]
pub(crate) fn final_component(path: &str) -> Option<String> {
    std::path::Path::new(path).file_name().and_then(|name| name.to_str()).map(
        |name| name.to_owned(),
    )
}

/// `s` with every hyphen replaced by a colon.
pub open spec fn hyphens_to_colons(s: Seq<char>) -> Seq<char> {
    s.map_values(
        |c: char|
            if c == '-' {
                ':'
            } else {
                c
            },
    )
}

/// The date-and-time text held in a file name of the form
/// `<any>_<any>_<YYYY-MM-DD>_<HH-MM-SS>.<ext>`: the name is split on `_`,
/// there must be at least four pieces, the third is the date, and the
/// fourth up to its first `.` is the time, with `:` for each `-`.
pub open spec fn file_name_date_time(name: Seq<char>) -> Option<Seq<char>> {
    let parts = split(name, '_');
    if parts.len() >= 4 {
        Some(parts[2] + seq![' '] + hyphens_to_colons(split(parts[3], '.')[0]))
    } else {
        None
    }
}

/// The instant that a file name states, read as a date and time to the
/// second and declared to be in UTC.
pub open spec fn name_instant(name: Seq<char>) -> Option<Timestamp> {
    match file_name_date_time(name) {
        Some(text) => naive_instant(text, plain_format()),
        None => None,
    }
}

/// The instant that the name of a file states, where the path has a file
/// name at all.
pub open spec fn file_name_instant(name: Option<Seq<char>>) -> Option<Timestamp> {
    match name {
        Some(name) => name_instant(name),
        None => None,
    }
}

/// Extracts the date-and-time text from a file name.
pub fn date_time_in_file_name(name: &Vec<char>) -> (r: Option<String>)
    ensures
        match r {
            Some(text) => file_name_date_time(name@) == Some(text@),
            None => file_name_date_time(name@) is None,
        },
{
    let parts = split_chars(name, '_');
    assert(pieces_view(parts@).len() == parts@.len());
    if parts.len() >= 4 {
        assert(pieces_view(parts@)[2] == parts@[2]@);
        assert(pieces_view(parts@)[3] == parts@[3]@);
        let time_pieces = split_chars(&parts[3], '.');
        proof {
            lemma_split_join(parts@[3]@, '.');
        }
        assert(pieces_view(time_pieces@).len() == time_pieces@.len());
        assert(pieces_view(time_pieces@)[0] == time_pieces@[0]@);
        let time = &time_pieces[0];
        let mut text: Vec<char> = parts[2].clone();
        text.push(' ');
        let ghost head = parts@[2]@ + seq![' '];
        assert(text@ =~= head);
        let mut i: usize = 0;
        while i < time.len()
            invariant
                i <= time.len(),
                text@ == head + hyphens_to_colons(time@.take(i as int)),
            decreases time.len() - i,
        {
            let c = time[i];
            text.push(
                if c == '-' {
                    ':'
                } else {
                    c
                },
            );
            assert(text@ =~= head + hyphens_to_colons(time@.take(i + 1)));
            i += 1;
        }
        assert(time@.take(time.len() as int) =~= time@);
        Some(string_of(&text))
    } else {
        None
    }
}

/// Recovers a creation time from a file name.
pub fn time_in_file_name(name: &str) -> (r: Option<Timestamp>)
    ensures
        r == name_instant(name@),
{
    let chars = chars_of(name);
    match date_time_in_file_name(&chars) {
        Some(text) => parse_naive_utc(text.as_str(), "%Y-%m-%d %H:%M:%S"),
        None => None,
    }
}

/// Recovers a creation time from a file name, where there is one.
pub fn time_in_optional_file_name(name: &Option<String>) -> (r: Option<Timestamp>)
    ensures
        r == file_name_instant(
            match *name {
                Some(n) => Some(n@),
                None => None,
            },
        ),
{
    match name {
        Some(name) => time_in_file_name(name.as_str()),
        None => None,
    }
}

/// Recovers a creation time from the name of the file at `path`: whatever
/// the platform takes for the final component of the path is read as a
/// file name.
pub fn parse_time_from_filename(path: &str) -> (r: Option<Timestamp>)
    ensures
        exists|name: Option<Seq<char>>| r == #[trigger] file_name_instant(name),
{
    let name = final_component(path);
    let r = time_in_optional_file_name(&name);
    assert(r == file_name_instant(
        match name {
            Some(n) => Some(n@),
            None => None,
        },
    ));
    r
}

} // verus!
