use vstd::prelude::*;
use crate::text::{chars_of, contains_char, join};

verus! {

/// An instant in UTC: whole seconds since the Unix epoch and the nanoseconds
/// that follow them. During a leap second `nanos` runs past 999,999,999.
#[derive(Clone, Copy, Debug, PartialEq, Eq)]
pub struct ResDateTime {
    pub secs: i64,
    pub nanos: u32,
}

/// A timestamp text that is no RFC 3339 date and time. `text` is what was
/// handed to the parser, after the UTC marker was added where it was missing.
#[derive(Clone, Debug, PartialEq, Eq)]
pub struct TimestampError {
    pub text: String,
}

/// The instant that chrono reads from an RFC 3339 text, converted to UTC,
/// or `None` where chrono rejects the text.
pub uninterp spec fn rfc3339_instant(text: Seq<char>) -> Option<(i64, u32)>;

/// The RFC 3339 text that chrono writes for a UTC instant, or `None` where
/// chrono cannot represent the instant.
pub uninterp spec fn rfc3339_text(secs: i64, nanos: u32) -> Option<Seq<char>>;

/// The first second of the year 0000, counted from the epoch.
pub const FIRST_PLAIN_SECOND: i64 = -62_167_219_200;

/// The last second of the year 9999, counted from the epoch.
pub const LAST_PLAIN_SECOND: i64 = 253_402_300_799;

/// The offset with which chrono ends the text of a UTC instant.
pub open spec fn utc_offset_suffix() -> Seq<char> {
    seq!['+', '0', '0', ':', '0', '0']
}

/// Whether a character is a decimal digit.
pub open spec fn is_digit(c: char) -> bool {
    '0' <= c && c <= '9'
}

/// Whether a character is the sign of an offset: a plus, a hyphen or the
/// minus sign.
pub open spec fn is_offset_sign(c: char) -> bool {
    c == '+' || c == '-' || c == '\u{2212}'
}

/// Whether a text ends in an offset from UTC: a sign, two digits of hours,
/// a colon and two digits of minutes.
pub open spec fn ends_in_offset(text: Seq<char>) -> bool {
    let n = text.len() as int;
    &&& n >= 6
    &&& is_offset_sign(text[n - 6])
    &&& is_digit(text[n - 5])
    &&& is_digit(text[n - 4])
    &&& text[n - 3] == ':'
    &&& is_digit(text[n - 2])
    &&& is_digit(text[n - 1])
}

/// Whether a timestamp text says where its time is counted from: it names
/// UTC with a `Z` anywhere or a `z` at its end, holds a `+`, or ends in an
/// offset of either sign.
pub open spec fn has_marker(text: Seq<char>) -> bool {
    ||| text.contains('Z')
    ||| text.contains('+')
    ||| (text.len() > 0 && text.last() == 'z')
    ||| ends_in_offset(text)
}

/// A timestamp text as it is handed to the parser: a text without a marker
/// of UTC or of an offset is taken as UTC and gets a `Z` at its end; any
/// other text stays as it is.
pub open spec fn utc_marked(text: Seq<char>) -> Seq<char> {
    if has_marker(text) {
        text
    } else {
        text.push('Z')
    }
}

/// Calls `chrono::DateTime::parse_from_rfc3339` and converts the result to
/// UTC. Trusted: the result is a function of the text alone, named
/// `rfc3339_instant`; and an instant that chrono has parsed is one that
/// chrono can write again, as its documentation of `from_timestamp` shows.
#[verifier::external_body]
fn parse_rfc3339(text: &str) -> (r: Option<(i64, u32)>)
    ensures
        r == rfc3339_instant(text@),
        r matches Some(t) ==> rfc3339_text(t.0, t.1) is Some,
{
    match chrono::DateTime::parse_from_rfc3339(text) {
        Ok(dt) => {
            let utc = chrono::DateTime::<chrono::Utc>::from(dt);
            Some((utc.timestamp(), utc.timestamp_subsec_nanos()))
        },
        Err(_) => None,
    }
}

/// Calls `chrono::DateTime::from_timestamp` and, on the instant it gives,
/// `to_rfc3339`. Trusted: the result is a function of the two numbers alone,
/// named `rfc3339_text`; a text that comes out ends in the offset `+00:00`,
/// which is how chrono writes the offset of UTC; and for an instant in a
/// year of four digits the text is a valid RFC 3339 date and time, which
/// chrono's parser reads as the instant that was written.
#[verifier::external_body]
fn write_rfc3339(secs: i64, nanos: u32) -> (r: Option<String>)
    ensures
        r is Some <==> rfc3339_text(secs, nanos) is Some,
        r matches Some(t) ==> rfc3339_text(secs, nanos) == Some(t@) && ends_in_utc_offset(t@),
        r matches Some(t) ==> (FIRST_PLAIN_SECOND <= secs <= LAST_PLAIN_SECOND ==> rfc3339_instant(
            t@,
        ) == Some((secs, nanos))),
{
    match chrono::DateTime::from_timestamp(secs, nanos) {
        Some(dt) => Some(dt.to_rfc3339()),
        None => None,
    }
}

/// Reads the system clock through `std::time::SystemTime::now` and converts
/// it with chrono. Trusted: which instant comes is open, but chrono makes
/// it from whole seconds and a count of nanoseconds below one second, and
/// hands it out only where it can hold it; so the instant is no leap
/// second and is one that chrono can write.
#[verifier::external_body]
fn system_now() -> (r: ResDateTime)
    ensures
        r.nanos < 1_000_000_000,
        rfc3339_text(r.secs, r.nanos) is Some,
{
    let dt: chrono::DateTime<chrono::Utc> = std::time::SystemTime::now().into();
    ResDateTime { secs: dt.timestamp(), nanos: dt.timestamp_subsec_nanos() }
}

/// Whether a text ends in `+00:00`.
pub open spec fn ends_in_utc_offset(text: Seq<char>) -> bool {
    text.len() >= 6 && text.subrange(text.len() - 6, text.len() as int) == utc_offset_suffix()
}

impl ResDateTime {
    /// Whether this instant lies in a year that is written with four
    /// digits, from 0000 to 9999.
    pub open spec fn in_plain_years(self) -> bool {
        FIRST_PLAIN_SECOND <= self.secs <= LAST_PLAIN_SECOND
    }

    /// Whether this instant is not later than `other`.
    pub open spec fn not_after(self, other: ResDateTime) -> bool {
        self.secs < other.secs || (self.secs == other.secs && self.nanos <= other.nanos)
    }

    /// The instant `secs` seconds and `nanos` nanoseconds after the epoch.
    pub fn new(secs: i64, nanos: u32) -> (r: ResDateTime)
        ensures
            r.secs == secs,
            r.nanos == nanos,
    {
        ResDateTime { secs, nanos }
    }

    /// The present instant, read from the system clock. Whatever the clock
    /// says, the instant lies within a second (the clock reports no leap
    /// second) and within the dates that can be written as a text.
    pub fn now() -> (r: ResDateTime)
        ensures
            r.nanos < 1_000_000_000,
            rfc3339_text(r.secs, r.nanos) is Some,
    {
        system_now()
    }

    /// Whether this instant is at or before `other`.
    pub fn is_not_after(&self, other: &ResDateTime) -> (r: bool)
        ensures
            r == self.not_after(*other),
    {
        self.secs < other.secs || (self.secs == other.secs && self.nanos <= other.nanos)
    }

    /// Whether a timestamp text says where its time is counted from.
    pub fn is_marked(text: &str) -> (r: bool)
        ensures
            r == has_marker(text@),
    {
        if contains_char(text, 'Z') || contains_char(text, '+') {
            return true;
        }
        let chars = chars_of(text);
        let n = chars.len();
        if n > 0 && chars[n - 1] == 'z' {
            return true;
        }
        n >= 6 && (chars[n - 6] == '+' || chars[n - 6] == '-' || chars[n - 6] == '\u{2212}')
            && ('0' <= chars[n - 5] && chars[n - 5] <= '9') && ('0' <= chars[n - 4] && chars[n
            - 4] <= '9') && chars[n - 3] == ':' && ('0' <= chars[n - 2] && chars[n - 2] <= '9')
            && ('0' <= chars[n - 1] && chars[n - 1] <= '9')
    }

    /// A timestamp text as it is handed to the parser: with a `Z` at its
    /// end where it has no marker of UTC or of an offset.
    pub fn mark_utc(text: &str) -> (r: String)
        ensures
            r@ == utc_marked(text@),
    {
        if Self::is_marked(text) {
            text.to_owned()
        } else {
            proof {
                reveal_strlit("Z");
                assert(text@ + "Z"@ =~= text@.push('Z'));
            }
            join(text, "Z")
        }
    }

    /// What the parser's reading of a marked text amounts to: the instant
    /// that it read, or the error that holds the text that it refused.
    pub fn from_parsed(marked: String, parsed: Option<(i64, u32)>) -> (r: Result<
        ResDateTime,
        TimestampError,
    >)
        ensures
            match parsed {
                Some(t) => r == Ok::<ResDateTime, TimestampError>(
                    ResDateTime { secs: t.0, nanos: t.1 },
                ),
                None => r == Err::<ResDateTime, TimestampError>(TimestampError { text: marked }),
            },
    {
        match parsed {
            Some(t) => Ok(ResDateTime { secs: t.0, nanos: t.1 }),
            None => Err(TimestampError { text: marked }),
        }
    }

    /// Decodes a timestamp text. A text without a marker of UTC or of an
    /// offset is read as UTC; the rest is chrono's reading of RFC 3339.
    pub fn parse(text: &str) -> (r: Result<ResDateTime, TimestampError>)
        ensures
            match rfc3339_instant(utc_marked(text@)) {
                Some(t) => r == Ok::<ResDateTime, TimestampError>(
                    ResDateTime { secs: t.0, nanos: t.1 },
                ),
                None => r is Err && r->Err_0.text@ == utc_marked(text@),
            },
            r matches Ok(t) ==> rfc3339_text(t.secs, t.nanos) is Some,
    {
        let marked = Self::mark_utc(text);
        let parsed = parse_rfc3339(marked.as_str());
        Self::from_parsed(marked, parsed)
    }

    /// The RFC 3339 text of this instant, with the offset `+00:00`; `None`
    /// where the instant lies outside the range of dates that chrono holds.
    /// The text of an instant in a year of four digits, when it is decoded
    /// again, gives the instant back.
    pub fn to_rfc3339(&self) -> (r: Option<String>)
        ensures
            r is Some <==> rfc3339_text(self.secs, self.nanos) is Some,
            r matches Some(t) ==> rfc3339_text(self.secs, self.nanos) == Some(t@)
                && ends_in_utc_offset(t@) && utc_marked(t@) == t@,
            r matches Some(t) ==> (self.in_plain_years() ==> rfc3339_instant(utc_marked(t@))
                == Some((self.secs, self.nanos))),
    {
        let r = write_rfc3339(self.secs, self.nanos);
        proof {
            if r is Some {
                lemma_written_text_is_marked(r->0@);
            }
        }
        r
    }
}

/// A text that ends in the offset `+00:00` carries a marker, so it is
/// handed to the parser as it stands.
pub proof fn lemma_written_text_is_marked(text: Seq<char>)
    requires
        ends_in_utc_offset(text),
    ensures
        has_marker(text),
        utc_marked(text) == text,
{
    let n = text.len() as int;
    assert(text[n - 6] == text.subrange(n - 6, n)[0]);
    assert(text.contains('+'));
}

} // verus!
