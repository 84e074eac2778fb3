use vstd::prelude::*;

verus! {

/// A point in time: whole seconds since the Unix epoch (UTC) and the
/// nanoseconds past that second.
#[derive(Clone, Copy, Debug, PartialEq, Eq, Structural)]
pub struct Instant {
    pub secs: i64,
    pub nanos: u32,
}

impl Instant {
    pub open spec fn spec_before(self, other: Instant) -> bool {
        self.secs < other.secs || (self.secs == other.secs && self.nanos < other.nanos)
    }

    /// Whether `self` lies strictly before `other`.
    pub fn before(&self, other: &Instant) -> (r: bool)
        ensures
            r == self.spec_before(*other),
    {
        self.secs < other.secs || (self.secs == other.secs && self.nanos < other.nanos)
    }
}

/// What the leading timestamp of a log line says.
#[derive(Clone, Copy, Debug, PartialEq, Eq, Structural)]
pub enum Stamp {
    /// The line does not start with a timestamp: it continues the entry above it.
    Plain,
    /// The line starts with a timestamp for this instant.
    At(Instant),
    /// The line starts with text of the timestamp's shape that names no valid instant.
    Bad,
}

/// The instant that chrono reads from `text` in the log's timestamp format,
/// as seconds and nanoseconds since the epoch.
pub uninterp spec fn stamp_instant(text: Seq<char>) -> Option<(i64, u32)>;

/// Relies on chrono's `DateTime::parse_from_str` with the format
/// `%Y-%m-%d %H:%M:%S%.f %:z` (an optional fraction of a second, scaled by
/// its number of digits), and on `timestamp` / `timestamp_subsec_nanos`
/// of the parsed value: the result depends on the text alone.
#[verifier::external_body]
fn parse_stamp_text(text: &str) -> (r: Option<(i64, u32)>)
    ensures
        r == stamp_instant(text@),
{
    chrono::DateTime::parse_from_str(text, "%Y-%m-%d %H:%M:%S%.f %:z")
        .ok()
        .map(|t| (t.timestamp(), t.timestamp_subsec_nanos()))
}

pub open spec fn is_digit(c: char) -> bool {
    '0' <= c && c <= '9'
}

pub open spec fn digits_at(s: Seq<char>, start: int, n: int) -> bool {
    forall|i: int| start <= i < start + n ==> is_digit(#[trigger] s[i])
}

/// Where the space before the offset stands when the fraction has `k`
/// digits (`k == 0`: no fraction and no dot).
pub open spec fn zone_at(k: int) -> int {
    if k == 0 {
        19
    } else {
        20 + k
    }
}

/// `s` starts with `YYYY-MM-DD HH:MM:SS[.F] +HH:MM ` where the fraction `F`
/// has `k` digits (none where `k == 0`) and the offset sign is `+` or `-`.
pub open spec fn stamp_shape(s: Seq<char>, k: int) -> bool {
    let o = zone_at(k);
    &&& 0 <= k <= 3
    &&& s.len() >= o + 8
    &&& digits_at(s, 0, 4)
    &&& s[4] == '-'
    &&& digits_at(s, 5, 2)
    &&& s[7] == '-'
    &&& digits_at(s, 8, 2)
    &&& s[10] == ' '
    &&& digits_at(s, 11, 2)
    &&& s[13] == ':'
    &&& digits_at(s, 14, 2)
    &&& s[16] == ':'
    &&& digits_at(s, 17, 2)
    &&& (k > 0 ==> s[19] == '.' && digits_at(s, 20, k))
    &&& s[o] == ' '
    &&& (s[o + 1] == '+' || s[o + 1] == '-')
    &&& digits_at(s, o + 2, 2)
    &&& s[o + 4] == ':'
    &&& digits_at(s, o + 5, 2)
    &&& s[o + 7] == ' '
}

/// The length of the timestamp that starts `s`, without the space after it.
pub open spec fn stamp_len(s: Seq<char>) -> Option<int> {
    if stamp_shape(s, 0) {
        Some(26)
    } else if stamp_shape(s, 1) {
        Some(28)
    } else if stamp_shape(s, 2) {
        Some(29)
    } else if stamp_shape(s, 3) {
        Some(30)
    } else {
        None
    }
}

/// The timestamp of a log line.
pub open spec fn stamp_of(s: Seq<char>) -> Stamp {
    match stamp_len(s) {
        None => Stamp::Plain,
        Some(n) => match stamp_instant(s.subrange(0, n)) {
            Some(p) => Stamp::At(Instant { secs: p.0, nanos: p.1 }),
            None => Stamp::Bad,
        },
    }
}

fn char_is_digit(c: char) -> (r: bool)
    ensures
        r == is_digit(c),
{
    '0' <= c && c <= '9'
}

fn digits_in(line: &str, start: usize, n: usize) -> (r: bool)
    requires
        start + n <= line@.len(),
        line@.len() <= usize::MAX,
    ensures
        r == digits_at(line@, start as int, n as int),
{
    let mut i: usize = start;
    while i < start + n
        invariant
            start <= i <= start + n,
            start + n <= line@.len(),
            line@.len() <= usize::MAX,
            digits_at(line@, start as int, i - start),
        decreases start + n - i,
    {
        if !char_is_digit(line.get_char(i)) {
            return false;
        }
        i = i + 1;
    }
    true
}

fn shape_in(line: &str, len: usize, k: usize) -> (r: bool)
    requires
        len == line@.len(),
        k <= 3,
    ensures
        r == stamp_shape(line@, k as int),
{
    let o: usize = if k == 0 {
        19
    } else {
        20 + k
    };
    len >= o + 8
        && digits_in(line, 0, 4)
        && line.get_char(4) == '-'
        && digits_in(line, 5, 2)
        && line.get_char(7) == '-'
        && digits_in(line, 8, 2)
        && line.get_char(10) == ' '
        && digits_in(line, 11, 2)
        && line.get_char(13) == ':'
        && digits_in(line, 14, 2)
        && line.get_char(16) == ':'
        && digits_in(line, 17, 2)
        && (k == 0 || (line.get_char(19) == '.' && digits_in(line, 20, k)))
        && line.get_char(o) == ' '
        && (line.get_char(o + 1) == '+' || line.get_char(o + 1) == '-')
        && digits_in(line, o + 2, 2)
        && line.get_char(o + 4) == ':'
        && digits_in(line, o + 5, 2)
        && line.get_char(o + 7) == ' '
}

/// Reads the timestamp at the start of a log line.
pub fn line_stamp(line: &str) -> (r: Stamp)
    ensures
        r == stamp_of(line@),
{
    let len = line.unicode_len();
    let n: usize = if shape_in(line, len, 0) {
        26
    } else if shape_in(line, len, 1) {
        28
    } else if shape_in(line, len, 2) {
        29
    } else if shape_in(line, len, 3) {
        30
    } else {
        return Stamp::Plain;
    };
    let text = line.substring_char(0, n);
    match parse_stamp_text(text) {
        Some(p) => Stamp::At(Instant { secs: p.0, nanos: p.1 }),
        None => Stamp::Bad,
    }
}

} // verus!
