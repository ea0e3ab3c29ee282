//! The time of a run, as the name of its archive and its history entry
//! carry it. The library does not read the clock: whoever drives it hands in
//! the local time of the moment, written in the two patterns of this module,
//! and the library takes it up only if both texts spell one moment.

use vstd::prelude::*;
use crate::text::{chain3, same, slice, to_chars};

verus! {

/// The pattern of the time in the name of a backup archive: year, month,
/// day, hour, minute and second in a row.
pub const ARCHIVE_PATTERN: &'static str = "%Y%m%d%H%M%S";

/// The pattern of the time in a history entry: the same parts with dashes
/// between them, two between the day and the hour.
pub const HISTORY_PATTERN: &'static str = "%Y-%m-%d--%H-%M-%S";

/// A decimal digit.
pub open spec fn is_digit(c: char) -> bool {
    0x30 <= c as u32 <= 0x39
}

/// The text holds decimal digits only.
pub open spec fn all_digits(t: Seq<char>) -> bool {
    forall|i: int| 0 <= i < t.len() ==> is_digit(#[trigger] t[i])
}

/// A year: in four digits, or with a sign before four or more digits.
pub open spec fn year_digits(t: Seq<char>) -> bool {
    ||| t.len() == 4 && all_digits(t)
    ||| t.len() >= 5 && (t[0] == '+' || t[0] == '-') && all_digits(t.skip(1))
}

/// The year of a time written in the pattern of archive names: what stands
/// before the ten digits of month, day, hour, minute and second.
pub open spec fn year_of(t: Seq<char>) -> Seq<char> {
    t.take(t.len() - 10)
}

/// A time to the second in the pattern of archive names: a year, and the
/// month, day, hour, minute and second in two digits each.
pub open spec fn is_time(t: Seq<char>) -> bool {
    &&& t.len() >= 14
    &&& year_digits(year_of(t))
    &&& all_digits(t.skip(t.len() - 10))
}

/// A time of the pattern of archive names, written in the pattern of
/// history entries.
pub open spec fn dashed(t: Seq<char>) -> Seq<char> {
    let n = t.len() as int;
    year_of(t) + seq!['-'] + t.subrange(n - 10, n - 8) + seq!['-'] + t.subrange(n - 8, n - 6)
        + seq!['-', '-'] + t.subrange(n - 6, n - 4) + seq!['-'] + t.subrange(n - 4, n - 2)
        + seq!['-'] + t.subrange(n - 2, n)
}

/// `Stamps` as a mathematical value.
pub struct StampsView {
    pub archive: Seq<char>,
    pub history: Seq<char>,
}

/// The two texts spell one moment, each in its pattern.
pub open spec fn spells_one_moment(stamps: StampsView) -> bool {
    is_time(stamps.archive) && stamps.history == dashed(stamps.archive)
}

/// One moment, to the second, written in both patterns. Every value of
/// this type spells one moment.
#[derive(Debug)]
pub struct Stamps {
    archive: String,
    history: String,
}

impl View for Stamps {
    type V = StampsView;

    closed spec fn view(&self) -> StampsView {
        StampsView { archive: self.archive@, history: self.history@ }
    }
}

/// Whether the characters from `from` up to `to` are decimal digits.
fn digits_only(chars: &Vec<char>, from: usize, to: usize) -> (r: bool)
    requires
        from <= to <= chars.len(),
    ensures
        r == all_digits(chars@.subrange(from as int, to as int)),
{
    let ghost part = chars@.subrange(from as int, to as int);
    let mut i: usize = from;
    while i < to
        invariant
            from <= i <= to <= chars.len(),
            part == chars@.subrange(from as int, to as int),
            forall|j: int| 0 <= j < i - from ==> is_digit(#[trigger] part[j]),
        decreases to - i,
    {
        let n: u32 = chars[i] as u32;
        if n < 0x30 || n > 0x39 {
            assert(!is_digit(part[i - from]));
            return false;
        }
        i += 1;
    }
    true
}

/// Whether a text is a time to the second in the pattern of archive names.
pub fn spells_a_time(text: &str) -> (r: bool)
    ensures
        r == is_time(text@),
{
    let chars = to_chars(text);
    let n = chars.len();
    if n < 14 {
        return false;
    }
    let y: usize = n - 10;
    assert(chars@.subrange(y as int, n as int) == text@.skip(text@.len() - 10));
    assert(chars@.subrange(0, y as int) == year_of(text@));
    if !digits_only(&chars, y, n) {
        return false;
    }
    if y == 4 {
        digits_only(&chars, 0, y)
    } else {
        assert(chars@.subrange(1, y as int) == year_of(text@).skip(1));
        (chars[0] == '+' || chars[0] == '-') && digits_only(&chars, 1, y)
    }
}

/// Writes a time of the pattern of archive names in the pattern of history
/// entries.
fn with_dashes(time: &str) -> (r: String)
    requires
        time@.len() >= 10,
    ensures
        r@ == dashed(time@),
{
    proof {
        reveal_strlit("-");
        reveal_strlit("--");
        assert("-"@ == seq!['-']);
        assert("--"@ == seq!['-', '-']);
    }
    let n = time.unicode_len();
    let mut r = slice(time, 0, n - 10);
    assert(time@.subrange(0, n - 10) == year_of(time@));
    r.append("-");
    r.append(slice(time, n - 10, n - 8).as_str());
    r.append("-");
    r.append(slice(time, n - 8, n - 6).as_str());
    r.append("--");
    r.append(slice(time, n - 6, n - 4).as_str());
    r.append("-");
    r.append(slice(time, n - 4, n - 2).as_str());
    r.append("-");
    r.append(slice(time, n - 2, n).as_str());
    r
}

impl Stamps {
    #[verifier::type_invariant]
    spec fn one_moment(&self) -> bool {
        spells_one_moment(self@)
    }

    /// Takes up the time of a moment as it was written in the two patterns.
    /// Texts that do not spell one moment are refused: the first must be a
    /// time to the second in the pattern of archive names, and the second
    /// the same time in the pattern of history entries.
    pub fn new(archive: &str, history: &str) -> (r: Option<Stamps>)
        ensures
            r is Some <==> spells_one_moment(
                StampsView { archive: archive@, history: history@ },
            ),
            r matches Some(stamps) ==> stamps@ == (StampsView {
                archive: archive@,
                history: history@,
            }),
    {
        if !spells_a_time(archive) {
            return None;
        }
        if !same(with_dashes(archive).as_str(), history) {
            return None;
        }
        Some(Stamps { archive: archive.to_owned(), history: history.to_owned() })
    }

    /// The moment in the pattern of archive names.
    pub fn archive(&self) -> (r: String)
        ensures
            r@ == self@.archive,
            spells_one_moment(self@),
    {
        proof {
            use_type_invariant(self);
        }
        self.archive.clone()
    }

    /// The moment in the pattern of history entries.
    pub fn history(&self) -> (r: String)
        ensures
            r@ == self@.history,
            spells_one_moment(self@),
    {
        proof {
            use_type_invariant(self);
        }
        self.history.clone()
    }
}

/// The file name of the backup archive made at a given time.
pub open spec fn archive_name(stamp: Seq<char>) -> Seq<char> {
    "backup_"@ + stamp + ".zip"@
}

/// The file name of the backup archive made at a given time.
pub fn name_archive(stamp: &str) -> (r: String)
    ensures
        r@ == archive_name(stamp@),
{
    chain3("backup_", stamp, ".zip")
}

/// Two archives have the same name only if they were made in the same
/// second: the name holds the time and nothing else that varies.
pub proof fn archive_names_differ_with_time(a: Seq<char>, b: Seq<char>)
    requires
        archive_name(a) == archive_name(b),
    ensures
        a == b,
{
    let p = "backup_"@;
    let s = ".zip"@;
    assert((p + a + s).len() == (p + b + s).len());
    assert(a.len() == b.len());
    assert forall|i: int| 0 <= i < a.len() implies a[i] == b[i] by {
        assert((p + a + s)[p.len() + i] == a[i]);
        assert((p + b + s)[p.len() + i] == b[i]);
    }
    assert(a =~= b);
}

/// The two spellings of a moment tell the same: the time of a history entry
/// is that of the archive name with six dashes put in, so that the one is
/// known from the other.
pub proof fn stamps_have_their_shape(stamps: StampsView)
    requires
        spells_one_moment(stamps),
    ensures
        stamps.archive.len() >= 14,
        stamps.history.len() == stamps.archive.len() + 6,
        forall|i: int|
            0 <= i < stamps.archive.len() ==> {
                let c = #[trigger] stamps.archive[i];
                is_digit(c) || (i == 0 && (c == '+' || c == '-'))
            },
{
    let t = stamps.archive;
    let y = t.len() - 10;
    assert forall|i: int| 0 <= i < t.len() implies {
        let c = #[trigger] t[i];
        is_digit(c) || (i == 0 && (c == '+' || c == '-'))
    } by {
        if i < y {
            assert(t[i] == year_of(t)[i]);
            if y != 4 && i > 0 {
                assert(year_of(t).skip(1)[i - 1] == t[i]);
            }
        } else {
            assert(t[i] == t.skip(y)[i - y]);
        }
    }
}

} // verus!
