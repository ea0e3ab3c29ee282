//! Removing the indentation that the lines of a text share.

use vstd::prelude::*;
use crate::text::{join, joined_with, slice, texts, to_chars};

verus! {

/// White space, as Unicode defines it.
pub open spec fn is_space(c: char) -> bool {
    let n = c as u32;
    ||| 0x09 <= n <= 0x0d
    ||| n == 0x20
    ||| n == 0x85
    ||| n == 0xa0
    ||| n == 0x1680
    ||| 0x2000 <= n <= 0x200a
    ||| n == 0x2028
    ||| n == 0x2029
    ||| n == 0x202f
    ||| n == 0x205f
    ||| n == 0x3000
}

/// The length of the first line of a text, without its line ending.
pub open spec fn line_end(s: Seq<char>) -> nat
    decreases s.len(),
{
    if s.len() == 0 || s[0] == '\n' {
        0
    } else {
        1 + line_end(s.skip(1))
    }
}

/// A line without the carriage return before its line feed.
pub open spec fn without_cr(line: Seq<char>) -> Seq<char> {
    if line.len() > 0 && line.last() == '\r' {
        line.drop_last()
    } else {
        line
    }
}

/// The lines of a text. A line ends with a line feed, or with a carriage
/// return and a line feed; the last line needs no ending, and a text that
/// ends with a line ending has no empty line after it.
pub open spec fn lines(s: Seq<char>) -> Seq<Seq<char>>
    decreases s.len(),
{
    if s.len() == 0 {
        Seq::empty()
    } else {
        let end = line_end(s);
        if end >= s.len() {
            seq![s]
        } else {
            seq![without_cr(s.take(end as int))] + lines(s.skip(end as int + 1))
        }
    }
}

/// The number of bytes that a character takes in UTF-8.
pub open spec fn utf8_len(c: char) -> nat {
    let n = c as u32;
    if n < 0x80 {
        1
    } else if n < 0x800 {
        2
    } else if n < 0x10000 {
        3
    } else {
        4
    }
}

/// The number of bytes that a text takes in UTF-8.
pub open spec fn width(s: Seq<char>) -> nat
    decreases s.len(),
{
    if s.len() == 0 {
        0
    } else {
        width(s.drop_last()) + utf8_len(s.last())
    }
}

/// The number of white-space characters that a line begins with.
pub open spec fn leading(line: Seq<char>) -> nat
    decreases line.len(),
{
    if line.len() > 0 && is_space(line[0]) {
        1 + leading(line.skip(1))
    } else {
        0
    }
}

/// The indentation of a line: the number of bytes that the white space it
/// begins with takes in UTF-8.
pub open spec fn indent(line: Seq<char>) -> nat {
    width(line.take(leading(line) as int))
}

/// The line holds nothing but white space.
pub open spec fn blank(line: Seq<char>) -> bool {
    leading(line) == line.len()
}

/// The least indentation among the lines that are not blank, if there is
/// such a line.
pub open spec fn least_indent(lines: Seq<Seq<char>>) -> Option<nat>
    decreases lines.len(),
{
    if lines.len() == 0 {
        None
    } else {
        let before = least_indent(lines.drop_last());
        let line = lines.last();
        if blank(line) {
            before
        } else {
            match before {
                Some(least) if least <= indent(line) => Some(least),
                _ => Some(indent(line)),
            }
        }
    }
}

/// The number of characters that the first `bytes` bytes of a line reach
/// into it, looked for from the count `k` on: the first count at which the
/// characters before it take at least that many bytes, or the line ends.
pub open spec fn cut_from(line: Seq<char>, bytes: nat, k: nat) -> nat
    decreases line.len() - k,
{
    if k >= line.len() || width(line.take(k as int)) >= bytes {
        k
    } else {
        cut_from(line, bytes, k + 1)
    }
}

/// A line without its first `by` bytes; a blank line becomes empty. A
/// character of which only a part is among these bytes goes as a whole.
pub open spec fn shifted(line: Seq<char>, by: nat) -> Seq<char> {
    if blank(line) {
        Seq::empty()
    } else {
        line.skip(cut_from(line, by, 0) as int)
    }
}

/// The indentation that is removed: the least among the lines that are not
/// blank, and none where every line is blank.
pub open spec fn shared_indent(lines: Seq<Seq<char>>) -> nat {
    match least_indent(lines) {
        Some(least) => least,
        None => 0,
    }
}

/// A text without the indentation that its lines share: each line that is
/// not blank loses as many bytes as the least indented of them begins with
/// white space, each blank line becomes empty, and the lines are put
/// together again with a line feed between each two. Indentation is counted
/// in bytes of UTF-8, as offsets into a string are.
pub open spec fn dedented(s: Seq<char>) -> Seq<char> {
    let all = lines(s);
    joined_with(Seq::new(all.len(), |i: int| shifted(all[i], shared_indent(all))), seq!['\n'])
}

proof fn line_end_is_first_feed(s: Seq<char>, k: int)
    requires
        0 <= k <= s.len(),
        forall|i: int| 0 <= i < k ==> s[i] != '\n',
        k == s.len() || s[k] == '\n',
    ensures
        line_end(s) == k,
    decreases k,
{
    if k > 0 {
        line_end_is_first_feed(s.skip(1), k - 1);
    }
}

proof fn leading_is_first_mark(line: Seq<char>, k: int)
    requires
        0 <= k <= line.len(),
        forall|i: int| 0 <= i < k ==> is_space(line[i]),
        k == line.len() || !is_space(line[k]),
    ensures
        leading(line) == k,
    decreases k,
{
    if k > 0 {
        leading_is_first_mark(line.skip(1), k - 1);
    }
}

proof fn width_grows_by_one_character(line: Seq<char>, k: int)
    requires
        0 <= k < line.len(),
    ensures
        width(line.take(k + 1)) == width(line.take(k)) + utf8_len(line[k]),
{
    assert(line.take(k + 1).drop_last() =~= line.take(k));
}

/// Whether a character is white space.
pub fn is_whitespace(c: char) -> (r: bool)
    ensures
        r == is_space(c),
{
    let n: u32 = c as u32;
    (0x09 <= n && n <= 0x0d) || n == 0x20 || n == 0x85 || n == 0xa0 || n == 0x1680 || (0x2000 <= n
        && n <= 0x200a) || n == 0x2028 || n == 0x2029 || n == 0x202f || n == 0x205f || n == 0x3000
}

/// The lines of a text.
pub fn split_lines(s: &str) -> (r: Vec<String>)
    ensures
        texts(r@) == lines(s@),
{
    let chars = to_chars(s);
    let n = chars.len();
    let mut out: Vec<String> = Vec::new();
    let mut start: usize = 0;
    assert(s@.skip(0) == s@);
    assert(texts(out@) + lines(s@) =~= lines(s@));
    while start < n
        invariant
            chars@ == s@,
            n == chars.len(),
            start <= n,
            lines(s@) == texts(out@) + lines(s@.skip(start as int)),
        decreases n - start,
    {
        let ghost rest = s@.skip(start as int);
        let ghost before = texts(out@);
        let mut end: usize = start;
        while end < n && chars[end] != '\n'
            invariant
                chars@ == s@,
                n == chars.len(),
                start <= end <= n,
                forall|i: int| start <= i < end ==> s@[i] != '\n',
            decreases n - end,
        {
            end += 1;
        }
        proof {
            line_end_is_first_feed(rest, end - start);
        }
        if end == n {
            let line = slice(s, start, n);
            assert(s@.subrange(start as int, n as int) == rest);
            out.push(line);
            assert(texts(out@) =~= before + seq![rest]);
            start = n;
            assert(lines(s@.skip(n as int)) =~= Seq::<Seq<char>>::empty());
            assert(before + seq![rest] + Seq::<Seq<char>>::empty() =~= before + lines(rest));
        } else {
            let stop: usize = if end > start && chars[end - 1] == '\r' {
                end - 1
            } else {
                end
            };
            let line = slice(s, start, stop);
            proof {
                let raw = rest.take(end - start);
                assert(raw == s@.subrange(start as int, end as int));
                if end > start {
                    assert(raw.last() == s@[end - 1]);
                }
                assert(line@ =~= without_cr(raw));
                assert(rest.skip(end - start + 1) == s@.skip(end + 1));
            }
            out.push(line);
            assert(texts(out@) =~= before + seq![line@]);
            assert(before + seq![line@] + lines(s@.skip(end + 1)) =~= before + lines(rest));
            start = end + 1;
        }
    }
    assert(lines(s@.skip(start as int)) =~= Seq::<Seq<char>>::empty());
    assert(texts(out@) + Seq::<Seq<char>>::empty() =~= texts(out@));
    out
}

/// The number of bytes that a character takes in UTF-8.
pub fn char_width(c: char) -> (r: u128)
    ensures
        r == utf8_len(c),
{
    let n: u32 = c as u32;
    if n < 0x80 {
        1
    } else if n < 0x800 {
        2
    } else if n < 0x10000 {
        3
    } else {
        4
    }
}

/// The white space that a line begins with: its number of characters, and
/// the number of bytes it takes, which is the indentation of the line.
pub fn measure_indent(line: &str) -> (r: (usize, u128))
    ensures
        r.0 == leading(line@),
        r.1 == indent(line@),
        r.0 <= line@.len(),
{
    let chars = to_chars(line);
    let mut k: usize = 0;
    let mut bytes: u128 = 0;
    assert(line@.take(0) =~= Seq::<char>::empty());
    while k < chars.len() && is_whitespace(chars[k])
        invariant
            chars@ == line@,
            k <= chars.len(),
            forall|i: int| 0 <= i < k ==> is_space(line@[i]),
            bytes == width(line@.take(k as int)),
            bytes <= 4 * k,
        decreases chars.len() - k,
    {
        proof {
            width_grows_by_one_character(line@, k as int);
        }
        bytes = bytes + char_width(chars[k]);
        k += 1;
    }
    proof {
        leading_is_first_mark(line@, k as int);
    }
    (k, bytes)
}

/// A line without its first `by` bytes.
pub fn cut(line: &str, by: u128) -> (r: String)
    ensures
        r@ == line@.skip(cut_from(line@, by as nat, 0) as int),
{
    let chars = to_chars(line);
    let mut k: usize = 0;
    let mut bytes: u128 = 0;
    assert(line@.take(0) =~= Seq::<char>::empty());
    while k < chars.len() && bytes < by
        invariant
            chars@ == line@,
            k <= chars.len(),
            bytes == width(line@.take(k as int)),
            bytes <= 4 * k,
            cut_from(line@, by as nat, 0) == cut_from(line@, by as nat, k as nat),
        decreases chars.len() - k,
    {
        proof {
            width_grows_by_one_character(line@, k as int);
        }
        bytes = bytes + char_width(chars[k]);
        k += 1;
    }
    assert(line@.subrange(k as int, line@.len() as int) == line@.skip(k as int));
    slice(line, k, chars.len())
}

/// Removes the indentation that the lines of a text share.
pub fn dedent(s: &str) -> (r: String)
    ensures
        r@ == dedented(s@),
{
    let all = split_lines(s);
    let ghost views = texts(all@);
    let mut least: Option<u128> = None;
    let mut i: usize = 0;
    assert(views.take(0) =~= Seq::<Seq<char>>::empty());
    while i < all.len()
        invariant
            i <= all.len(),
            views == texts(all@),
            match least {
                Some(m) => least_indent(views.take(i as int)) == Some(m as nat),
                None => least_indent(views.take(i as int)) is None,
            },
        decreases all.len() - i,
    {
        let line = all[i].as_str();
        let (count, bytes) = measure_indent(line);
        proof {
            assert(views.take(i + 1).drop_last() =~= views.take(i as int));
            assert(views.take(i + 1).last() == line@);
        }
        if count < line.unicode_len() {
            least = match least {
                Some(m) if m <= bytes => Some(m),
                _ => Some(bytes),
            };
        }
        i += 1;
    }
    assert(views.take(all.len() as int) =~= views);
    let by: u128 = match least {
        Some(m) => m,
        None => 0,
    };
    let mut out: Vec<String> = Vec::new();
    let mut j: usize = 0;
    while j < all.len()
        invariant
            j <= all.len(),
            out.len() == j,
            views == texts(all@),
            by == shared_indent(views),
            forall|k: int| 0 <= k < j ==> out@[k]@ == shifted(views[k], by as nat),
        decreases all.len() - j,
    {
        let line = all[j].as_str();
        let (count, _) = measure_indent(line);
        assert(views[j as int] == line@);
        if count < line.unicode_len() {
            out.push(cut(line, by));
        } else {
            out.push(String::new());
        }
        j += 1;
    }
    proof {
        reveal_strlit("\n");
        assert("\n"@ == seq!['\n']);
        assert(texts(out@) =~= Seq::new(views.len(), |i: int| shifted(views[i], by as nat)));
    }
    join(&out, "\n")
}

/// What is removed from a line lies within its indentation: no line that is
/// not blank is indented less than the lines share, so that only white
/// space is removed.
pub proof fn only_indentation_is_removed(lines: Seq<Seq<char>>, i: int)
    requires
        0 <= i < lines.len(),
        !blank(lines[i]),
    ensures
        least_indent(lines) is Some,
        shared_indent(lines) <= indent(lines[i]),
        cut_from(lines[i], shared_indent(lines), 0) <= leading(lines[i]),
        forall|k: int|
            0 <= k < cut_from(lines[i], shared_indent(lines), 0) ==> is_space(
                #[trigger] lines[i][k],
            ),
    decreases lines.len(),
{
    let line = lines[i];
    if i < lines.len() - 1 {
        only_indentation_is_removed(lines.drop_last(), i);
    }
    leading_is_bounded(line);
    cut_stops_within(line, shared_indent(lines), 0, leading(line));
    assert forall|k: int| 0 <= k < leading(line) implies is_space(#[trigger] line[k]) by {
        leading_is_white(line, k);
    }
}

proof fn leading_is_bounded(line: Seq<char>)
    ensures
        leading(line) <= line.len(),
    decreases line.len(),
{
    if line.len() > 0 && is_space(line[0]) {
        leading_is_bounded(line.skip(1));
    }
}

proof fn leading_is_white(line: Seq<char>, k: int)
    requires
        0 <= k < leading(line),
    ensures
        k < line.len(),
        is_space(line[k]),
    decreases line.len(),
{
    if k > 0 {
        leading_is_white(line.skip(1), k - 1);
    }
}

proof fn cut_stops_within(line: Seq<char>, bytes: nat, k: nat, stop: nat)
    requires
        k <= stop <= line.len(),
        width(line.take(stop as int)) >= bytes,
    ensures
        cut_from(line, bytes, k) <= stop,
    decreases stop - k,
{
    if k < stop && width(line.take(k as int)) < bytes {
        cut_stops_within(line, bytes, k + 1, stop);
    }
}

} // verus!
