//! Searching and assembling text, stated over sequences of characters.

use vstd::prelude::*;
use vstd::string::*;

verus! {

/// `needle` stands in `text` at offset `at`.
pub open spec fn occurs_at(text: Seq<char>, needle: Seq<char>, at: int) -> bool {
    &&& 0 <= at
    &&& at + needle.len() <= text.len()
    &&& text.subrange(at, at + needle.len()) == needle
}

/// `needle` stands somewhere in `text`.
pub open spec fn occurs(text: Seq<char>, needle: Seq<char>) -> bool {
    exists|at: int| occurs_at(text, needle, at)
}

/// The characters of `s`, in order.
pub fn to_chars(s: &str) -> (v: Vec<char>)
    ensures
        v@ == s@,
{
    let mut v: Vec<char> = Vec::new();
    for c in it: s.chars()
        invariant
            it.seq() == s@,
            v@ == s@.take(it.index() as int),
    {
        v.push(c);
    }
    v
}

/// Whether `needle` stands in `text` at offset `at`.
pub fn matches_at(text: &Vec<char>, needle: &Vec<char>, at: usize) -> (r: bool)
    ensures
        r == occurs_at(text@, needle@, at as int),
{
    if needle.len() > text.len() || at > text.len() - needle.len() {
        return false;
    }
    let mut k: usize = 0;
    while k < needle.len()
        invariant
            k <= needle.len(),
            at + needle.len() <= text.len(),
            forall|j: int| 0 <= j < k ==> text@[at + j] == needle@[j],
        decreases needle.len() - k,
    {
        if text[at + k] != needle[k] {
            assert(text@.subrange(at as int, at + needle.len())[k as int] != needle@[k as int]);
            return false;
        }
        k += 1;
    }
    assert(text@.subrange(at as int, at + needle.len()) =~= needle@);
    true
}

/// Whether `text` begins with `prefix`.
pub fn starts_with(text: &Vec<char>, prefix: &Vec<char>) -> (r: bool)
    ensures
        r == prefix@.is_prefix_of(text@),
{
    let r = matches_at(text, prefix, 0);
    r
}

/// Whether `needle` stands somewhere in `text`.
pub fn contains(text: &Vec<char>, needle: &Vec<char>) -> (r: bool)
    ensures
        r == occurs(text@, needle@),
{
    if needle.len() > text.len() {
        return false;
    }
    let stop: usize = text.len() - needle.len();
    let mut at: usize = 0;
    loop
        invariant
            stop == text.len() - needle.len(),
            at <= stop,
            forall|j: int| 0 <= j < at ==> !occurs_at(text@, needle@, j),
        decreases stop - at,
    {
        if matches_at(text, needle, at) {
            return true;
        }
        if at == stop {
            return false;
        }
        at += 1;
    }
}

/// The views of a list of strings, in order.
pub open spec fn texts(v: Seq<String>) -> Seq<Seq<char>> {
    Seq::new(v.len(), |i: int| v[i]@)
}

/// Whether two strings hold the same characters.
pub fn same(a: &str, b: &str) -> (r: bool)
    ensures
        r == (a@ == b@),
{
    let x = to_chars(a);
    let y = to_chars(b);
    if x.len() != y.len() {
        return false;
    }
    let r = matches_at(&x, &y, 0);
    assert(x@.subrange(0, x@.len() as int) == x@);
    r
}

/// The characters of `s` from offset `from` up to, not including, `to`.
pub fn slice(s: &str, from: usize, to: usize) -> (r: String)
    requires
        from <= to <= s@.len(),
    ensures
        r@ == s@.subrange(from as int, to as int),
{
    s.substring_char(from, to).to_owned()
}

/// `a` followed by `b`.
pub fn chain(a: &str, b: &str) -> (r: String)
    ensures
        r@ == a@ + b@,
{
    let mut r = a.to_owned();
    r.append(b);
    r
}

/// `a`, `b` and `c` in a row.
pub fn chain3(a: &str, b: &str, c: &str) -> (r: String)
    ensures
        r@ == a@ + b@ + c@,
{
    let mut r = a.to_owned();
    r.append(b);
    r.append(c);
    r
}

/// A copy of a list of strings.
pub fn copy_texts(v: &Vec<String>) -> (r: Vec<String>)
    ensures
        texts(r@) == texts(v@),
{
    let mut r: Vec<String> = Vec::new();
    let mut i: usize = 0;
    while i < v.len()
        invariant
            i <= v.len(),
            r.len() == i,
            forall|j: int| 0 <= j < i ==> r@[j]@ == v@[j]@,
        decreases v.len() - i,
    {
        r.push(v[i].clone());
        i += 1;
    }
    assert(texts(r@) =~= texts(v@));
    r
}

/// A text between double quotes.
pub open spec fn quoted(s: Seq<char>) -> Seq<char> {
    seq!['"'] + s + seq!['"']
}

/// Puts a text between double quotes.
pub fn quote(s: &str) -> (r: String)
    ensures
        r@ == quoted(s@),
{
    proof {
        reveal_strlit("\"");
        assert("\""@ == seq!['"']);
    }
    chain3("\"", s, "\"")
}

/// The decimal digit for a number below ten.
pub open spec fn digit(d: nat) -> char {
    "0123456789"@[d as int]
}

/// A number written in decimal digits, without leading zeros.
pub open spec fn decimal_text(n: nat) -> Seq<char>
    decreases n,
{
    if n < 10 {
        seq![digit(n)]
    } else {
        decimal_text(n / 10).push(digit(n % 10))
    }
}

fn digit_text(d: usize) -> (r: String)
    requires
        d < 10,
    ensures
        r@ == seq![digit(d as nat)],
{
    proof {
        reveal_strlit("0123456789");
    }
    let r = slice("0123456789", d, d + 1);
    assert(r@ =~= seq![digit(d as nat)]);
    r
}

/// Writes a number in decimal digits.
pub fn decimal(n: usize) -> (r: String)
    ensures
        r@ == decimal_text(n as nat),
{
    let mut text = digit_text(n % 10);
    let mut rest: usize = n / 10;
    while rest > 0
        invariant
            decimal_text(n as nat) == (if rest == 0 {
                Seq::<char>::empty()
            } else {
                decimal_text(rest as nat)
            }) + text@,
        decreases rest,
    {
        let d = digit_text(rest % 10);
        proof {
            let lead = if rest / 10 == 0 {
                Seq::<char>::empty()
            } else {
                decimal_text((rest / 10) as nat)
            };
            assert(decimal_text(rest as nat) =~= lead + d@);
            assert((lead + d@) + text@ =~= lead + (d@ + text@));
        }
        text = chain(d.as_str(), text.as_str());
        rest = rest / 10;
    }
    assert(Seq::<char>::empty() + text@ =~= text@);
    text
}

/// The items in a row, with `separator` between each two.
pub open spec fn joined_with(items: Seq<Seq<char>>, separator: Seq<char>) -> Seq<char>
    decreases items.len(),
{
    if items.len() == 0 {
        Seq::empty()
    } else if items.len() == 1 {
        items[0]
    } else {
        joined_with(items.drop_last(), separator) + separator + items.last()
    }
}

/// Puts the items in a row, with `separator` between each two.
pub fn join(items: &Vec<String>, separator: &str) -> (r: String)
    ensures
        r@ == joined_with(texts(items@), separator@),
{
    let mut r = String::new();
    let mut i: usize = 0;
    while i < items.len()
        invariant
            i <= items.len(),
            r@ == joined_with(texts(items@).take(i as int), separator@),
        decreases items.len() - i,
    {
        proof {
            let upto = texts(items@).take(i + 1);
            assert(upto.drop_last() =~= texts(items@).take(i as int));
            assert(upto.last() == items@[i as int]@);
            if i == 0 {
                assert(Seq::<char>::empty() + items@[0]@ =~= items@[0]@);
            }
        }
        if i > 0 {
            r.append(separator);
        }
        r.append(items[i].as_str());
        i += 1;
    }
    assert(texts(items@).take(items@.len() as int) =~= texts(items@));
    r
}

/// A text in which every occurrence of `pattern` is replaced by `with`,
/// the occurrences taken from left to right and never overlapping. An empty
/// pattern occurs before every character and at the end.
pub open spec fn replaced(text: Seq<char>, pattern: Seq<char>, with: Seq<char>) -> Seq<char>
    decreases text.len(),
{
    if text.len() == 0 {
        if pattern.len() == 0 {
            with
        } else {
            text
        }
    } else if pattern.len() == 0 {
        with + seq![text[0]] + replaced(text.skip(1), pattern, with)
    } else if pattern.is_prefix_of(text) {
        with + replaced(text.skip(pattern.len() as int), pattern, with)
    } else {
        seq![text[0]] + replaced(text.skip(1), pattern, with)
    }
}

/// Replaces every occurrence of `pattern` in `text` by `with`.
pub fn replace_all(text: &str, pattern: &str, with: &str) -> (r: String)
    ensures
        r@ == replaced(text@, pattern@, with@),
{
    let chars = to_chars(text);
    let needle = to_chars(pattern);
    let n = chars.len();
    let mut out = String::new();
    let mut at: usize = 0;
    assert(text@.skip(0) == text@);
    if needle.len() == 0 {
        while at < n
            invariant
                chars@ == text@,
                n == chars.len(),
                needle@ == pattern@,
                needle@.len() == 0,
                at <= n,
                replaced(text@, pattern@, with@) == out@ + replaced(
                    text@.skip(at as int),
                    pattern@,
                    with@,
                ),
            decreases n - at,
        {
            let ghost rest = text@.skip(at as int);
            assert(rest.skip(1) == text@.skip(at + 1));
            assert(text@.subrange(at as int, at + 1) == seq![rest[0]]);
            out.append(with);
            out.append(slice(text, at, at + 1).as_str());
            at += 1;
        }
        out.append(with);
        return out;
    }
    let mut run: usize = 0;
    while at < n
        invariant
            chars@ == text@,
            n == chars.len(),
            needle@ == pattern@,
            needle@.len() > 0,
            run <= at <= n,
            replaced(text@, pattern@, with@) == out@ + text@.subrange(run as int, at as int)
                + replaced(text@.skip(at as int), pattern@, with@),
        decreases n - at,
    {
        let ghost rest = text@.skip(at as int);
        let ghost before = out@ + text@.subrange(run as int, at as int);
        if matches_at(&chars, &needle, at) {
            proof {
                assert(rest.subrange(0, pattern@.len() as int) == text@.subrange(
                    at as int,
                    at + pattern@.len(),
                ));
                assert(rest.skip(pattern@.len() as int) == text@.skip(at + pattern@.len()));
            }
            out.append(slice(text, run, at).as_str());
            out.append(with);
            at += needle.len();
            run = at;
            assert(text@.subrange(run as int, at as int) == Seq::<char>::empty());
        } else {
            proof {
                if pattern@.len() <= rest.len() {
                    assert(rest.subrange(0, pattern@.len() as int) == text@.subrange(
                        at as int,
                        at + pattern@.len(),
                    ));
                }
                assert(rest.skip(1) == text@.skip(at + 1));
                assert(text@.subrange(run as int, at + 1) == text@.subrange(
                    run as int,
                    at as int,
                ) + seq![rest[0]]);
            }
            at += 1;
        }
    }
    out.append(slice(text, run, n).as_str());
    out
}

} // verus!
