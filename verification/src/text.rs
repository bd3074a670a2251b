//! Character-level helpers shared by the argument builder and the response
//! parsers: whitespace trimming, line splitting, decimal rendering and lossy
//! UTF-8 decoding, each with a mathematical model over `Seq<char>`.

use vstd::prelude::*;
use vstd::string::StringExecFns;
use vstd::utf8::{decode_utf8, valid_utf8};

verus! {

/// Whether `c` carries the Unicode `White_Space` property, as decided by
/// `char::is_whitespace`. The property is a fixed table of the Unicode
/// character database, so the predicate is left abstract here.
pub uninterp spec fn white_space(c: char) -> bool;

/// `s` without its leading white space.
pub open spec fn trim_start(s: Seq<char>) -> Seq<char>
    decreases s.len(),
{
    if s.len() > 0 && white_space(s.first()) {
        trim_start(s.drop_first())
    } else {
        s
    }
}

/// `s` without its trailing white space.
pub open spec fn trim_end(s: Seq<char>) -> Seq<char>
    decreases s.len(),
{
    if s.len() > 0 && white_space(s.last()) {
        trim_end(s.drop_last())
    } else {
        s
    }
}

/// `s` without leading and trailing white space.
pub open spec fn trimmed(s: Seq<char>) -> Seq<char> {
    trim_end(trim_start(s))
}

/// A line is blank when nothing is left of it after trimming.
pub open spec fn is_blank(s: Seq<char>) -> bool {
    trimmed(s).len() == 0
}

/// `char::is_whitespace`: the standard library documents that it tells
/// whether the character has the `White_Space` property. The contract names
/// that answer; nothing more is claimed of it.
pub assume_specification[ char::is_whitespace ](c: char) -> (b: bool)
    ensures
        b == white_space(c),
;

/// `String::push`: appends one character to the end of the string, as the
/// standard library documents.
pub assume_specification[ std::string::String::push ](s: &mut std::string::String, c: char)
    ensures
        final(s)@ == old(s)@.push(c),
;

/// The characters of `s`, in order.
pub fn chars_of(s: &str) -> (r: Vec<char>)
    ensures
        r@ == s@,
{
    let mut out: Vec<char> = Vec::new();
    let chars = s.chars();
    for c in it: chars
        invariant
            it.seq() == s@,
            out@ == s@.take(it.index() as int),
    {
        out.push(c);
    }
    out
}

/// The string made of `v[from..to]`.
pub fn text_of(v: &Vec<char>, from: usize, to: usize) -> (r: String)
    requires
        from <= to <= v.len(),
    ensures
        r@ == v@.subrange(from as int, to as int),
{
    let mut out = String::new();
    let mut i: usize = from;
    while i < to
        invariant
            from <= i <= to <= v.len(),
            out@ == v@.subrange(from as int, i as int),
        decreases to - i,
    {
        out.push(v[i]);
        i += 1;
    }
    out
}

/// Trimming at the front drops exactly the longest white prefix.
pub proof fn lemma_trim_start(s: Seq<char>, k: int)
    requires
        0 <= k <= s.len(),
        forall|j: int| 0 <= j < k ==> white_space(#[trigger] s[j]),
        k < s.len() ==> !white_space(s[k]),
    ensures
        trim_start(s) == s.skip(k),
    decreases k,
{
    if k == 0 {
        assert(s.skip(0) =~= s);
    } else {
        let rest = s.drop_first();
        assert forall|j: int| 0 <= j < k - 1 implies white_space(#[trigger] rest[j]) by {
            assert(rest[j] == s[j + 1]);
        }
        lemma_trim_start(rest, k - 1);
        assert(rest.skip(k - 1) =~= s.skip(k));
    }
}

/// Trimming at the back drops exactly the longest white suffix.
pub proof fn lemma_trim_end(s: Seq<char>, e: int)
    requires
        0 <= e <= s.len(),
        forall|j: int| e <= j < s.len() ==> white_space(#[trigger] s[j]),
        e > 0 ==> !white_space(s[e - 1]),
    ensures
        trim_end(s) == s.take(e),
    decreases s.len() - e,
{
    if e == s.len() {
        assert(s.take(e) =~= s);
    } else {
        let rest = s.drop_last();
        lemma_trim_end(rest, e);
        assert(rest.take(e) =~= s.take(e));
    }
}

/// Where the trimmed part of `v` starts and ends.
fn trim_bounds(v: &Vec<char>) -> (r: (usize, usize))
    ensures
        r.0 <= r.1 <= v.len(),
        trimmed(v@) == v@.subrange(r.0 as int, r.1 as int),
{
    let mut from: usize = 0;
    while from < v.len() && v[from].is_whitespace()
        invariant
            from <= v.len(),
            forall|j: int| 0 <= j < from ==> white_space(#[trigger] v@[j]),
        decreases v.len() - from,
    {
        from += 1;
    }
    let mut to: usize = v.len();
    while to > from && v[to - 1].is_whitespace()
        invariant
            from <= to <= v.len(),
            forall|j: int| to <= j < v.len() ==> white_space(#[trigger] v@[j]),
        decreases to,
    {
        to -= 1;
    }
    proof {
        let s = v@;
        let rest = s.skip(from as int);
        lemma_trim_start(s, from as int);
        assert forall|j: int| to - from <= j < rest.len() implies white_space(
            #[trigger] rest[j],
        ) by {
            assert(rest[j] == s[j + from]);
        }
        if to > from {
            assert(rest[to - from - 1] == s[to - 1]);
        }
        lemma_trim_end(rest, to - from);
        assert(rest.take(to - from) =~= s.subrange(from as int, to as int));
    }
    (from, to)
}

/// Tells whether `s` holds white space only (or nothing at all).
pub fn blank(s: &str) -> (r: bool)
    ensures
        r == is_blank(s@),
{
    let v = chars_of(s);
    let (from, to) = trim_bounds(&v);
    from == to
}

/// Owned copy of `s` without leading and trailing white space.
pub fn trim_owned(s: &str) -> (r: String)
    ensures
        r@ == trimmed(s@),
{
    let v = chars_of(s);
    let (from, to) = trim_bounds(&v);
    text_of(&v, from, to)
}

/// `a` followed by `b`.
pub fn join(a: &str, b: &str) -> (r: String)
    ensures
        r@ == a@ + b@,
{
    let mut out = a.to_owned();
    out.append(b);
    out
}

/// Whether two strings hold the same characters.
pub fn same_text(a: &str, b: &str) -> (r: bool)
    ensures
        r == (a@ == b@),
{
    let x = a.to_owned();
    let y = b.to_owned();
    x == y
}

/// The views of a sequence of strings.
pub open spec fn texts(v: Seq<String>) -> Seq<Seq<char>> {
    v.map_values(|s: String| s@)
}

/// Index of the first line feed of `s`, or `s.len()` where it has none.
pub open spec fn line_end(s: Seq<char>) -> int
    decreases s.len(),
{
    if s.len() == 0 || s.first() == '\n' {
        0
    } else {
        1 + line_end(s.drop_first())
    }
}

/// A line without the carriage return that stood before its line feed.
pub open spec fn strip_cr(line: Seq<char>) -> Seq<char> {
    if line.len() > 0 && line.last() == '\r' {
        line.drop_last()
    } else {
        line
    }
}

/// The lines of `s`. A line ends at a line feed, or at a carriage return
/// directly followed by one; the terminator is not part of the line. The last
/// line needs no terminator, and is kept as it stands when it has none.
pub open spec fn lines_of(s: Seq<char>) -> Seq<Seq<char>>
    decreases s.len(),
{
    if s.len() == 0 {
        Seq::empty()
    } else {
        let k = line_end(s);
        if 0 <= k < s.len() {
            seq![strip_cr(s.take(k))] + lines_of(s.skip(k + 1))
        } else {
            seq![s]
        }
    }
}

/// `line_end` is the position of the first line feed.
pub proof fn lemma_line_end(s: Seq<char>, k: int)
    requires
        0 <= k <= s.len(),
        forall|j: int| 0 <= j < k ==> #[trigger] s[j] != '\n',
        k < s.len() ==> s[k] == '\n',
    ensures
        line_end(s) == k,
    decreases k,
{
    if k > 0 {
        let rest = s.drop_first();
        assert forall|j: int| 0 <= j < k - 1 implies #[trigger] rest[j] != '\n' by {
            assert(rest[j] == s[j + 1]);
        }
        lemma_line_end(rest, k - 1);
    }
}

/// Splits `text` into its lines, as [`lines_of`] defines them.
pub fn split_lines(text: &str) -> (r: Vec<String>)
    ensures
        texts(r@) == lines_of(text@),
{
    let v = chars_of(text);
    let ghost s = v@;
    let mut out: Vec<String> = Vec::new();
    let mut start: usize = 0;
    let mut i: usize = 0;
    assert(s.skip(0) =~= s);
    assert(texts(out@) =~= Seq::<Seq<char>>::empty());
    while i < v.len()
        invariant
            s == v@,
            start <= i <= v.len(),
            forall|j: int| start <= j < i ==> #[trigger] s[j] != '\n',
            lines_of(s) == texts(out@) + lines_of(s.skip(start as int)),
        decreases v.len() - i,
    {
        if v[i] == '\n' {
            let mut end: usize = i;
            if end > start && v[end - 1] == '\r' {
                end -= 1;
            }
            let line = text_of(&v, start, end);
            proof {
                let tail = s.skip(start as int);
                let k = i - start;
                assert forall|j: int| 0 <= j < k implies #[trigger] tail[j] != '\n' by {
                    assert(tail[j] == s[j + start]);
                }
                lemma_line_end(tail, k);
                assert(tail.take(k) =~= s.subrange(start as int, i as int));
                assert(tail.skip(k + 1) =~= s.skip(i + 1));
                assert(line@ =~= strip_cr(s.subrange(start as int, i as int)));
                assert(texts(out@.push(line)) =~= texts(out@) + seq![line@]);
            }
            out.push(line);
            start = i + 1;
        }
        i += 1;
    }
    proof {
        let tail = s.skip(start as int);
        assert forall|j: int| 0 <= j < tail.len() implies #[trigger] tail[j] != '\n' by {
            assert(tail[j] == s[j + start]);
        }
        lemma_line_end(tail, tail.len() as int);
    }
    if start < v.len() {
        let line = text_of(&v, start, v.len());
        proof {
            assert(line@ =~= s.skip(start as int));
            assert(texts(out@.push(line)) =~= texts(out@) + seq![line@]);
        }
        out.push(line);
    }
    out
}

/// The character of one decimal digit.
pub open spec fn digit(d: nat) -> char {
    if d == 0 {
        '0'
    } else if d == 1 {
        '1'
    } else if d == 2 {
        '2'
    } else if d == 3 {
        '3'
    } else if d == 4 {
        '4'
    } else if d == 5 {
        '5'
    } else if d == 6 {
        '6'
    } else if d == 7 {
        '7'
    } else if d == 8 {
        '8'
    } else {
        '9'
    }
}

/// `n` in decimal notation, without sign or leading zeros.
pub open spec fn decimal(n: nat) -> Seq<char>
    decreases n,
{
    if n < 10 {
        seq![digit(n)]
    } else {
        decimal(n / 10).push(digit(n % 10))
    }
}

fn digit_char(d: u64) -> (c: char)
    requires
        d < 10,
    ensures
        c == digit(d as nat),
{
    if d == 0 {
        '0'
    } else if d == 1 {
        '1'
    } else if d == 2 {
        '2'
    } else if d == 3 {
        '3'
    } else if d == 4 {
        '4'
    } else if d == 5 {
        '5'
    } else if d == 6 {
        '6'
    } else if d == 7 {
        '7'
    } else if d == 8 {
        '8'
    } else {
        '9'
    }
}

spec fn leading_digits(n: nat) -> Seq<char> {
    if n == 0 {
        Seq::empty()
    } else {
        decimal(n)
    }
}

/// Renders `n` in decimal notation.
pub fn decimal_string(n: u64) -> (r: String)
    ensures
        r@ == decimal(n as nat),
{
    let mut low: Vec<char> = Vec::new();
    low.push(digit_char(n % 10));
    let mut rest: u64 = n / 10;
    assert(decimal(n as nat) =~= leading_digits(rest as nat) + low@.reverse());
    while rest > 0
        invariant
            low@.len() > 0,
            decimal(n as nat) == leading_digits(rest as nat) + low@.reverse(),
        decreases rest,
    {
        let ghost before = low@;
        low.push(digit_char(rest % 10));
        proof {
            assert(low@.reverse() =~= seq![digit((rest % 10) as nat)] + before.reverse());
            assert(decimal(rest as nat) =~= leading_digits((rest / 10) as nat) + seq![
                digit((rest % 10) as nat),
            ]);
            assert(decimal(n as nat) =~= leading_digits((rest / 10) as nat) + low@.reverse());
        }
        rest = rest / 10;
    }
    let mut out = String::new();
    let mut k: usize = low.len();
    while k > 0
        invariant
            k <= low.len(),
            out@ == low@.reverse().take(low.len() - k),
        decreases k,
    {
        k -= 1;
        out.push(low[k]);
        assert(out@ =~= low@.reverse().take(low.len() - k));
    }
    assert(low@.reverse().take(low.len() as int) =~= low@.reverse());
    out
}

/// What `String::from_utf8_lossy` makes of `bytes`: their text, with each
/// ill-formed stretch replaced by U+FFFD.
pub uninterp spec fn utf8_lossy(bytes: Seq<u8>) -> Seq<char>;

/// `String::from_utf8_lossy`: the standard library documents that valid
/// UTF-8 is decoded as it stands and that ill-formed input is replaced, never
/// refused. The contract names the result and states the valid case.
#[verifier::external_body]
pub(crate) fn decode_lossy(bytes: &[u8]) -> (r: String)
    ensures
        r@ == utf8_lossy(bytes@),
        valid_utf8(bytes@) ==> r@ == decode_utf8(bytes@),
{
    String::from_utf8_lossy(bytes).into_owned()
}

} // verus!
