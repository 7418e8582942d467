//! Text as a sequence of characters: whitespace, trimming, lines, and the
//! strings cut out of it.

use vstd::prelude::*;
use vstd::std_specs::iter::IteratorSpec;
use vstd::string::StrSliceExecFns;

verus! {

/// The characters that carry the Unicode property `White_Space`.
pub open spec fn is_whitespace(c: char) -> bool {
    let n = c as u32;
    ||| 0x09 <= n <= 0x0d
    ||| n == 0x20
    ||| n == 0x85
    ||| n == 0xa0
    ||| n == 0x1680
    ||| 0x2000 <= n <= 0x200a
    ||| n == 0x2028
    ||| n == 0x2029
    ||| n == 0x202f
    ||| n == 0x205f
    ||| n == 0x3000
}

/// Tells whether `c` is a whitespace character.
pub fn char_is_whitespace(c: char) -> (b: bool)
    ensures
        b == is_whitespace(c),
{
    let n: u32 = c as u32;
    (0x09 <= n && n <= 0x0d) || n == 0x20 || n == 0x85 || n == 0xa0 || n == 0x1680 || (0x2000 <= n
        && n <= 0x200a) || n == 0x2028 || n == 0x2029 || n == 0x202f || n == 0x205f || n == 0x3000
}

/// The characters of `s`, in order.
pub fn chars_of(s: &str) -> (chars: Vec<char>)
    ensures
        chars@ == s@,
{
    let mut chars: Vec<char> = Vec::new();
    let mut rest = s.chars();
    loop
        invariant
            rest.obeys_prophetic_iter_laws(),
            rest.decrease() is Some,
            chars@ + rest.remaining() == s@,
        ensures
            chars@ == s@,
        decreases rest.decrease()->0,
    {
        match rest.next() {
            Some(c) => {
                chars.push(c);
            },
            None => {
                assert(chars@ + rest.remaining() =~= chars@);
                break ;
            },
        }
    }
    chars
}

/// `s` without its leading whitespace.
pub open spec fn trim_start(s: Seq<char>) -> Seq<char>
    decreases s.len(),
{
    if s.len() > 0 && is_whitespace(s.first()) {
        trim_start(s.drop_first())
    } else {
        s
    }
}

/// `s` without its trailing whitespace.
pub open spec fn trim_end(s: Seq<char>) -> Seq<char>
    decreases s.len(),
{
    if s.len() > 0 && is_whitespace(s.last()) {
        trim_end(s.drop_last())
    } else {
        s
    }
}

/// `s` without its leading and trailing whitespace.
pub open spec fn trim(s: Seq<char>) -> Seq<char> {
    trim_end(trim_start(s))
}

/// The bounds within `chars[from..to]` of that range trimmed of whitespace at both ends.
pub fn trim_span(chars: &Vec<char>, from: usize, to: usize) -> (span: (usize, usize))
    requires
        from <= to <= chars.len(),
    ensures
        from <= span.0 <= span.1 <= to,
        chars@.subrange(span.0 as int, span.1 as int) == trim(
            chars@.subrange(from as int, to as int),
        ),
{
    let mut first: usize = from;
    while first < to && char_is_whitespace(chars[first])
        invariant
            from <= first <= to <= chars.len(),
            trim_start(chars@.subrange(from as int, to as int)) == trim_start(
                chars@.subrange(first as int, to as int),
            ),
        decreases to - first,
    {
        assert(chars@.subrange(first as int, to as int).drop_first() =~= chars@.subrange(
            first + 1,
            to as int,
        ));
        first += 1;
    }
    let mut last: usize = to;
    while first < last && char_is_whitespace(chars[last - 1])
        invariant
            first <= last <= to <= chars.len(),
            trim_end(chars@.subrange(first as int, to as int)) == trim_end(
                chars@.subrange(first as int, last as int),
            ),
        decreases last - first,
    {
        assert(chars@.subrange(first as int, last as int).drop_last() =~= chars@.subrange(
            first as int,
            last - 1,
        ));
        last -= 1;
    }
    (first, last)
}

/// Appends one character to a string.
///
/// Stands for `String::push` of the standard library, which is documented to
/// append the given character to the end of the string; the contract says that
/// and nothing more.
#[verifier::external_body]
pub(crate) fn push_char(s: &mut String, c: char)
    ensures
        final(s)@ == old(s)@.push(c),
{
    s.push(c);
}

/// The string made of `chars[from..to]`.
pub fn string_of(chars: &Vec<char>, from: usize, to: usize) -> (s: String)
    requires
        from <= to <= chars.len(),
    ensures
        s@ == chars@.subrange(from as int, to as int),
{
    let mut s = String::new();
    let mut i: usize = from;
    while i < to
        invariant
            from <= i <= to <= chars.len(),
            s@ == chars@.subrange(from as int, i as int),
        decreases to - i,
    {
        push_char(&mut s, chars[i]);
        assert(chars@.subrange(from as int, i as int).push(chars@[i as int]) =~= chars@.subrange(
            from as int,
            i + 1,
        ));
        i += 1;
    }
    s
}

/// `s` with every occurrence of `c` removed.
pub open spec fn without(s: Seq<char>, c: char) -> Seq<char> {
    s.filter(|x: char| x != c)
}

/// The string made of the characters of `chars[from..to]` other than `c`.
pub fn string_without(chars: &Vec<char>, from: usize, to: usize, c: char) -> (s: String)
    requires
        from <= to <= chars.len(),
    ensures
        s@ == without(chars@.subrange(from as int, to as int), c),
{
    let mut s = String::new();
    let mut i: usize = from;
    while i < to
        invariant
            from <= i <= to <= chars.len(),
            s@ == without(chars@.subrange(from as int, i as int), c),
        decreases to - i,
    {
        proof {
            let before = chars@.subrange(from as int, i as int);
            let after = chars@.subrange(from as int, i + 1);
            assert(after.drop_last() =~= before);
            reveal(Seq::filter);
        }
        if chars[i] != c {
            push_char(&mut s, chars[i]);
        }
        i += 1;
    }
    s
}

/// The index of the first line feed of `s` at or after `from`, or `s.len()`
/// where there is none.
pub open spec fn line_end(s: Seq<char>, from: int) -> int
    decreases s.len() - from,
{
    if from < 0 || from >= s.len() {
        s.len() as int
    } else if s[from] == '\n' {
        from
    } else {
        line_end(s, from + 1)
    }
}

/// `line` without a carriage return at its end.
pub open spec fn strip_carriage_return(line: Seq<char>) -> Seq<char> {
    if line.len() > 0 && line.last() == '\r' {
        line.drop_last()
    } else {
        line
    }
}

/// The lines of `s` that begin at or after `from`, where a line begins at `from`.
///
/// A line ends with a line feed, which is not part of it, nor is a carriage
/// return just before that line feed. What follows the last line feed is a line
/// of its own unless it is empty.
pub open spec fn lines_from(s: Seq<char>, from: int) -> Seq<Seq<char>>
    decreases s.len() - from,
{
    let end = line_end(s, from);
    if from < 0 || from >= s.len() {
        Seq::empty()
    } else if from <= end < s.len() {
        seq![strip_carriage_return(s.subrange(from, end))] + lines_from(s, end + 1)
    } else {
        seq![s.subrange(from, s.len() as int)]
    }
}

/// The lines of `s`.
pub open spec fn lines(s: Seq<char>) -> Seq<Seq<char>> {
    lines_from(s, 0)
}

/// `line_end` is the first line feed: no earlier one, and none at all where it
/// is the length.
pub proof fn lemma_line_end(s: Seq<char>, from: int, end: int)
    requires
        0 <= from <= end <= s.len(),
        forall|j: int| from <= j < end ==> s[j] != '\n',
        end < s.len() ==> s[end] == '\n',
    ensures
        line_end(s, from) == end,
    decreases end - from,
{
    if from < end {
        lemma_line_end(s, from + 1, end);
    }
}

/// A text has no more lines than characters, from whichever place the lines
/// are taken.
pub proof fn lemma_lines_len(s: Seq<char>, from: int)
    requires
        0 <= from <= s.len(),
    ensures
        lines_from(s, from).len() <= s.len() - from,
        from == 0 ==> lines(s).len() <= s.len(),
    decreases s.len() - from,
{
    let end = line_end(s, from);
    if from < s.len() && from <= end < s.len() {
        lemma_lines_len(s, end + 1);
    }
}

/// The texts that `spans` cut out of `chars`.
pub open spec fn span_texts(chars: Seq<char>, spans: Seq<(usize, usize)>) -> Seq<Seq<char>> {
    Seq::new(spans.len(), |k: int| chars.subrange(spans[k].0 as int, spans[k].1 as int))
}

/// Where each line of `chars` begins and ends.
pub fn line_spans(chars: &Vec<char>) -> (spans: Vec<(usize, usize)>)
    ensures
        forall|k: int|
            0 <= k < spans.len() ==> (#[trigger] spans[k]).0 <= spans[k].1 <= chars.len(),
        span_texts(chars@, spans@) == lines(chars@),
{
    let n: usize = chars.len();
    let mut spans: Vec<(usize, usize)> = Vec::new();
    let mut start: usize = 0;
    let mut i: usize = 0;
    assert(span_texts(chars@, spans@) + lines_from(chars@, 0) =~= lines(chars@));
    while i < n
        invariant
            n == chars.len(),
            start <= i <= n,
            forall|j: int| start <= j < i ==> chars@[j] != '\n',
            forall|k: int| 0 <= k < spans.len() ==> (#[trigger] spans[k]).0 <= spans[k].1 <= n,
            span_texts(chars@, spans@) + lines_from(chars@, start as int) == lines(chars@),
        decreases n - i,
    {
        if chars[i] == '\n' {
            let end: usize = if start < i && chars[i - 1] == '\r' {
                i - 1
            } else {
                i
            };
            proof {
                lemma_line_end(chars@, start as int, i as int);
                let whole = chars@.subrange(start as int, i as int);
                assert(strip_carriage_return(whole) =~= chars@.subrange(start as int, end as int));
                assert(span_texts(chars@, spans@.push((start, end))) =~= span_texts(
                    chars@,
                    spans@,
                ) + seq![chars@.subrange(start as int, end as int)]);
            }
            spans.push((start, end));
            start = i + 1;
        }
        i += 1;
    }
    if start < n {
        proof {
            lemma_line_end(chars@, start as int, n as int);
            assert(span_texts(chars@, spans@.push((start, n))) =~= span_texts(chars@, spans@)
                + seq![chars@.subrange(start as int, n as int)]);
        }
        spans.push((start, n));
    } else {
        assert(span_texts(chars@, spans@) + lines_from(chars@, start as int) =~= span_texts(
            chars@,
            spans@,
        ));
    }
    spans
}

/// Tells whether `chars[from..to]` reads as `other`.
pub fn range_is(chars: &Vec<char>, from: usize, to: usize, other: &Vec<char>) -> (same: bool)
    requires
        from <= to <= chars.len(),
    ensures
        same == (chars@.subrange(from as int, to as int) == other@),
{
    if to - from != other.len() {
        return false;
    }
    let mut i: usize = 0;
    while i < other.len()
        invariant
            from <= to <= chars.len(),
            to - from == other.len(),
            i <= other.len(),
            forall|j: int| 0 <= j < i ==> chars@[from + j] == other@[j],
        decreases other.len() - i,
    {
        if chars[from + i] != other[i] {
            assert(chars@.subrange(from as int, to as int)[i as int] != other@[i as int]);
            return false;
        }
        i += 1;
    }
    assert(chars@.subrange(from as int, to as int) =~= other@);
    true
}

} // verus!
