use vstd::prelude::*;

verus! {

/// Whether `c` is white space: one of the code points with Unicode's
/// `White_Space` property.
pub open spec fn is_white_space(c: char) -> bool {
    let code = c as u32;
    ||| 0x09 <= code <= 0x0d
    ||| code == 0x20
    ||| code == 0x85
    ||| code == 0xa0
    ||| code == 0x1680
    ||| 0x2000 <= code <= 0x200a
    ||| code == 0x2028
    ||| code == 0x2029
    ||| code == 0x202f
    ||| code == 0x205f
    ||| code == 0x3000
}

/// `text` without its leading white space.
pub open spec fn trim_start(text: Seq<char>) -> Seq<char>
    decreases text.len(),
{
    if text.len() > 0 && is_white_space(text.first()) {
        trim_start(text.drop_first())
    } else {
        text
    }
}

/// `text` without its trailing white space.
pub open spec fn trim_end(text: Seq<char>) -> Seq<char>
    decreases text.len(),
{
    if text.len() > 0 && is_white_space(text.last()) {
        trim_end(text.drop_last())
    } else {
        text
    }
}

/// `text` without its leading and trailing white space.
pub open spec fn trimmed(text: Seq<char>) -> Seq<char> {
    trim_end(trim_start(text))
}

/// The word that opens a stream.
pub open spec fn begin_word() -> Seq<char> {
    seq!['B', 'E', 'G', 'I', 'N']
}

/// The word that closes a stream.
pub open spec fn end_word() -> Seq<char> {
    seq!['E', 'N', 'D']
}

/// What a line of input is.
#[derive(Clone, Copy, Debug, PartialEq, Eq)]
pub enum LineKind {
    /// The opening marker: to be passed over.
    Begin,
    /// The closing marker: nothing after it is read.
    End,
    /// Anything else: the text of one observation, to be decoded.
    Record,
}

/// What a line is: a marker if, white space at both ends apart, it is exactly
/// that marker's word, and an observation otherwise.
pub open spec fn kind_of(line: Seq<char>) -> LineKind {
    if trimmed(line) == begin_word() {
        LineKind::Begin
    } else if trimmed(line) == end_word() {
        LineKind::End
    } else {
        LineKind::Record
    }
}

/// Whether `c` is white space.
pub fn white_space(c: char) -> (r: bool)
    ensures
        r == is_white_space(c),
{
    let code: u32 = c as u32;
    (0x09 <= code && code <= 0x0d) || code == 0x20 || code == 0x85 || code == 0xa0 || code
        == 0x1680 || (0x2000 <= code && code <= 0x200a) || code == 0x2028 || code == 0x2029
        || code == 0x202f || code == 0x205f || code == 0x3000
}

/// Where the trimmed text lies in `text`: from the first index, up to but
/// not including the second.
pub fn trimmed_span(text: &Vec<char>) -> (span: (usize, usize))
    ensures
        span.0 <= span.1 <= text@.len(),
        text@.subrange(span.0 as int, span.1 as int) == trimmed(text@),
{
    let n: usize = text.len();
    let mut start: usize = 0;
    assert(text@.subrange(0, n as int) =~= text@);
    while start < n && white_space(text[start])
        invariant
            start <= n,
            n == text@.len(),
            trim_start(text@) == trim_start(text@.subrange(start as int, n as int)),
        decreases n - start,
    {
        proof {
            assert(text@.subrange(start as int, n as int).drop_first() =~= text@.subrange(
                start + 1,
                n as int,
            ));
        }
        start += 1;
    }
    let ghost tail = text@.subrange(start as int, n as int);
    assert(trim_start(text@) == tail);
    let mut end: usize = n;
    while end > start && white_space(text[end - 1])
        invariant
            start <= end <= n,
            n == text@.len(),
            tail == text@.subrange(start as int, n as int),
            trim_end(tail) == trim_end(text@.subrange(start as int, end as int)),
        decreases end,
    {
        proof {
            assert(text@.subrange(start as int, end as int).drop_last() =~= text@.subrange(
                start as int,
                end - 1,
            ));
        }
        end -= 1;
    }
    (start, end)
}

/// Whether the part of `text` from `start` up to `end` is exactly `word`.
pub fn span_is(text: &Vec<char>, start: usize, end: usize, word: &Vec<char>) -> (r: bool)
    requires
        start <= end <= text@.len(),
    ensures
        r == (text@.subrange(start as int, end as int) == word@),
{
    if end - start != word.len() {
        return false;
    }
    let ghost part = text@.subrange(start as int, end as int);
    let mut i: usize = 0;
    while i < word.len()
        invariant
            i <= word@.len(),
            start <= end <= text@.len(),
            end - start == word@.len(),
            part == text@.subrange(start as int, end as int),
            forall|j: int| 0 <= j < i ==> part[j] == word@[j],
        decreases word@.len() - i,
    {
        if text[start + i] != word[i] {
            assert(part[i as int] != word@[i as int]);
            return false;
        }
        i += 1;
    }
    assert(part =~= word@);
    true
}

/// The characters of `line`, in order.
pub fn chars_of(line: &str) -> (r: Vec<char>)
    ensures
        r@ == line@,
{
    let mut out: Vec<char> = Vec::new();
    for c in it: line.chars()
        invariant
            it.seq() == line@,
            out@ == line@.take(it.index()),
    {
        proof {
            assert(line@.take(it.index() + 1) =~= line@.take(it.index()).push(c));
        }
        out.push(c);
    }
    proof {
        assert(line@.take(line@.len() as int) =~= line@);
    }
    out
}

/// Tells the two markers from the text of an observation.
pub fn classify(line: &str) -> (r: LineKind)
    ensures
        r == kind_of(line@),
{
    let text = chars_of(line);
    let (start, end) = trimmed_span(&text);
    let begin: Vec<char> = vec!['B', 'E', 'G', 'I', 'N'];
    let finish: Vec<char> = vec!['E', 'N', 'D'];
    assert(begin@ =~= begin_word());
    assert(finish@ =~= end_word());
    if span_is(&text, start, end, &begin) {
        LineKind::Begin
    } else if span_is(&text, start, end, &finish) {
        LineKind::End
    } else {
        LineKind::Record
    }
}

} // verus!
