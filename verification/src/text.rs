//! Character-level text primitives shared by the parsers: whitespace, lines,
//! whitespace-delimited tokens, prefixes and substrings.
//!
//! Text is modelled as `Seq<char>`. Lines and tokens are sequences of
//! subsequences; the executable functions hand out half-open index spans into
//! the text they were given.

use vstd::prelude::*;
use vstd::std_specs::iter::IteratorSpec;

verus! {

/// Whether `c` is Unicode white space.
pub open spec fn is_space(c: char) -> bool {
    let n = c as u32;
    ||| 0x09 <= n <= 0x0D
    ||| n == 0x20
    ||| n == 0x85
    ||| n == 0xA0
    ||| n == 0x1680
    ||| 0x2000 <= n <= 0x200A
    ||| n == 0x2028
    ||| n == 0x2029
    ||| n == 0x202F
    ||| n == 0x205F
    ||| n == 0x3000
}

/// Index of the first line feed at or after `from`, or the length of `s`
/// where there is none.
pub open spec fn line_end(s: Seq<char>, from: int) -> int
    decreases s.len() - from,
{
    if from >= s.len() {
        s.len() as int
    } else if s[from] == '\n' {
        from
    } else {
        line_end(s, from + 1)
    }
}

/// The end of a line lies between its start and the end of the text, and
/// no line feed stands before it.
pub proof fn lemma_line_end_bounds(s: Seq<char>, from: int)
    requires
        0 <= from <= s.len(),
    ensures
        from <= line_end(s, from) <= s.len(),
        line_end(s, from) < s.len() ==> s[line_end(s, from)] == '\n',
        forall|i: int| from <= i < line_end(s, from) ==> s[i] != '\n',
    decreases s.len() - from,
{
    if from < s.len() && s[from] != '\n' {
        lemma_line_end_bounds(s, from + 1);
    }
}

/// End of the content of the line that occupies `from..end`: a carriage return
/// directly before the terminating line feed is not part of the line.
pub open spec fn content_end(s: Seq<char>, from: int, end: int) -> int {
    if from < end < s.len() && s[end - 1] == '\r' {
        end - 1
    } else {
        end
    }
}

/// The lines of `s` that begin at or after `from`, given that a line begins
/// at `from`.
pub open spec fn lines_from(s: Seq<char>, from: int) -> Seq<Seq<char>>
    decreases s.len() + 1 - from,
{
    if from < 0 || from >= s.len() {
        Seq::empty()
    } else {
        let end = line_end(s, from);
        proof {
            lemma_line_end_bounds(s, from);
        }
        seq![s.subrange(from, content_end(s, from, end))] + lines_from(s, end + 1)
    }
}

/// The lines of `s`. A line ends at a line feed, or at a carriage return
/// followed by a line feed; the terminator is not part of the line, and the
/// last line needs none.
pub open spec fn lines(s: Seq<char>) -> Seq<Seq<char>> {
    lines_from(s, 0)
}

/// No line found from a line's start on holds a line feed.
pub proof fn lemma_lines_from_hold_no_line_feed(s: Seq<char>, from: int)
    requires
        0 <= from,
    ensures
        forall|k: int, i: int|
            0 <= k < lines_from(s, from).len() && 0 <= i < lines_from(s, from)[k].len() ==> (
            #[trigger] lines_from(s, from)[k][i]) != '\n',
    decreases s.len() + 1 - from,
{
    if from < s.len() {
        lemma_line_end_bounds(s, from);
        let end = line_end(s, from);
        let first = s.subrange(from, content_end(s, from, end));
        let rest = lines_from(s, end + 1);
        lemma_lines_from_hold_no_line_feed(s, end + 1);
        assert(lines_from(s, from) == seq![first] + rest);
        assert forall|k: int, i: int|
            0 <= k < lines_from(s, from).len() && 0 <= i < lines_from(s, from)[k].len() implies (
        #[trigger] lines_from(s, from)[k][i]) != '\n' by {
            if k == 0 {
                assert(first[i] == s[from + i]);
            } else {
                assert(lines_from(s, from)[k] == rest[k - 1]);
            }
        }
    }
}

/// No line of a text holds a line feed.
pub proof fn lemma_lines_hold_no_line_feed(s: Seq<char>)
    ensures
        forall|k: int, i: int|
            0 <= k < lines(s).len() && 0 <= i < lines(s)[k].len() ==> (#[trigger] lines(s)[k][i])
                != '\n',
{
    lemma_lines_from_hold_no_line_feed(s, 0);
}

/// Index of the first character at or after `from` that is not white space,
/// or the length of `s`.
pub open spec fn space_end(s: Seq<char>, from: int) -> int
    decreases s.len() - from,
{
    if from >= s.len() {
        s.len() as int
    } else if !is_space(s[from]) {
        from
    } else {
        space_end(s, from + 1)
    }
}

/// Index of the first white-space character at or after `from`, or the length
/// of `s`.
pub open spec fn word_end(s: Seq<char>, from: int) -> int
    decreases s.len() - from,
{
    if from >= s.len() {
        s.len() as int
    } else if is_space(s[from]) {
        from
    } else {
        word_end(s, from + 1)
    }
}

/// A run of white space ends between its start and the end of the text, at
/// a character that is not white space, and holds white space only.
pub proof fn lemma_space_end_bounds(s: Seq<char>, from: int)
    requires
        0 <= from <= s.len(),
    ensures
        from <= space_end(s, from) <= s.len(),
        space_end(s, from) < s.len() ==> !is_space(s[space_end(s, from)]),
        forall|i: int| from <= i < space_end(s, from) ==> is_space(s[i]),
    decreases s.len() - from,
{
    if from < s.len() && is_space(s[from]) {
        lemma_space_end_bounds(s, from + 1);
    }
}

/// A run of other characters ends between its start and the end of the
/// text, at a white-space character, and holds no white space.
pub proof fn lemma_word_end_bounds(s: Seq<char>, from: int)
    requires
        0 <= from <= s.len(),
    ensures
        from <= word_end(s, from) <= s.len(),
        word_end(s, from) < s.len() ==> is_space(s[word_end(s, from)]),
        forall|i: int| from <= i < word_end(s, from) ==> !is_space(s[i]),
    decreases s.len() - from,
{
    if from < s.len() && !is_space(s[from]) {
        lemma_word_end_bounds(s, from + 1);
    }
}

/// The tokens of `s` that begin at or after `from`, given that no token
/// straddles `from`.
pub open spec fn tokens_from(s: Seq<char>, from: int) -> Seq<Seq<char>>
    decreases s.len() - from,
{
    let start = space_end(s, from);
    if from < 0 || start >= s.len() {
        Seq::empty()
    } else {
        let end = word_end(s, start);
        proof {
            lemma_space_end_bounds(s, from);
            lemma_word_end_bounds(s, start);
        }
        if start < end {
            seq![s.subrange(start, end)] + tokens_from(s, end)
        } else {
            Seq::empty()
        }
    }
}

/// The whitespace-delimited tokens of `s`: its maximal runs of characters
/// that are not white space, in order.
pub open spec fn tokens(s: Seq<char>) -> Seq<Seq<char>> {
    tokens_from(s, 0)
}

/// Whether `start..end` is a maximal run of characters of `s` that are not
/// white space: white space or an end of the text stands on either side.
pub open spec fn is_token_at(s: Seq<char>, start: int, end: int) -> bool {
    &&& 0 <= start < end <= s.len()
    &&& forall|i: int| start <= i < end ==> !is_space(#[trigger] s[i])
    &&& (start == 0 || is_space(s[start - 1]))
    &&& (end == s.len() || is_space(s[end]))
}

/// Whether `token` stands in `s` verbatim at or after `from`, set off by
/// white space or the ends of the text.
pub open spec fn stands_as_token_from(s: Seq<char>, token: Seq<char>, from: int) -> bool {
    exists|start: int, end: int|
        from <= start && #[trigger] is_token_at(s, start, end) && s.subrange(start, end) == token
}

/// Whether `token` stands in `s` verbatim, set off by white space or the
/// ends of the text.
pub open spec fn stands_as_token(s: Seq<char>, token: Seq<char>) -> bool {
    stands_as_token_from(s, token, 0)
}

/// From a place that no token straddles, the tokens found are exactly the
/// maximal runs that begin at or after it.
pub proof fn lemma_tokens_from_are_runs(s: Seq<char>, token: Seq<char>, from: int)
    requires
        0 <= from <= s.len(),
        from == 0 || from == s.len() || is_space(s[from - 1]) || is_space(s[from]),
    ensures
        tokens_from(s, from).contains(token) <==> stands_as_token_from(s, token, from),
    decreases s.len() - from,
{
    lemma_space_end_bounds(s, from);
    let start0 = space_end(s, from);
    if start0 >= s.len() {
        if stands_as_token_from(s, token, from) {
            let (a, b) = choose|a: int, b: int|
                from <= a && #[trigger] is_token_at(s, a, b) && s.subrange(a, b) == token;
            assert(!is_space(s[a]));
            assert(false);
        }
    } else {
        lemma_word_end_bounds(s, start0);
        let end0 = word_end(s, start0);
        let first = s.subrange(start0, end0);
        let rest = tokens_from(s, end0);
        assert(tokens_from(s, from) == seq![first] + rest);
        lemma_tokens_from_are_runs(s, token, end0);
        if tokens_from(s, from).contains(token) {
            let i = choose|i: int| 0 <= i < tokens_from(s, from).len() && tokens_from(s, from)[i] == token;
            if i == 0 {
                assert(is_token_at(s, start0, end0));
            } else {
                assert(rest[i - 1] == token);
                assert(rest.contains(token));
                let (a, b) = choose|a: int, b: int|
                    end0 <= a && #[trigger] is_token_at(s, a, b) && s.subrange(a, b) == token;
                assert(from <= a && is_token_at(s, a, b));
            }
        }
        if stands_as_token_from(s, token, from) {
            let (a, b) = choose|a: int, b: int|
                from <= a && #[trigger] is_token_at(s, a, b) && s.subrange(a, b) == token;
            assert(!is_space(s[a]));
            assert(a >= start0);
            if a == start0 {
                if b < end0 {
                    assert(!is_space(s[b]));
                } else if b > end0 {
                    assert(!is_space(s[end0]));
                }
                assert(b == end0);
                assert(tokens_from(s, from)[0] == token);
            } else {
                if a < end0 {
                    assert(!is_space(s[a - 1]));
                }
                assert(end0 <= a);
                assert(stands_as_token_from(s, token, end0)) by {
                    assert(is_token_at(s, a, b));
                }
                let j = choose|j: int| 0 <= j < rest.len() && rest[j] == token;
                assert(tokens_from(s, from)[j + 1] == token);
            }
        }
    }
}

/// A name is among the tokens of a text exactly when it stands there
/// verbatim, set off by white space or the ends of the text.
pub proof fn lemma_tokens_are_runs(s: Seq<char>, token: Seq<char>)
    ensures
        tokens(s).contains(token) <==> stands_as_token(s, token),
{
    lemma_tokens_from_are_runs(s, token, 0);
}

/// A text that holds a character other than white space has a token.
pub proof fn lemma_tokens_nonempty(s: Seq<char>, at: int)
    requires
        0 <= at < s.len(),
        !is_space(s[at]),
    ensures
        tokens(s).len() > 0,
{
    lemma_space_end_bounds(s, 0);
    let start = space_end(s, 0);
    assert(start <= at) by {
        if start > at {
            assert(is_space(s[at]));
        }
    }
    lemma_word_end_bounds(s, start);
}

/// The first token of `s`, where it has one.
pub open spec fn first_token(s: Seq<char>) -> Option<Seq<char>> {
    if tokens(s).len() > 0 {
        Some(tokens(s)[0])
    } else {
        None
    }
}

/// Whether `start..end` is the first maximal run of characters of `s` that
/// are not white space: nothing but white space stands before it.
pub open spec fn is_leading_token_at(s: Seq<char>, start: int, end: int) -> bool {
    &&& is_token_at(s, start, end)
    &&& forall|i: int| 0 <= i < start ==> is_space(#[trigger] s[i])
}

/// A name is the first token of a text exactly when it is the text's first
/// maximal run of characters that are not white space.
pub proof fn lemma_first_token_is_leading_run(s: Seq<char>, token: Seq<char>)
    ensures
        first_token(s) == Some(token) <==> exists|start: int, end: int|
            #[trigger] is_leading_token_at(s, start, end) && s.subrange(start, end) == token,
{
    lemma_space_end_bounds(s, 0);
    let start0 = space_end(s, 0);
    if start0 < s.len() {
        lemma_word_end_bounds(s, start0);
        let end0 = word_end(s, start0);
        assert(tokens(s)[0] == s.subrange(start0, end0));
        assert(is_leading_token_at(s, start0, end0));
    }
    if exists|start: int, end: int| #[trigger]
        is_leading_token_at(s, start, end) && s.subrange(start, end) == token {
        let (a, b) = choose|a: int, b: int| #[trigger]
            is_leading_token_at(s, a, b) && s.subrange(a, b) == token;
        assert(!is_space(s[a]));
        if a < start0 {
            assert(is_space(s[a]));
        } else if a > start0 {
            assert(is_space(s[start0]));
        }
        let end0 = word_end(s, start0);
        if b < end0 {
            assert(!is_space(s[b]));
        } else if b > end0 {
            assert(!is_space(s[end0]));
        }
    }
}

/// The last token of `s`, where it has one.
pub open spec fn last_token(s: Seq<char>) -> Option<Seq<char>> {
    if tokens(s).len() > 0 {
        Some(tokens(s).last())
    } else {
        None
    }
}

/// Length of the first `to` characters of `s` without their trailing white
/// space.
pub open spec fn trimmed_len(s: Seq<char>, to: int) -> int
    decreases to,
{
    if 0 < to <= s.len() && is_space(s[to - 1]) {
        trimmed_len(s, to - 1)
    } else {
        to
    }
}

/// `s` without its trailing white space.
pub open spec fn trim_end(s: Seq<char>) -> Seq<char> {
    s.subrange(0, trimmed_len(s, s.len() as int))
}

/// Whether `needle` occurs in `s` at index `at`.
pub open spec fn occurs_at(s: Seq<char>, needle: Seq<char>, at: int) -> bool {
    0 <= at && at + needle.len() <= s.len() && s.subrange(at, at + needle.len()) == needle
}

/// Whether `s` begins with `needle`.
pub open spec fn has_prefix(s: Seq<char>, needle: Seq<char>) -> bool {
    occurs_at(s, needle, 0)
}

/// Whether `needle` occurs somewhere in `s`.
pub open spec fn has_substring(s: Seq<char>, needle: Seq<char>) -> bool {
    exists|at: int| occurs_at(s, needle, at)
}

/// Whether `needle` occurs in some line of `text`.
pub open spec fn some_line_contains(text: Seq<char>, needle: Seq<char>) -> bool {
    exists|k: int| 0 <= k < lines(text).len() && has_substring(#[trigger] lines(text)[k], needle)
}

/// A half-open range of indices into a text.
#[derive(Clone, Copy, Debug, PartialEq, Eq, Structural)]
pub struct Span {
    pub start: usize,
    pub end: usize,
}

impl Span {
    /// Whether the span lies inside `s`.
    pub open spec fn fits(self, s: Seq<char>) -> bool {
        self.start <= self.end <= s.len()
    }

    /// The part of `s` that the span covers.
    pub open spec fn of(self, s: Seq<char>) -> Seq<char> {
        s.subrange(self.start as int, self.end as int)
    }
}

/// Whether `spans` cut exactly the `pieces` out of `s`, one span per piece
/// and in the same order.
pub open spec fn spans_cut(spans: Seq<Span>, s: Seq<char>, pieces: Seq<Seq<char>>) -> bool {
    &&& spans.len() == pieces.len()
    &&& forall|k: int| 0 <= k < spans.len() ==> (#[trigger] spans[k]).fits(s)
    &&& forall|k: int| 0 <= k < spans.len() ==> (#[trigger] spans[k]).of(s) == pieces[k]
}

/// The characters of `s`, in order.
pub fn chars_of(s: &str) -> (out: Vec<char>)
    ensures
        out@ == s@,
{
    let mut out: Vec<char> = Vec::new();
    for c in it: s.chars()
        invariant
            it.seq() == s@,
            out@ == s@.subrange(0, it.index() as int),
    {
        out.push(c);
    }
    out
}

/// A copy of `s[from..to]`.
pub fn copy_range(s: &Vec<char>, from: usize, to: usize) -> (out: Vec<char>)
    requires
        from <= to <= s.len(),
    ensures
        out@ == s@.subrange(from as int, to as int),
{
    let mut out: Vec<char> = Vec::new();
    let mut i: usize = from;
    while i < to
        invariant
            from <= i <= to <= s.len(),
            out@ == s@.subrange(from as int, i as int),
        decreases to - i,
    {
        out.push(s[i]);
        assert(out@ =~= s@.subrange(from as int, i + 1));
        i += 1;
    }
    out
}

/// Tests a character for Unicode white space.
pub fn is_space_char(c: char) -> (b: bool)
    ensures
        b == is_space(c),
{
    let n: u32 = c as u32;
    (0x09 <= n && n <= 0x0D) || n == 0x20 || n == 0x85 || n == 0xA0 || n == 0x1680 || (0x2000 <= n
        && n <= 0x200A) || n == 0x2028 || n == 0x2029 || n == 0x202F || n == 0x205F || n == 0x3000
}

/// Finds the end of the line that begins at `from`.
pub fn find_line_end(s: &Vec<char>, from: usize) -> (end: usize)
    requires
        from <= s.len(),
    ensures
        from <= end <= s.len(),
        end == line_end(s@, from as int),
{
    let mut end: usize = from;
    while end < s.len() && s[end] != '\n'
        invariant
            from <= end <= s.len(),
            line_end(s@, from as int) == line_end(s@, end as int),
        decreases s.len() - end,
    {
        end += 1;
    }
    end
}

/// Cuts `s` into its lines.
pub fn split_lines(s: &Vec<char>) -> (spans: Vec<Span>)
    ensures
        spans_cut(spans@, s@, lines(s@)),
{
    let n: usize = s.len();
    let mut spans: Vec<Span> = Vec::new();
    let mut pos: usize = 0;
    let ghost mut done: Seq<Seq<char>> = Seq::empty();
    while pos < n
        invariant
            n == s.len(),
            pos <= n,
            spans_cut(spans@, s@, done),
            lines(s@) == done + lines_from(s@, pos as int),
        decreases n - pos,
    {
        let end: usize = find_line_end(s, pos);
        let stop: usize = if pos < end && end < n && s[end - 1] == '\r' {
            end - 1
        } else {
            end
        };
        let ghost rest = lines_from(s@, end + 1);
        let ghost piece = s@.subrange(pos as int, stop as int);
        proof {
            assert(lines_from(s@, pos as int) == seq![piece] + rest);
            assert(done + (seq![piece] + rest) =~= done.push(piece) + rest);
            done = done.push(piece);
        }
        spans.push(Span { start: pos, end: stop });
        if end < n {
            pos = end + 1;
        } else {
            pos = n;
        }
    }
    proof {
        assert(done + lines_from(s@, pos as int) =~= done);
    }
    spans
}

/// Skips the white space of `s[from..to]` that begins at `pos`.
pub fn skip_spaces(s: &Vec<char>, from: usize, pos: usize, to: usize) -> (p: usize)
    requires
        from <= pos <= to <= s.len(),
    ensures
        pos <= p <= to,
        p - from == space_end(s@.subrange(from as int, to as int), pos - from),
{
    let ghost part = s@.subrange(from as int, to as int);
    let mut p: usize = pos;
    while p < to && is_space_char(s[p])
        invariant
            from <= pos <= p <= to <= s.len(),
            part == s@.subrange(from as int, to as int),
            space_end(part, pos - from) == space_end(part, p - from),
        decreases to - p,
    {
        assert(part[p - from] == s@[p as int]);
        p += 1;
    }
    assert(p < to ==> part[p - from] == s@[p as int]);
    p
}

/// Skips the characters of `s[from..to]` from `pos` up to the next white
/// space.
pub fn skip_word(s: &Vec<char>, from: usize, pos: usize, to: usize) -> (p: usize)
    requires
        from <= pos <= to <= s.len(),
    ensures
        pos <= p <= to,
        p - from == word_end(s@.subrange(from as int, to as int), pos - from),
{
    let ghost part = s@.subrange(from as int, to as int);
    let mut p: usize = pos;
    while p < to && !is_space_char(s[p])
        invariant
            from <= pos <= p <= to <= s.len(),
            part == s@.subrange(from as int, to as int),
            word_end(part, pos - from) == word_end(part, p - from),
        decreases to - p,
    {
        assert(part[p - from] == s@[p as int]);
        p += 1;
    }
    assert(p < to ==> part[p - from] == s@[p as int]);
    p
}

/// Cuts `s[from..to]` into its whitespace-delimited tokens.
pub fn split_tokens(s: &Vec<char>, from: usize, to: usize) -> (spans: Vec<Span>)
    requires
        from <= to <= s.len(),
    ensures
        spans_cut(spans@, s@, tokens(s@.subrange(from as int, to as int))),
        forall|k: int| 0 <= k < spans.len() ==> from <= (#[trigger] spans[k]).start && spans[k].end <= to,
{
    let ghost part = s@.subrange(from as int, to as int);
    let mut spans: Vec<Span> = Vec::new();
    let mut pos: usize = from;
    let ghost mut done: Seq<Seq<char>> = Seq::empty();
    while pos < to
        invariant
            from <= pos <= to <= s.len(),
            part == s@.subrange(from as int, to as int),
            spans_cut(spans@, s@, done),
            forall|k: int| 0 <= k < spans.len() ==> from <= (#[trigger] spans[k]).start && spans[k].end <= to,
            tokens(part) == done + tokens_from(part, pos - from),
        decreases to - pos,
    {
        let start: usize = skip_spaces(s, from, pos, to);
        if start >= to {
            proof {
                assert(tokens_from(part, pos - from) =~= Seq::empty());
            }
            pos = to;
        } else {
            let end: usize = skip_word(s, from, start, to);
            proof {
                lemma_space_end_bounds(part, pos - from);
                lemma_word_end_bounds(part, start - from);
                assert(start < end);
                let piece = part.subrange(start - from, end - from);
                let rest = tokens_from(part, end - from);
                assert(tokens_from(part, pos - from) == seq![piece] + rest);
                assert(done + (seq![piece] + rest) =~= done.push(piece) + rest);
                assert(piece =~= s@.subrange(start as int, end as int));
                done = done.push(piece);
            }
            spans.push(Span { start, end });
            pos = end;
        }
    }
    proof {
        assert(tokens_from(part, pos - from) =~= Seq::empty());
        assert(done + tokens_from(part, pos - from) =~= done);
    }
    spans
}

/// Finds the first token of `s[from..to]`.
pub fn first_token_span(s: &Vec<char>, from: usize, to: usize) -> (found: Option<Span>)
    requires
        from <= to <= s.len(),
    ensures
        match found {
            Some(span) => span.fits(s@) && from <= span.start && span.end <= to && first_token(
                s@.subrange(from as int, to as int),
            ) == Some(span.of(s@)),
            None => first_token(s@.subrange(from as int, to as int)) is None,
        },
{
    let ghost part = s@.subrange(from as int, to as int);
    let start: usize = skip_spaces(s, from, from, to);
    if start >= to {
        return None;
    }
    let end: usize = skip_word(s, from, start, to);
    proof {
        lemma_space_end_bounds(part, 0);
        lemma_word_end_bounds(part, start - from);
        assert(part.subrange(start - from, end - from) =~= s@.subrange(start as int, end as int));
    }
    Some(Span { start, end })
}

/// Finds the last token of `s[from..to]`.
pub fn last_token_span(s: &Vec<char>, from: usize, to: usize) -> (found: Option<Span>)
    requires
        from <= to <= s.len(),
    ensures
        match found {
            Some(span) => span.fits(s@) && from <= span.start && span.end <= to && last_token(
                s@.subrange(from as int, to as int),
            ) == Some(span.of(s@)),
            None => last_token(s@.subrange(from as int, to as int)) is None,
        },
{
    let spans = split_tokens(s, from, to);
    if spans.len() == 0 {
        None
    } else {
        Some(spans[spans.len() - 1])
    }
}

/// Finds where `s` ends once its trailing white space is left out.
pub fn trim_end_len(s: &Vec<char>) -> (n: usize)
    ensures
        n == trimmed_len(s@, s.len() as int),
        n <= s.len(),
{
    let mut n: usize = s.len();
    while n > 0 && is_space_char(s[n - 1])
        invariant
            n <= s.len(),
            trimmed_len(s@, s.len() as int) == trimmed_len(s@, n as int),
        decreases n,
    {
        n -= 1;
    }
    n
}

/// Tests whether `s[from..to]` begins with `needle`.
pub fn range_has_prefix(s: &Vec<char>, from: usize, to: usize, needle: &Vec<char>) -> (b: bool)
    requires
        from <= to <= s.len(),
    ensures
        b == has_prefix(s@.subrange(from as int, to as int), needle@),
{
    let ghost part = s@.subrange(from as int, to as int);
    let m: usize = needle.len();
    if m > to - from {
        return false;
    }
    let mut i: usize = 0;
    while i < m
        invariant
            from <= to <= s.len(),
            m == needle.len(),
            m <= to - from,
            i <= m,
            part == s@.subrange(from as int, to as int),
            forall|j: int| 0 <= j < i ==> part[j] == needle@[j],
        decreases m - i,
    {
        if s[from + i] != needle[i] {
            proof {
                assert(part[i as int] == s@[from + i]);
                assert(part.subrange(0, m as int)[i as int] != needle@[i as int]);
            }
            return false;
        }
        assert(part[i as int] == s@[from + i]);
        i += 1;
    }
    assert(part.subrange(0, m as int) =~= needle@);
    true
}

/// Tests whether `s[from..to]` is `other`.
pub fn range_equals(s: &Vec<char>, from: usize, to: usize, other: &Vec<char>) -> (b: bool)
    requires
        from <= to <= s.len(),
    ensures
        b == (s@.subrange(from as int, to as int) == other@),
{
    let ghost part = s@.subrange(from as int, to as int);
    if other.len() != to - from {
        return false;
    }
    let b = range_has_prefix(s, from, to, other);
    assert(part.subrange(0, other.len() as int) =~= part);
    b
}

/// Tests whether `needle` occurs in `s[from..to]`.
pub fn range_contains(s: &Vec<char>, from: usize, to: usize, needle: &Vec<char>) -> (b: bool)
    requires
        from <= to <= s.len(),
    ensures
        b == has_substring(s@.subrange(from as int, to as int), needle@),
{
    let ghost part = s@.subrange(from as int, to as int);
    let m: usize = needle.len();
    if m > to - from {
        assert(forall|at: int| !occurs_at(part, needle@, at));
        return false;
    }
    if m == 0 {
        assert(part.subrange(0, 0) =~= needle@);
        assert(occurs_at(part, needle@, 0));
        return true;
    }
    let last: usize = to - m;
    let mut p: usize = from;
    while p <= last
        invariant
            from <= p <= last + 1,
            last == to - m,
            0 < m == needle.len(),
            from <= to <= s.len(),
            part == s@.subrange(from as int, to as int),
            forall|at: int| 0 <= at < p - from ==> !occurs_at(part, needle@, at),
        decreases last + 1 - p,
    {
        let hit = range_has_prefix(s, p, to, needle);
        proof {
            assert(s@.subrange(p as int, to as int).subrange(0, m as int) =~= part.subrange(
                p - from,
                p - from + m,
            ));
        }
        if hit {
            assert(occurs_at(part, needle@, p - from));
            return true;
        }
        p += 1;
    }
    assert(forall|at: int| !occurs_at(part, needle@, at));
    false
}

/// Tests whether `needle` occurs in some line of `text`.
pub fn any_line_contains(text: &str, needle: &str) -> (found: bool)
    ensures
        found == some_line_contains(text@, needle@),
{
    let chars = chars_of(text);
    let wanted = chars_of(needle);
    let spans = split_lines(&chars);
    let ghost ls = lines(chars@);
    let mut i: usize = 0;
    while i < spans.len()
        invariant
            i <= spans.len(),
            chars@ == text@,
            wanted@ == needle@,
            ls == lines(chars@),
            spans_cut(spans@, chars@, ls),
            forall|k: int| 0 <= k < i ==> !has_substring(#[trigger] ls[k], wanted@),
        decreases spans.len() - i,
    {
        let line = spans[i];
        assert(line.fits(chars@));
        assert(line.of(chars@) == ls[i as int]);
        if range_contains(&chars, line.start, line.end, &wanted) {
            return true;
        }
        i += 1;
    }
    false
}

} // verus!
