//! The default outbound network interface, read from the routing table.

use vstd::prelude::*;
use vstd::string::*;
use crate::text::{
    chars_of, has_prefix, is_space, is_space_char, last_token_span, lemma_tokens_nonempty, lines,
    range_has_prefix, spans_cut, split_lines, tokens,
};
use crate::verdict::{text_view, ProbeError};

verus! {

/// Whether a line of the routing table describes the default route: it
/// begins with the word `default`, and white space follows the word.
pub open spec fn is_default_line(line: Seq<char>) -> bool {
    &&& has_prefix(line, "default"@)
    &&& line.len() > "default"@.len()
    &&& is_space(line["default"@.len() as int])
}

/// Index of the first default-route line at or after `from`, or the number
/// of lines where there is none.
pub open spec fn first_default_line(ls: Seq<Seq<char>>, from: int) -> int
    decreases ls.len() - from,
{
    if from >= ls.len() {
        ls.len() as int
    } else if is_default_line(ls[from]) {
        from
    } else {
        first_default_line(ls, from + 1)
    }
}

/// The interface of the default route in a routing table: the last token of
/// the first default-route line. A table without such a line has no default
/// route.
pub open spec fn default_interface(table: Seq<char>) -> Result<Seq<char>, ProbeError> {
    let ls = lines(table);
    let k = first_default_line(ls, 0);
    if k < ls.len() {
        Ok(tokens(ls[k]).last())
    } else {
        Err(ProbeError::NoDefaultRoute)
    }
}

/// The default interface for a collected routing table. A table that could
/// not be collected leaves the failure as it is.
pub open spec fn resolve_interface(table: Result<Seq<char>, ProbeError>) -> Result<
    Seq<char>,
    ProbeError,
> {
    match table {
        Ok(text) => default_interface(text),
        Err(e) => Err(e),
    }
}

/// Finds the name of the default outbound interface in the text of a
/// routing table.
pub fn parse_default_interface(table: &str) -> (found: Result<String, ProbeError>)
    ensures
        text_view(found) == default_interface(table@),
{
    let chars = chars_of(table);
    let word = chars_of("default");
    let spans = split_lines(&chars);
    let ghost ls = lines(chars@);
    let mut i: usize = 0;
    while i < spans.len()
        invariant
            i <= spans.len(),
            chars@ == table@,
            word@ == "default"@,
            ls == lines(chars@),
            spans_cut(spans@, chars@, ls),
            first_default_line(ls, 0) == first_default_line(ls, i as int),
        decreases spans.len() - i,
    {
        let line = spans[i];
        assert(line.fits(chars@));
        assert(line.of(chars@) == ls[i as int]);
        if range_has_prefix(&chars, line.start, line.end, &word) && word.len() < line.end
            - line.start && is_space_char(chars[line.start + word.len()]) {
            assert(ls[i as int][word.len() as int] == chars@[line.start + word.len()]);
            assert(is_default_line(ls[i as int]));
            proof {
                reveal_strlit("default");
                assert(ls[i as int].subrange(0, 7)[0] == 'd');
                lemma_tokens_nonempty(ls[i as int], 0);
            }
            // The word itself is a token, so the line has a last one.
            match last_token_span(&chars, line.start, line.end) {
                Some(span) => {
                    let name = table.substring_char(span.start, span.end);
                    return Ok(name.to_owned());
                },
                None => {
                    return Err(ProbeError::NoDefaultRoute);
                },
            }
        }
        assert(!is_default_line(ls[i as int])) by {
            if word.len() < line.end - line.start {
                assert(ls[i as int][word.len() as int] == chars@[line.start + word.len()]);
            }
        }
        i += 1;
    }
    Err(ProbeError::NoDefaultRoute)
}

/// Resolves the default outbound interface from a collected routing table.
pub fn default_network_interface(table: &Result<String, ProbeError>) -> (found: Result<
    String,
    ProbeError,
>)
    ensures
        text_view(found) == resolve_interface(text_view(*table)),
{
    match table {
        Ok(text) => parse_default_interface(text.as_str()),
        Err(e) => Err(*e),
    }
}

} // verus!
