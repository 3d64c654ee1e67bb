use vstd::prelude::*;
use vstd::utf8::{decode_utf8, valid_utf8};

use grep::matcher::Matcher;
use grep::regex::RegexMatcher;

use crate::entries::Match;

verus! {

/// grep's regular-expression matcher, carried through as is.
#[verifier::external_type_specification]
#[verifier::external_body]
pub struct ExRegexMatcher(RegexMatcher);

/// `spans` are half-open ranges within a line of `len` bytes, each starting
/// no earlier than the previous one ends.
pub open spec fn spans_in_order(spans: Seq<(usize, usize)>, len: nat) -> bool {
    &&& forall|i: int| 0 <= i < spans.len() ==> #[trigger] spans[i].0 <= spans[i].1 <= len
    &&& forall|i: int| 0 <= i < spans.len() - 1 ==> #[trigger] spans[i].1 <= spans[i + 1].0
}

/// Relies on grep's `Matcher::find_iter` as `RegexMatcher` implements it: it
/// reports the successive non-overlapping matches in `line` in order, each a
/// range `start <= end` within the line, and never fails.
#[verifier::external_body]
fn find_spans(matcher: &RegexMatcher, line: &[u8]) -> (r: Vec<(usize, usize)>)
    ensures
        spans_in_order(r@, line@.len()),
{
    let mut offsets = vec![];
    let _ = matcher.find_iter(line, |m| {
        offsets.push((m.start(), m.end()));
        true
    });
    offsets
}

/// Relies on `std::str::from_utf8`: it accepts exactly the well-formed UTF-8
/// byte strings, and returns the characters they encode.
#[verifier::external_body]
fn utf8_text(b: &[u8]) -> (r: Option<String>)
    ensures
        r is Some <==> valid_utf8(b@),
        r matches Some(s) ==> s@ == decode_utf8(b@),
{
    match std::str::from_utf8(b) {
        Ok(t) => Some(t.to_string()),
        Err(_) => None,
    }
}

/// Why a matched line could not be taken.
#[derive(Clone, Copy, Debug, PartialEq, Eq, Structural)]
pub enum SinkError {
    /// The searcher reported a matched line without its line number.
    MissingLineNumber,
}

/// Collects the matches of one file, one per matched line, with the ranges
/// that `matcher` finds in each.
pub struct MatchesSink {
    matcher: RegexMatcher,
    matches_in_entry: Vec<Match>,
}

impl MatchesSink {
    /// A sink holding no match yet.
    pub fn new(matcher: RegexMatcher) -> (r: MatchesSink)
        ensures
            r.matcher() == matcher,
            r.matches().len() == 0,
    {
        MatchesSink { matcher, matches_in_entry: Vec::new() }
    }

    /// The matcher that finds the ranges of each line.
    pub closed spec fn matcher(&self) -> RegexMatcher {
        self.matcher
    }

    /// The matches collected so far, in the order their lines were reported.
    pub closed spec fn matches(&self) -> Seq<Match> {
        self.matches_in_entry@
    }

    /// Takes one matched line: its line number as reported by the searcher,
    /// its raw bytes, and the byte ranges of the matches found in it. A line
    /// that is not valid UTF-8 is dropped. Scanning always goes on
    /// (`Ok(true)`); only a missing line number is an error.
    pub fn add_line(
        &mut self,
        line_number: Option<u64>,
        line: &[u8],
        offsets: Vec<(usize, usize)>,
    ) -> (r: Result<bool, SinkError>)
        requires
            spans_in_order(offsets@, line@.len()),
        ensures
            final(self).matcher() == old(self).matcher(),
            match line_number {
                None => r == Err::<bool, SinkError>(SinkError::MissingLineNumber)
                    && final(self).matches() == old(self).matches(),
                Some(n) => r == Ok::<bool, SinkError>(true) && if valid_utf8(line@) {
                    let ms = final(self).matches();
                    &&& ms.len() == old(self).matches().len() + 1
                    &&& ms.drop_last() == old(self).matches()
                    &&& ms.last().line_number == n
                    &&& ms.last().text@ == decode_utf8(line@)
                    &&& ms.last().offsets@ == offsets@
                    &&& spans_in_order(ms.last().offsets@, line@.len())
                } else {
                    final(self).matches() == old(self).matches()
                },
            },
    {
        let n = match line_number {
            Some(n) => n,
            None => return Err(SinkError::MissingLineNumber),
        };
        if let Some(text) = utf8_text(line) {
            self.matches_in_entry.push(Match::new(n, text, offsets));
            assert(self.matches().drop_last() =~= old(self).matches());
        }
        Ok(true)
    }

    /// Takes one matched line as `add_line` does, with the ranges of every
    /// match of the sink's matcher in the line.
    pub fn matched(&mut self, line_number: Option<u64>, line: &[u8]) -> (r: Result<bool, SinkError>)
        ensures
            final(self).matcher() == old(self).matcher(),
            match line_number {
                None => r == Err::<bool, SinkError>(SinkError::MissingLineNumber)
                    && final(self).matches() == old(self).matches(),
                Some(n) => r == Ok::<bool, SinkError>(true) && if valid_utf8(line@) {
                    let ms = final(self).matches();
                    &&& ms.len() == old(self).matches().len() + 1
                    &&& ms.drop_last() == old(self).matches()
                    &&& ms.last().line_number == n
                    &&& ms.last().text@ == decode_utf8(line@)
                    &&& spans_in_order(ms.last().offsets@, line@.len())
                } else {
                    final(self).matches() == old(self).matches()
                },
            },
    {
        if line_number.is_none() {
            return Err(SinkError::MissingLineNumber);
        }
        let offsets = find_spans(&self.matcher, line);
        self.add_line(line_number, line, offsets)
    }

    /// The collected matches.
    pub fn into_matches(self) -> (r: Vec<Match>)
        ensures
            r@ == self.matches(),
    {
        self.matches_in_entry
    }
}

} // verus!
