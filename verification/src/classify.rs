//! Deciding how a query text is to be read: as free text that tolerates
//! typing errors, or as a query written in the structured syntax.

use vstd::prelude::*;

verus! {

/// The two retrieval strategies.
#[derive(Clone, Copy, Debug, PartialEq, Eq, Structural)]
pub enum QueryKind {
    /// Free text: matched as one term, within a bounded edit distance.
    Fuzzy,
    /// Boolean operators, phrases, ranges or wildcards: parsed by the query grammar.
    Structured,
}

/// `pattern` stands in `text` at position `at`.
pub open spec fn occurs_at(text: Seq<char>, pattern: Seq<char>, at: int) -> bool {
    &&& 0 <= at
    &&& at + pattern.len() <= text.len()
    &&& text.subrange(at, at + pattern.len()) == pattern
}

/// `pattern` stands somewhere in `text`.
pub open spec fn has_substring(text: Seq<char>, pattern: Seq<char>) -> bool {
    exists|at: int| occurs_at(text, pattern, at)
}

/// The wildcard marker.
pub open spec fn wildcard_marker() -> Seq<char> {
    seq!['*']
}

/// The conjunction operator.
pub open spec fn and_marker() -> Seq<char> {
    seq!['A', 'N', 'D']
}

/// The disjunction operator.
pub open spec fn or_marker() -> Seq<char> {
    seq!['O', 'R']
}

/// The opening bracket of a range.
pub open spec fn range_marker() -> Seq<char> {
    seq!['[']
}

/// The quote character of a phrase.
pub open spec fn quote_marker() -> Seq<char> {
    seq!['"']
}

/// A text asks for the structured syntax when one of the five markers stands in it.
pub open spec fn is_structured(text: Seq<char>) -> bool {
    ||| has_substring(text, wildcard_marker())
    ||| has_substring(text, and_marker())
    ||| has_substring(text, or_marker())
    ||| has_substring(text, range_marker())
    ||| has_substring(text, quote_marker())
}

/// The strategy that a query text selects.
pub open spec fn classification(text: Seq<char>) -> QueryKind {
    if is_structured(text) {
        QueryKind::Structured
    } else {
        QueryKind::Fuzzy
    }
}

/// The characters of a string slice, in order.
pub fn chars_of(text: &str) -> (chars: Vec<char>)
    ensures
        chars@ == text@,
{
    let mut chars: Vec<char> = Vec::new();
    for c in it: text.chars()
        invariant
            chars@ == it.seq().take(it.index() as int),
            it.seq() == text@,
    {
        chars.push(c);
    }
    chars
}

/// Whether `pattern` stands in `text` at position `at`.
fn matches_at(text: &Vec<char>, pattern: &Vec<char>, at: usize) -> (found: bool)
    requires
        at + pattern.len() <= text.len(),
    ensures
        found == occurs_at(text@, pattern@, at as int),
{
    let mut k: usize = 0;
    while k < pattern.len()
        invariant
            k <= pattern.len(),
            at + pattern.len() <= text.len(),
            forall|j: int| 0 <= j < k ==> text@[at + j] == pattern@[j],
        decreases pattern.len() - k,
    {
        if text[at + k] != pattern[k] {
            assert(text@.subrange(at as int, at + pattern.len())[k as int] != pattern@[k as int]);
            return false;
        }
        k += 1;
    }
    assert(text@.subrange(at as int, at + pattern.len()) =~= pattern@);
    true
}

/// Whether `pattern` stands somewhere in `text`.
pub fn contains_chars(text: &Vec<char>, pattern: &Vec<char>) -> (found: bool)
    ensures
        found == has_substring(text@, pattern@),
{
    if pattern.len() > text.len() {
        return false;
    }
    let last: usize = text.len() - pattern.len();
    let mut at: usize = 0;
    loop
        invariant
            at <= last,
            last == text.len() - pattern.len(),
            forall|j: int| 0 <= j < at ==> !occurs_at(text@, pattern@, j),
        decreases last - at,
    {
        if matches_at(text, pattern, at) {
            return true;
        }
        if at == last {
            return false;
        }
        at += 1;
    }
}

/// Classifies a query text: structured when one of the markers `*`, `AND`, `OR`, `[`
/// or `"` stands in it, fuzzy otherwise.
pub fn classify(text: &str) -> (kind: QueryKind)
    ensures
        kind == classification(text@),
{
    let chars = chars_of(text);
    let wildcard: Vec<char> = vec!['*'];
    let and: Vec<char> = vec!['A', 'N', 'D'];
    let or: Vec<char> = vec!['O', 'R'];
    let range: Vec<char> = vec!['['];
    let quote: Vec<char> = vec!['"'];
    assert(wildcard@ =~= wildcard_marker());
    assert(and@ =~= and_marker());
    assert(or@ =~= or_marker());
    assert(range@ =~= range_marker());
    assert(quote@ =~= quote_marker());
    if contains_chars(&chars, &wildcard) || contains_chars(&chars, &and) || contains_chars(
        &chars,
        &or,
    ) || contains_chars(&chars, &range) || contains_chars(&chars, &quote) {
        QueryKind::Structured
    } else {
        QueryKind::Fuzzy
    }
}

} // verus!
