//! Collapsing the matches of a search into the subjects they belong to: each subject
//! once, at the place of its first match.

use vstd::prelude::*;
use crate::error::SearchError;
use crate::index::{DocRef, FieldValue, first_stored_value, stored_documents};
use crate::query::{Fields, MatchSet};

verus! {

/// The distinct items of a sequence, each at the place of its first occurrence.
pub open spec fn dedup(items: Seq<Seq<char>>) -> Seq<Seq<char>>
    decreases items.len(),
{
    if items.len() == 0 {
        Seq::empty()
    } else {
        let earlier = dedup(items.drop_last());
        if earlier.contains(items.last()) {
            earlier
        } else {
            earlier.push(items.last())
        }
    }
}

/// The positions in `items` at which an item occurs for the first time, ascending.
pub open spec fn first_positions(items: Seq<Seq<char>>) -> Seq<int>
    decreases items.len(),
{
    if items.len() == 0 {
        Seq::empty()
    } else {
        let earlier = first_positions(items.drop_last());
        if items.drop_last().contains(items.last()) {
            earlier
        } else {
            earlier.push(items.len() - 1)
        }
    }
}

/// `part` is made of the items of `whole` at `positions`, which ascend.
pub open spec fn is_subsequence_at(
    part: Seq<Seq<char>>,
    whole: Seq<Seq<char>>,
    positions: Seq<int>,
) -> bool {
    &&& positions.len() == part.len()
    &&& forall|k: int| 0 <= k < positions.len() ==> 0 <= #[trigger] positions[k] < whole.len()
    &&& forall|k: int, l: int|
        0 <= k < l < positions.len() ==> #[trigger] positions[k] < #[trigger] positions[l]
    &&& forall|k: int| 0 <= k < positions.len() ==> whole[#[trigger] positions[k]] == part[k]
}

/// The texts of strings.
pub open spec fn texts(strings: Seq<String>) -> Seq<Seq<char>> {
    strings.map_values(|s: String| s@)
}

/// What a field value is as a subject: its text, or nothing where it is no string.
pub open spec fn as_subject(value: FieldValue) -> Option<Seq<char>> {
    match value {
        FieldValue::Text(text) => Some(text@),
        _ => None,
    }
}

/// What the documents at `hits` hold as subjects, in order.
pub open spec fn stored_subjects(searcher: tantivy::Searcher, field: u32, hits: Seq<DocRef>) -> Seq<
    Option<Seq<char>>,
> {
    Seq::new(
        hits.len(),
        |i: int|
            {
                let document = stored_documents(searcher)[hits[i].key()];
                if document.contains_key(field) {
                    document[field]
                } else {
                    None
                }
            },
    )
}

/// Every entry is a text.
pub open spec fn all_texts(read: Seq<Option<Seq<char>>>) -> bool {
    forall|i: int| 0 <= i < read.len() ==> #[trigger] read[i] is Some
}

/// The result of deduplication, given what each match holds as its subject: the
/// distinct subjects in the order of their first match, or `SchemaViolation` where a
/// match holds no string.
pub open spec fn dedupe_outcome(read: Seq<Option<Seq<char>>>) -> Result<
    Seq<Seq<char>>,
    SearchError,
> {
    if all_texts(read) {
        Ok(dedup(read.map_values(|entry: Option<Seq<char>>| entry.unwrap())))
    } else {
        Err(SearchError::SchemaViolation)
    }
}

/// An item is in the deduplicated sequence exactly if it is in the sequence.
pub proof fn lemma_dedup_members(items: Seq<Seq<char>>, item: Seq<char>)
    ensures
        dedup(items).contains(item) <==> items.contains(item),
    decreases items.len(),
{
    if items.len() > 0 {
        let front = items.drop_last();
        lemma_dedup_members(front, item);
        lemma_dedup_members(front, items.last());
        if items.contains(item) {
            let i = choose|i: int| 0 <= i < items.len() && items[i] == item;
            if i < front.len() {
                assert(front[i] == item);
            }
        }
        if front.contains(item) {
            let i = choose|i: int| 0 <= i < front.len() && front[i] == item;
            assert(items[i] == item);
        }
        assert(items[items.len() - 1] == items.last());
        let earlier = dedup(front);
        if !earlier.contains(items.last()) {
            let grown = earlier.push(items.last());
            assert(grown[grown.len() - 1] == items.last());
            if earlier.contains(item) {
                let i = choose|i: int| 0 <= i < earlier.len() && earlier[i] == item;
                assert(grown[i] == item);
            }
            if grown.contains(item) {
                let i = choose|i: int| 0 <= i < grown.len() && grown[i] == item;
                if i < earlier.len() {
                    assert(earlier[i] == item);
                }
            }
        }
    }
}

/// The deduplicated sequence is never longer than the sequence.
pub proof fn lemma_dedup_length(items: Seq<Seq<char>>)
    ensures
        dedup(items).len() <= items.len(),
    decreases items.len(),
{
    if items.len() > 0 {
        lemma_dedup_length(items.drop_last());
    }
}

/// No item occurs twice in the deduplicated sequence.
pub proof fn lemma_dedup_distinct(items: Seq<Seq<char>>)
    ensures
        dedup(items).no_duplicates(),
    decreases items.len(),
{
    if items.len() > 0 {
        lemma_dedup_distinct(items.drop_last());
    }
}

/// The deduplicated sequence is a subsequence of the sequence that keeps its
/// order: it is made of the items at the positions of first occurrence, and those
/// positions ascend.
pub proof fn lemma_dedup_subsequence(items: Seq<Seq<char>>)
    ensures
        is_subsequence_at(dedup(items), items, first_positions(items)),
        forall|k: int, j: int|
            0 <= k < first_positions(items).len() && 0 <= j < first_positions(items)[k]
                ==> #[trigger] items[j] != #[trigger] dedup(items)[k],
    decreases items.len(),
{
    if items.len() > 0 {
        let front = items.drop_last();
        lemma_dedup_subsequence(front);
        lemma_dedup_members(front, items.last());
        let positions = first_positions(items);
        let part = dedup(items);
        assert forall|k: int| 0 <= k < positions.len() implies items[#[trigger] positions[k]]
            == part[k] by {
            if k < first_positions(front).len() {
                assert(first_positions(front)[k] == positions[k]);
                assert(front[first_positions(front)[k]] == dedup(front)[k]);
            }
        }
        assert forall|k: int, l: int| 0 <= k < l < positions.len() implies #[trigger] positions[k]
            < #[trigger] positions[l] by {
            if l < first_positions(front).len() {
                assert(first_positions(front)[k] < first_positions(front)[l]);
            } else {
                assert(first_positions(front)[k] < front.len());
            }
        }
        assert forall|k: int, j: int|
            0 <= k < positions.len() && 0 <= j < positions[k] implies #[trigger] items[j]
            != #[trigger] part[k] by {
            if k < first_positions(front).len() {
                assert(front[j] != dedup(front)[k]);
            } else {
                if items[j] == items.last() {
                    assert(front[j] == items.last());
                }
            }
        }
    }
}

/// A sequence without repeats is its own deduplication: every match counts.
pub proof fn lemma_dedup_of_distinct(items: Seq<Seq<char>>)
    requires
        items.no_duplicates(),
    ensures
        dedup(items) == items,
    decreases items.len(),
{
    if items.len() > 0 {
        let front = items.drop_last();
        lemma_dedup_of_distinct(front);
        lemma_dedup_members(front, items.last());
        if front.contains(items.last()) {
            let i = choose|i: int| 0 <= i < front.len() && front[i] == items.last();
            assert(items[i] == items[items.len() - 1]);
        }
        assert(front.push(items.last()) =~= items);
    }
}

/// For every match set whose documents all hold a string as their subject, the
/// deduplicated subjects are no more than the matches, none of them occurs twice, and
/// they are a subsequence of the subjects of the matches that keeps their order: each
/// stands where it was first matched.
pub proof fn lemma_dedupe_keeps_order(read: Seq<Option<Seq<char>>>)
    ensures
        dedupe_outcome(read) is Ok <==> all_texts(read),
        dedupe_outcome(read) matches Ok(subjects) ==> {
            let matched = read.map_values(|entry: Option<Seq<char>>| entry.unwrap());
            &&& subjects.len() <= read.len()
            &&& subjects.no_duplicates()
            &&& is_subsequence_at(subjects, matched, first_positions(matched))
            &&& forall|item: Seq<char>| subjects.contains(item) <==> matched.contains(item)
        },
{
    let matched = read.map_values(|entry: Option<Seq<char>>| entry.unwrap());
    lemma_dedup_length(matched);
    lemma_dedup_distinct(matched);
    lemma_dedup_subsequence(matched);
    assert forall|item: Seq<char>| dedup(matched).contains(item) <==> matched.contains(item) by {
        lemma_dedup_members(matched, item);
    }
}

/// Matches of entities that all differ give as many subjects as there are matches,
/// in the order of the matches.
pub proof fn lemma_dedupe_of_distinct(read: Seq<Option<Seq<char>>>)
    requires
        all_texts(read),
        read.map_values(|entry: Option<Seq<char>>| entry.unwrap()).no_duplicates(),
    ensures
        dedupe_outcome(read) == Ok::<Seq<Seq<char>>, SearchError>(
            read.map_values(|entry: Option<Seq<char>>| entry.unwrap()),
        ),
{
    lemma_dedup_of_distinct(read.map_values(|entry: Option<Seq<char>>| entry.unwrap()));
}

/// No matches give no subjects, and no failure.
pub proof fn lemma_dedupe_of_nothing()
    ensures
        dedupe_outcome(Seq::empty()) == Ok::<Seq<Seq<char>>, SearchError>(Seq::empty()),
{
    assert(Seq::<Option<Seq<char>>>::empty().map_values(|entry: Option<Seq<char>>| entry.unwrap())
        =~= Seq::<Seq<char>>::empty());
}

/// Whether a subject is among those collected so far.
pub fn holds(subjects: &Vec<String>, subject: &String) -> (found: bool)
    ensures
        found == texts(subjects@).contains(subject@),
{
    let mut i: usize = 0;
    while i < subjects.len()
        invariant
            i <= subjects.len(),
            forall|j: int| 0 <= j < i ==> texts(subjects@)[j] != subject@,
        decreases subjects.len() - i,
    {
        if subjects[i] == *subject {
            assert(texts(subjects@)[i as int] == subject@);
            return true;
        }
        i += 1;
    }
    false
}

/// Takes in what one match holds as its subject: a text is appended unless it was
/// seen before; anything else is a `SchemaViolation` and leaves the subjects as
/// they are.
pub fn admit_subject(subjects: &mut Vec<String>, value: &FieldValue) -> (admitted: Result<
    (),
    SearchError,
>)
    ensures
        match as_subject(*value) {
            Some(text) => admitted is Ok && texts(final(subjects)@) == if texts(
                old(subjects)@,
            ).contains(text) {
                texts(old(subjects)@)
            } else {
                texts(old(subjects)@).push(text)
            },
            None => admitted == Err::<(), SearchError>(SearchError::SchemaViolation)
                && *final(subjects) == *old(subjects),
        },
{
    match value {
        FieldValue::Text(text) => {
            if !holds(subjects, text) {
                let ghost before = subjects@;
                subjects.push(text.clone());
                assert(texts(subjects@) =~= texts(before).push(text@));
            }
            Ok(())
        },
        _ => Err(SearchError::SchemaViolation),
    }
}

/// Deduplicates what the matches of a search hold as their subjects, given in the
/// order of the matches.
pub fn dedupe_values(values: &Vec<FieldValue>) -> (deduped: Result<Vec<String>, SearchError>)
    ensures
        match deduped {
            Ok(subjects) => dedupe_outcome(values@.map_values(|v: FieldValue| as_subject(v)))
                == Ok::<Seq<Seq<char>>, SearchError>(texts(subjects@)),
            Err(error) => dedupe_outcome(values@.map_values(|v: FieldValue| as_subject(v)))
                == Err::<Seq<Seq<char>>, SearchError>(error),
        },
{
    let ghost read = values@.map_values(|v: FieldValue| as_subject(v));
    let mut subjects: Vec<String> = Vec::new();
    let mut i: usize = 0;
    assert(read.take(0).map_values(|entry: Option<Seq<char>>| entry.unwrap()) =~= Seq::<
        Seq<char>,
    >::empty());
    while i < values.len()
        invariant
            i <= values.len(),
            read == values@.map_values(|v: FieldValue| as_subject(v)),
            all_texts(read.take(i as int)),
            texts(subjects@) == dedup(
                read.take(i as int).map_values(|entry: Option<Seq<char>>| entry.unwrap()),
            ),
        decreases values.len() - i,
    {
        match admit_subject(&mut subjects, &values[i]) {
            Ok(()) => {
                proof {
                    lemma_dedup_step(read, i as int);
                }
            },
            Err(error) => {
                assert(read[i as int] is None);
                return Err(error);
            },
        }
        i += 1;
    }
    assert(read.take(i as int) =~= read);
    Ok(subjects)
}

/// Taking in the entry at `at` extends the deduplication of the entries before it.
proof fn lemma_dedup_step(read: Seq<Option<Seq<char>>>, at: int)
    requires
        0 <= at < read.len(),
        all_texts(read.take(at)),
        read[at] is Some,
    ensures
        all_texts(read.take(at + 1)),
        dedup(read.take(at + 1).map_values(|entry: Option<Seq<char>>| entry.unwrap())) == {
            let earlier = dedup(
                read.take(at).map_values(|entry: Option<Seq<char>>| entry.unwrap()),
            );
            if earlier.contains(read[at].unwrap()) {
                earlier
            } else {
                earlier.push(read[at].unwrap())
            }
        },
{
    let unwrap = |entry: Option<Seq<char>>| entry.unwrap();
    let grown = read.take(at + 1).map_values(unwrap);
    assert forall|i: int| 0 <= i < read.take(at + 1).len() implies #[trigger] read.take(
        at + 1,
    )[i] is Some by {
        if i < at {
            assert(read.take(at)[i] is Some);
        }
    }
    assert(grown.drop_last() =~= read.take(at).map_values(unwrap));
    assert(grown.last() == read[at].unwrap());
}

/// Reads what the documents of the matches hold as their subjects, in order, up to
/// and with the first that is no string: what comes after it is not read. A document
/// that cannot be read is a `SearchExecution`.
fn read_subjects(
    searcher: &tantivy::Searcher,
    fields: &Fields,
    matches: &MatchSet,
) -> (read: Result<Vec<FieldValue>, SearchError>)
    requires
        matches.within(*searcher),
    ensures
        match read {
            Ok(values) => {
                let stored = stored_subjects(*searcher, fields.subject, matches@);
                &&& values.len() <= stored.len()
                &&& values@.map_values(|v: FieldValue| as_subject(v)) == stored.take(
                    values.len() as int,
                )
                &&& values.len() < stored.len() ==> values.len() > 0 && stored[values.len() - 1]
                    is None
            },
            Err(error) => error == SearchError::SearchExecution && matches@.len() > 0,
        },
{
    let ghost stored = stored_subjects(*searcher, fields.subject, matches@);
    let mut values: Vec<FieldValue> = Vec::new();
    let mut i: usize = 0;
    while i < matches.len()
        invariant
            i <= matches@.len(),
            i == values.len(),
            matches.within(*searcher),
            stored == stored_subjects(*searcher, fields.subject, matches@),
            values@.map_values(|v: FieldValue| as_subject(v)) == stored.take(i as int),
        decreases matches@.len() - i,
    {
        let hit = matches.get(i);
        assert(stored_documents(*searcher).contains_key(matches@[i as int].key()));
        let value = match first_stored_value(searcher, hit, fields.subject) {
            Ok(value) => value,
            Err(_) => {
                return Err(SearchError::SearchExecution);
            },
        };
        assert(as_subject(value) == stored[i as int]);
        let is_text = match &value {
            FieldValue::Text(_) => true,
            _ => false,
        };
        values.push(value);
        assert(values@.map_values(|v: FieldValue| as_subject(v)) =~= stored.take(i + 1));
        if !is_text {
            return Ok(values);
        }
        i += 1;
    }
    Ok(values)
}

/// Reads the subject of every match from the snapshot and deduplicates them: the
/// distinct subjects, in the order of their first match. A match whose document holds
/// no string as its subject is a `SchemaViolation`; a document that cannot be read is a
/// `SearchExecution`. The documents are read in order, and reading stops at the first
/// failure.
pub fn dedupe(searcher: &tantivy::Searcher, fields: &Fields, matches: &MatchSet) -> (deduped:
    Result<Vec<String>, SearchError>)
    requires
        matches.within(*searcher),
    ensures
        match deduped {
            Ok(subjects) => dedupe_outcome(stored_subjects(*searcher, fields.subject, matches@))
                == Ok::<Seq<Seq<char>>, SearchError>(texts(subjects@)),
            Err(error) => matches@.len() > 0 && (error == SearchError::SearchExecution || (error
                == SearchError::SchemaViolation && dedupe_outcome(
                stored_subjects(*searcher, fields.subject, matches@),
            ) is Err)),
        },
{
    let values = match read_subjects(searcher, fields, matches) {
        Ok(values) => values,
        Err(error) => {
            return Err(error);
        },
    };
    proof {
        let stored = stored_subjects(*searcher, fields.subject, matches@);
        let read = values@.map_values(|v: FieldValue| as_subject(v));
        if values.len() == stored.len() {
            assert(stored.take(values.len() as int) =~= stored);
        } else {
            assert(read[values.len() - 1] is None);
            assert(!all_texts(read));
            assert(!all_texts(stored));
        }
    }
    dedupe_values(&values)
}

} // verus!
