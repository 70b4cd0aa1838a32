//! Resolving the subjects of a search into whole entities. Either every subject
//! resolves, or the request fails: no result list with gaps is handed out.

use vstd::prelude::*;
use crate::error::SearchError;
use crate::store::{Reader, error_message, fetch_entity, resource_subject};

verus! {

/// Entities are fetched as they are stored: properties that the store would have to
/// compute are left out.
pub const SKIP_DYNAMIC: bool = true;

/// The entities are those of the subjects, one for one and in order.
pub open spec fn entities_of(
    entities: Seq<atomic_lib::Resource>,
    subjects: Seq<Seq<char>>,
) -> bool {
    &&& entities.len() == subjects.len()
    &&& forall|i: int|
        0 <= i < entities.len() ==> resource_subject(#[trigger] entities[i]) == subjects[i]
}

/// The result of hydration, given what the store answered for each subject in turn: all
/// the entities in order, or `Hydration` with the message of the first failure.
pub open spec fn hydration_outcome(fetched: Seq<Result<atomic_lib::Resource, String>>) -> Result<
    Seq<atomic_lib::Resource>,
    SearchError,
>
    decreases fetched.len(),
{
    if fetched.len() == 0 {
        Ok(Seq::empty())
    } else {
        match hydration_outcome(fetched.drop_last()) {
            Err(error) => Err(error),
            Ok(entities) => match fetched.last() {
                Ok(entity) => Ok(entities.push(entity)),
                Err(reason) => Err(SearchError::Hydration(reason)),
            },
        }
    }
}

/// Hydration succeeds exactly if the store answered for every subject, and then
/// hands out as many entities as there were subjects.
pub proof fn lemma_hydration_all_or_nothing(fetched: Seq<Result<atomic_lib::Resource, String>>)
    ensures
        hydration_outcome(fetched) is Ok <==> forall|i: int|
            0 <= i < fetched.len() ==> #[trigger] fetched[i] is Ok,
        hydration_outcome(fetched) matches Ok(entities) ==> entities.len() == fetched.len()
            && forall|i: int|
            0 <= i < fetched.len() ==> #[trigger] fetched[i] == Ok::<atomic_lib::Resource, String>(
                entities[i],
            ),
        hydration_outcome(fetched) is Err ==> hydration_outcome(fetched)->Err_0 is Hydration,
    decreases fetched.len(),
{
    if fetched.len() > 0 {
        let front = fetched.drop_last();
        lemma_hydration_all_or_nothing(front);
        if hydration_outcome(front) is Ok {
            assert forall|i: int| 0 <= i < front.len() implies #[trigger] fetched[i] is Ok by {
                assert(front[i] is Ok);
            }
            if fetched.last() is Ok {
                let entities = hydration_outcome(fetched)->Ok_0;
                assert forall|i: int| 0 <= i < fetched.len() implies #[trigger] fetched[i] == Ok::<
                    atomic_lib::Resource,
                    String,
                >(entities[i]) by {
                    if i < front.len() {
                        assert(front[i] == fetched[i]);
                    }
                }
            } else {
                assert(!(fetched[fetched.len() - 1] is Ok));
            }
        } else {
            let i = choose|i: int| 0 <= i < front.len() && !(#[trigger] front[i] is Ok);
            assert(!(fetched[i] is Ok));
        }
    }
}

/// Takes in what the store answered for one subject: an entity joins the others, a
/// failure is `Hydration` with the store's message and leaves the others as they are.
pub fn admit_entity(
    entities: &mut Vec<atomic_lib::Resource>,
    fetched: Result<atomic_lib::Resource, String>,
) -> (admitted: Result<(), SearchError>)
    ensures
        match fetched {
            Ok(entity) => admitted is Ok && final(entities)@ == old(entities)@.push(entity),
            Err(reason) => admitted == Err::<(), SearchError>(SearchError::Hydration(reason))
                && *final(entities) == *old(entities),
        },
{
    match fetched {
        Ok(entity) => {
            entities.push(entity);
            Ok(())
        },
        Err(reason) => Err(SearchError::Hydration(reason)),
    }
}

/// Hydrates from answers that are already there: what the store gave for each subject,
/// in order.
pub fn collect_entities(fetched: Vec<Result<atomic_lib::Resource, String>>) -> (hydrated: Result<
    Vec<atomic_lib::Resource>,
    SearchError,
>)
    ensures
        match hydrated {
            Ok(entities) => hydration_outcome(fetched@) == Ok::<
                Seq<atomic_lib::Resource>,
                SearchError,
            >(entities@),
            Err(error) => hydration_outcome(fetched@) == Err::<
                Seq<atomic_lib::Resource>,
                SearchError,
            >(error),
        },
{
    let mut entities: Vec<atomic_lib::Resource> = Vec::new();
    let ghost all = fetched@;
    assert(all.take(0) =~= Seq::empty());
    for answer in it: fetched.into_iter()
        invariant
            it.seq() == all,
            hydration_outcome(all.take(it.index() as int)) == Ok::<
                Seq<atomic_lib::Resource>,
                SearchError,
            >(entities@),
    {
        let ghost at = it.index() as int;
        assert(all.take(at + 1).drop_last() =~= all.take(at));
        assert(all.take(at + 1).last() == all[at]);
        match admit_entity(&mut entities, answer) {
            Ok(()) => {},
            Err(error) => {
                proof {
                    lemma_hydration_fails_on(all, at + 1);
                }
                return Err(error);
            },
        }
    }
    assert(all.take(all.len() as int) =~= all);
    Ok(entities)
}

/// Once hydration has failed on the first answers, the answers after them do not count.
proof fn lemma_hydration_fails_on(fetched: Seq<Result<atomic_lib::Resource, String>>, upto: int)
    requires
        0 <= upto <= fetched.len(),
        hydration_outcome(fetched.take(upto)) is Err,
    ensures
        hydration_outcome(fetched) == hydration_outcome(fetched.take(upto)),
    decreases fetched.len() - upto,
{
    if upto < fetched.len() {
        assert(fetched.take(upto + 1).drop_last() =~= fetched.take(upto));
        lemma_hydration_fails_on(fetched, upto + 1);
    } else {
        assert(fetched.take(upto) =~= fetched);
    }
}

/// Asks the store for the entity of each subject in turn, up to and with the first
/// that it does not hand out: what comes after it is not asked for.
fn fetch_entities(store: &atomic_lib::Db, subjects: &Vec<String>) -> (fetched: Vec<
    Result<atomic_lib::Resource, String>,
>)
    ensures
        fetched.len() <= subjects.len(),
        forall|i: int|
            0 <= i < fetched.len() ==> (#[trigger] fetched[i] matches Ok(entity)
                ==> resource_subject(entity) == subjects[i]@),
        fetched.len() < subjects.len() ==> fetched.len() > 0 && fetched[fetched.len() - 1] is Err,
{
    let mut fetched: Vec<Result<atomic_lib::Resource, String>> = Vec::new();
    let mut i: usize = 0;
    while i < subjects.len()
        invariant
            i <= subjects.len(),
            i == fetched.len(),
            forall|j: int|
                0 <= j < fetched.len() ==> (#[trigger] fetched[j] matches Ok(entity)
                    ==> resource_subject(entity) == subjects[j]@),
        decreases subjects.len() - i,
    {
        match fetch_entity(store, subjects[i].as_str(), SKIP_DYNAMIC, &Reader::Unchecked) {
            Ok(entity) => {
                fetched.push(Ok(entity));
            },
            Err(error) => {
                fetched.push(Err(error_message(&error)));
                return fetched;
            },
        }
        i += 1;
    }
    fetched
}

/// Fetches the entity of every subject from the store, in order, and stops at the
/// first that the store does not hand out: the whole hydration then fails with
/// `Hydration`. With no subjects the store is not asked and the result is empty.
pub fn hydrate(store: &atomic_lib::Db, subjects: &Vec<String>) -> (hydrated: Result<
    Vec<atomic_lib::Resource>,
    SearchError,
>)
    ensures
        match hydrated {
            Ok(entities) => entities_of(entities@, subjects@.map_values(|s: String| s@)),
            Err(error) => error is Hydration && subjects.len() > 0,
        },
{
    let fetched = fetch_entities(store, subjects);
    let ghost answers = fetched@;
    let hydrated = collect_entities(fetched);
    proof {
        lemma_hydration_all_or_nothing(answers);
        if hydrated is Ok {
            let entities = hydrated->Ok_0;
            if answers.len() < subjects.len() {
                assert(answers[answers.len() - 1] is Ok);
            }
            assert forall|i: int| 0 <= i < entities@.len() implies resource_subject(
                #[trigger] entities@[i],
            ) == subjects@.map_values(|s: String| s@)[i] by {
                assert(answers[i] == Ok::<atomic_lib::Resource, String>(entities@[i]));
            }
        }
    }
    hydrated
}

} // verus!
