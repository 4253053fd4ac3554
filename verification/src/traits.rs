//! The storage-capability contract every section store must satisfy, stated
//! over the store's abstract sequence of stored sections. The in-memory store
//! implements it; a relational-table backend would satisfy the same contract.

use vstd::prelude::*;

use crate::errors::RepositoryError;
use crate::models::{CreateSection, Section, SectionInfo, UpdateSection};
use crate::utils::{section_after, transition_error, transition_ok};

verus! {

/// Some stored section carries this id.
pub open spec fn spec_contains_id(s: Seq<Section>, id: i32) -> bool {
    exists|i: int| 0 <= i < s.len() && s[i].id == id
}

/// The position of the section with this id (meaningful when ids are unique
/// and the id is present).
pub open spec fn spec_index_of_id(s: Seq<Section>, id: i32) -> int {
    choose|i: int| 0 <= i < s.len() && s[i].id == id
}

/// The stored section carrying this id.
pub open spec fn section_with_id(s: Seq<Section>, id: i32) -> Section {
    s[spec_index_of_id(s, id)]
}

/// The stored sections filed under this gender, in store order.
pub open spec fn sections_of_gender(s: Seq<Section>, gender: Seq<char>) -> Seq<Section> {
    s.filter(|sec: Section| sec.gender@ == gender)
}

/// The stored sections filed under this gender and building, in store order.
pub open spec fn sections_of_building(s: Seq<Section>, gender: Seq<char>, building: Seq<
    char,
>) -> Seq<Section> {
    s.filter(|sec: Section| sec.gender@ == gender && sec.building@ == building)
}

/// The stored sections filed under this gender, building and floor, in store
/// order.
pub open spec fn sections_of_floor(
    s: Seq<Section>,
    gender: Seq<char>,
    building: Seq<char>,
    floor: i32,
) -> Seq<Section> {
    s.filter(
        |sec: Section| sec.gender@ == gender && sec.building@ == building && sec.floor == floor,
    )
}

/// In a store with pairwise-distinct ids, the position a scan finds for an
/// id is the position `spec_index_of_id` denotes.
pub proof fn lemma_index_of_unique(s: Seq<Section>, id: i32, i: int)
    requires
        0 <= i < s.len(),
        s[i].id == id,
        forall|p: int, q: int| 0 <= p < q < s.len() ==> s[p].id != s[q].id,
    ensures
        spec_contains_id(s, id),
        spec_index_of_id(s, id) == i,
{
    assert(spec_contains_id(s, id));
    let j = spec_index_of_id(s, id);
    assert(0 <= j < s.len() && s[j].id == id);
}

/// Filtering after appending one element extends the filtered sequence by
/// that element exactly when it satisfies the predicate.
pub proof fn lemma_filter_push<A>(s: Seq<A>, pred: spec_fn(A) -> bool, x: A)
    ensures
        s.push(x).filter(pred) == if pred(x) {
            s.filter(pred).push(x)
        } else {
            s.filter(pred)
        },
{
    reveal(Seq::filter);
    assert(s.push(x).drop_last() =~= s);
    assert(s.push(x).last() == x);
}

/// What update answers when it fails: the id is absent, or the engine
/// refused the step on the stored section.
pub open spec fn spec_update_error(s: Seq<Section>, payload: UpdateSection) -> RepositoryError {
    if !spec_contains_id(s, payload.id) {
        RepositoryError::NotFound(payload.id)
    } else {
        RepositoryError::Transition(
            transition_error(
                payload.current_status@,
                payload.next_status@,
                section_with_id(s, payload.id),
            ),
        )
    }
}

/// Concurrency-safe CRUD over the section collection, keyed by integer id.
/// Filtered lookups report an empty result as an error, never as an empty
/// list; update delegates the counter change to the transition engine and
/// persists exactly what the engine computed.
pub trait SectionRepository: Sized {
    /// The store's internal consistency: ids unique, counters consistent.
    spec fn wf(&self) -> bool;

    /// The stored sections, in store order.
    spec fn sections(&self) -> Seq<Section>;

    /// The id the next created section will get. It starts at 1, only
    /// `create` moves it, and it never goes back, so an id freed by a
    /// deletion is never assigned again.
    spec fn id_counter(&self) -> int;

    fn find_by_id(&self, id: i32) -> (r: Result<Section, RepositoryError>)
        requires
            self.wf(),
        ensures
            r is Ok <==> spec_contains_id(self.sections(), id),
            (r matches Ok(sec) ==> sec == section_with_id(self.sections(), id)),
            (r matches Err(e) ==> e == RepositoryError::NotFound(id)),
    ;

    fn find_by_gender(&self, gender: String) -> (r: Result<Vec<Section>, RepositoryError>)
        requires
            self.wf(),
        ensures
            r is Ok <==> sections_of_gender(self.sections(), gender@).len() > 0,
            (r matches Ok(v) ==> v@ == sections_of_gender(self.sections(), gender@)),
            (r matches Err(e) ==> e == RepositoryError::NoSectionForGender),
    ;

    fn find_by_building(&self, gender: String, building: String) -> (r: Result<
        Vec<Section>,
        RepositoryError,
    >)
        requires
            self.wf(),
        ensures
            r is Ok <==> sections_of_building(self.sections(), gender@, building@).len() > 0,
            (r matches Ok(v) ==> v@ == sections_of_building(self.sections(), gender@, building@)),
            (r matches Err(e) ==> e == RepositoryError::NoSectionForBuilding),
    ;

    fn find_by_floor(&self, gender: String, building: String, floor: i32) -> (r: Result<
        Vec<Section>,
        RepositoryError,
    >)
        requires
            self.wf(),
        ensures
            r is Ok <==> sections_of_floor(self.sections(), gender@, building@, floor).len() > 0,
            (r matches Ok(v) ==> v@ == sections_of_floor(
                self.sections(),
                gender@,
                building@,
                floor,
            )),
            (r matches Err(e) ==> e == RepositoryError::NoSectionForBuilding),
    ;

    fn find_all(&self) -> (r: Result<Vec<Section>, RepositoryError>)
        requires
            self.wf(),
        ensures
            r matches Ok(v) && v@ == self.sections(),
    ;

    fn create(&mut self, payload: CreateSection, info: SectionInfo) -> (r: Result<
        Section,
        RepositoryError,
    >)
        requires
            old(self).wf(),
            old(self).id_counter() < i32::MAX,
        ensures
            final(self).wf(),
            final(self).id_counter() == old(self).id_counter() + 1,
            r is Ok,
            (r matches Ok(sec) ==> {
                &&& final(self).sections() == old(self).sections().push(sec)
                &&& sec.id == old(self).id_counter()
                &&& !spec_contains_id(old(self).sections(), sec.id)
                &&& sec.gender == info.gender
                &&& sec.building == info.building
                &&& sec.floor == info.floor
                &&& sec.total == payload.total
                &&& sec.available == payload.total
                &&& sec.occupied == 0
                &&& sec.disabled_rooms == 0
            }),
    ;

    fn update(&mut self, payload: UpdateSection) -> (r: Result<Section, RepositoryError>)
        requires
            old(self).wf(),
        ensures
            final(self).wf(),
            final(self).id_counter() == old(self).id_counter(),
            r is Ok <==> spec_contains_id(old(self).sections(), payload.id) && transition_ok(
                payload.current_status@,
                payload.next_status@,
                section_with_id(old(self).sections(), payload.id),
            ),
            (r matches Ok(sec) ==> {
                &&& sec == section_after(
                    section_with_id(old(self).sections(), payload.id),
                    payload.current_status@,
                    payload.next_status@,
                )
                &&& final(self).sections() == old(self).sections().update(
                    spec_index_of_id(old(self).sections(), payload.id),
                    sec,
                )
            }),
            (r matches Err(e) ==> {
                &&& final(self).sections() == old(self).sections()
                &&& e == spec_update_error(old(self).sections(), payload)
            }),
    ;

    fn delete(&mut self, id: i32) -> (r: Result<(), RepositoryError>)
        requires
            old(self).wf(),
        ensures
            final(self).wf(),
            final(self).id_counter() == old(self).id_counter(),
            r is Ok <==> spec_contains_id(old(self).sections(), id),
            (r is Ok ==> final(self).sections() == old(self).sections().remove(
                spec_index_of_id(old(self).sections(), id),
            )),
            (r matches Err(e) ==> e == RepositoryError::NotFound(id) && final(self).sections()
                == old(self).sections()),
    ;
}

} // verus!
