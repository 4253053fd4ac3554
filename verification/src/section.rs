//! An earlier, compact revision of the section store, kept alongside the
//! current one. Its transition request names only the room's new status; the
//! step moves one room into that status from its complementary source
//! (occupied when a room becomes available, available otherwise), and —
//! following the same edge policy as the full engine — refuses the request
//! when that source has no room in it, leaving the counters unchanged.
//! Ids come from a strictly monotonic counter here too: assigning them from
//! the collection's size would hand out a duplicate after any deletion.

use vstd::prelude::*;

use crate::errors::TransitionError;
use crate::utils::{is_valid_status, lemma_status_literals_distinct};

verus! {

/// Why a store operation of this revision failed: the id is absent, or the
/// one-word step was refused.
#[derive(Debug, Clone, Copy, PartialEq, Eq, Structural)]
pub enum RepositoryError {
    /// No section is filed under this id.
    NotFound(i32),
    /// The one-word step was refused: an unrecognized status name, or an
    /// empty source state.
    Transition(TransitionError),
}

/// One physical sub-location's occupancy record, as this revision kept it
/// (the disabled counter is simply called `disabled` here).
#[derive(Debug)]
pub struct Section {
    pub id: i32,
    pub gender: String,
    pub building: String,
    pub floor: i32,
    pub total: i32,
    pub available: i32,
    pub occupied: i32,
    pub disabled: i32,
}

impl Clone for Section {
    fn clone(&self) -> (r: Self)
        ensures
            r == *self,
    {
        Section {
            id: self.id,
            gender: self.gender.clone(),
            building: self.building.clone(),
            floor: self.floor,
            total: self.total,
            available: self.available,
            occupied: self.occupied,
            disabled: self.disabled,
        }
    }
}

/// The lookup dimensions under which a new section is filed.
#[derive(Debug, Clone)]
pub struct SectionInfo {
    pub gender: String,
    pub building: String,
    pub floor: i32,
}

/// Creation payload: how many rooms the new section holds in total.
#[derive(Debug, Clone)]
pub struct CreateSection {
    pub total: i32,
}

/// A requested one-word transition for the section with the given id: the
/// room named by `status` gains one member from its complementary source.
#[derive(Debug, Clone)]
pub struct UpdateSection {
    pub id: i32,
    pub status: String,
}

/// The counters a transition of this revision produces.
#[derive(Debug, Clone, Copy, PartialEq, Eq, Structural)]
pub struct Usage {
    pub available: i32,
    pub occupied: i32,
    pub disabled: i32,
}

impl Section {
    fn new(id: i32, gender: String, building: String, floor: i32, total: i32) -> (r: Self)
        ensures
            r.id == id,
            r.gender == gender,
            r.building == building,
            r.floor == floor,
            r.total == total,
            r.available == total,
            r.occupied == 0,
            r.disabled == 0,
    {
        Self {
            id,
            gender,
            building,
            floor,
            total,
            available: total,
            occupied: 0,
            disabled: 0,
        }
    }
}

/// The counter the one-word step drains: a room becomes available from
/// occupied, and becomes occupied or disabled from available.
pub open spec fn source_counter(status: Seq<char>, sec: Section) -> int
    recommends
        is_valid_status(status),
{
    if status == "available"@ {
        sec.occupied as int
    } else {
        sec.available as int
    }
}

/// The step is permitted: the status is recognized and its source state has
/// a room to move.
pub open spec fn switch_ok(status: Seq<char>, sec: Section) -> bool {
    is_valid_status(status) && source_counter(status, sec) > 0
}

/// A machine limit: a permitted step must not push the named counter past
/// `i32::MAX`. (The drained counter cannot underflow: the step refuses an
/// empty source.)
pub open spec fn switch_safe(status: Seq<char>, sec: Section) -> bool {
    &&& (status == "available"@ ==> sec.available < i32::MAX)
    &&& (status == "occupied"@ ==> sec.occupied < i32::MAX)
    &&& (status == "disabled"@ ==> sec.disabled < i32::MAX)
}

/// The counters after the one-word step: the named counter gains one room
/// from its complementary source.
pub open spec fn switched_usage(status: Seq<char>, sec: Section) -> Usage
    recommends
        switch_ok(status, sec),
        switch_safe(status, sec),
{
    if status == "available"@ {
        Usage {
            available: (sec.available + 1) as i32,
            occupied: (sec.occupied - 1) as i32,
            disabled: sec.disabled,
        }
    } else if status == "occupied"@ {
        Usage {
            available: (sec.available - 1) as i32,
            occupied: (sec.occupied + 1) as i32,
            disabled: sec.disabled,
        }
    } else {
        Usage {
            available: (sec.available - 1) as i32,
            occupied: sec.occupied,
            disabled: (sec.disabled + 1) as i32,
        }
    }
}

/// The refusal the one-word step makes: an unrecognized status name, or the
/// exhaustion explanation of the drained source.
pub open spec fn switch_error(status: Seq<char>, sec: Section) -> TransitionError
    recommends
        !switch_ok(status, sec),
{
    if !is_valid_status(status) {
        TransitionError::InvalidStatus
    } else if status == "available"@ {
        TransitionError::NoOccupied
    } else if status == "occupied"@ {
        TransitionError::NoAvailable
    } else {
        TransitionError::NoAvailableToDisable
    }
}

/// Computes the one-word transition of this revision: the named status gains
/// one room from its complementary source. An unrecognized status name, or a
/// source state with no room in it, is refused — the counters are never
/// driven negative and never silently clamped.
pub fn switch_usage(status: String, section: Section) -> (r: Result<Usage, TransitionError>)
    requires
        switch_safe(status@, section),
    ensures
        r is Ok <==> switch_ok(status@, section),
        (r matches Ok(u) ==> u == switched_usage(status@, section)),
        (r matches Err(e) ==> e == switch_error(status@, section)),
{
    proof {
        lemma_status_literals_distinct();
    }
    let avail: String = "available".to_owned();
    let occ: String = "occupied".to_owned();
    let dis: String = "disabled".to_owned();
    if status == avail {
        if section.occupied > 0 {
            Ok(
                Usage {
                    available: section.available + 1,
                    occupied: section.occupied - 1,
                    disabled: section.disabled,
                },
            )
        } else {
            Err(TransitionError::NoOccupied)
        }
    } else if status == occ {
        if section.available > 0 {
            Ok(
                Usage {
                    available: section.available - 1,
                    occupied: section.occupied + 1,
                    disabled: section.disabled,
                },
            )
        } else {
            Err(TransitionError::NoAvailable)
        }
    } else if status == dis {
        if section.available > 0 {
            Ok(
                Usage {
                    available: section.available - 1,
                    occupied: section.occupied,
                    disabled: section.disabled + 1,
                },
            )
        } else {
            Err(TransitionError::NoAvailableToDisable)
        }
    } else {
        Err(TransitionError::InvalidStatus)
    }
}

/// Some entry is filed under this id.
pub open spec fn contains_key(s: Seq<(i32, Section)>, id: i32) -> bool {
    exists|i: int| 0 <= i < s.len() && s[i].0 == id
}

/// The position of the entry filed under this id (meaningful when keys are
/// unique and the id is present).
pub open spec fn index_of_key(s: Seq<(i32, Section)>, id: i32) -> int {
    choose|i: int| 0 <= i < s.len() && s[i].0 == id
}

/// The record filed under this id.
pub open spec fn value_at(s: Seq<(i32, Section)>, id: i32) -> Section {
    s[index_of_key(s, id)].1
}

/// The stored records, in store order.
pub open spec fn spec_values(s: Seq<(i32, Section)>) -> Seq<Section> {
    s.map_values(|p: (i32, Section)| p.1)
}

/// In a store with pairwise-distinct keys, the position a scan finds for an
/// id is the position `index_of_key` denotes.
pub proof fn lemma_key_index_unique(s: Seq<(i32, Section)>, id: i32, i: int)
    requires
        0 <= i < s.len(),
        s[i].0 == id,
        forall|p: int, q: int| 0 <= p < q < s.len() ==> s[p].0 != s[q].0,
    ensures
        contains_key(s, id),
        index_of_key(s, id) == i,
{
    assert(contains_key(s, id));
    let j = index_of_key(s, id);
    assert(0 <= j < s.len() && s[j].0 == id);
}

/// The storage contract of this revision. The store maps integer keys to
/// section records; a created record is filed under the counter's current
/// value, which only creation advances and which never goes back, so a key
/// freed by a deletion is never handed out again.
pub trait SectionRepository: Clone + Send + Sync + 'static {
    /// The store's internal consistency: keys pairwise distinct, every key
    /// below the id counter.
    spec fn wf(&self) -> bool;

    /// The keyed entries, in store order.
    spec fn entries(&self) -> Seq<(i32, Section)>;

    /// The id the next created section will be filed under. It starts at 1,
    /// only `create` moves it, and it never goes back.
    spec fn id_counter(&self) -> int;

    fn find_by_id(&self, id: i32) -> (r: Option<Box<Section>>)
        requires
            self.wf(),
        ensures
            r is Some <==> contains_key(self.entries(), id),
            (r matches Some(sec) ==> sec == value_at(self.entries(), id)),
    ;

    fn find_all(&self) -> (r: Vec<Section>)
        requires
            self.wf(),
        ensures
            r@ == spec_values(self.entries()),
    ;

    fn create(&mut self, section: CreateSection, info: SectionInfo) -> (r: Section)
        requires
            old(self).wf(),
            old(self).id_counter() < i32::MAX,
        ensures
            final(self).wf(),
            final(self).id_counter() == old(self).id_counter() + 1,
            r.id == old(self).id_counter(),
            !contains_key(old(self).entries(), r.id),
            r.gender == info.gender,
            r.building == info.building,
            r.floor == info.floor,
            r.total == section.total,
            r.available == section.total,
            r.occupied == 0,
            r.disabled == 0,
            final(self).entries() == old(self).entries().push((r.id, r)),
    ;

    fn update(&mut self, id: i32, section: UpdateSection) -> (r: Result<Section, RepositoryError>)
        requires
            old(self).wf(),
            contains_key(old(self).entries(), section.id) ==> switch_safe(
                section.status@,
                value_at(old(self).entries(), section.id),
            ),
        ensures
            final(self).wf(),
            final(self).id_counter() == old(self).id_counter(),
            r is Ok <==> contains_key(old(self).entries(), section.id) && switch_ok(
                section.status@,
                value_at(old(self).entries(), section.id),
            ),
            (r matches Ok(sec) ==> {
                &&& sec.id == id
                &&& sec.gender == value_at(old(self).entries(), section.id).gender
                &&& sec.building == value_at(old(self).entries(), section.id).building
                &&& sec.floor == value_at(old(self).entries(), section.id).floor
                &&& sec.total == value_at(old(self).entries(), section.id).total
                &&& Usage { available: sec.available, occupied: sec.occupied, disabled: sec.disabled }
                    == switched_usage(section.status@, value_at(old(self).entries(), section.id))
                &&& final(self).entries() == old(self).entries().update(
                    index_of_key(old(self).entries(), section.id),
                    (section.id, sec),
                )
            }),
            (r matches Err(e) ==> final(self).entries() == old(self).entries() && e == if !contains_key(
                old(self).entries(),
                section.id,
            ) {
                RepositoryError::NotFound(section.id)
            } else {
                RepositoryError::Transition(
                    switch_error(section.status@, value_at(old(self).entries(), section.id)),
                )
            }),
    ;

    fn delete(&mut self, id: i32) -> (r: Result<(), RepositoryError>)
        requires
            old(self).wf(),
        ensures
            final(self).wf(),
            final(self).id_counter() == old(self).id_counter(),
            r is Ok <==> contains_key(old(self).entries(), id),
            (r is Ok ==> final(self).entries() == old(self).entries().remove(
                index_of_key(old(self).entries(), id),
            )),
            (r matches Err(e) ==> e == RepositoryError::NotFound(id) && final(self).entries()
                == old(self).entries()),
    ;
}

/// The in-memory store of this revision: keyed records behind one value,
/// mirroring a map from id to section.
#[derive(Debug, Clone)]
pub struct InMemorySectionRepository {
    pub store: Vec<(i32, Section)>,
    pub next_id: i32,
}

impl InMemorySectionRepository {
    /// An empty store; the first section will be filed under id 1.
    pub fn new() -> (r: Self)
        ensures
            r.wf(),
            r.entries() == Seq::<(i32, Section)>::empty(),
            r.id_counter() == 1,
    {
        Self { store: Vec::new(), next_id: 1 }
    }

    /// Exclusive access to the backing collection for the duration of a
    /// read-modify-write.
    pub fn write_store_ref(&mut self) -> (r: &mut Vec<(i32, Section)>)
        ensures
            *r == old(self).store,
            final(self).store == *final(r),
            final(self).next_id == old(self).next_id,
    {
        &mut self.store
    }

    /// Shared access to the backing collection.
    pub fn read_store_ref(&self) -> (r: &Vec<(i32, Section)>)
        ensures
            *r == self.store,
    {
        &self.store
    }

    /// The position of the entry filed under this id, if any.
    fn position_of_key(&self, id: i32) -> (r: Option<usize>)
        ensures
            (r matches Some(i) ==> i < self.store@.len() && self.store@[i as int].0 == id),
            r is None ==> !contains_key(self.store@, id),
    {
        let mut i: usize = 0;
        while i < self.store.len()
            invariant
                i <= self.store@.len(),
                forall|j: int| 0 <= j < i ==> self.store@[j].0 != id,
            decreases self.store@.len() - i,
        {
            if self.store[i].0 == id {
                return Some(i);
            }
            i = i + 1;
        }
        None
    }
}

impl SectionRepository for InMemorySectionRepository {
    open spec fn wf(&self) -> bool {
        &&& self.next_id >= 1
        &&& forall|i: int|
            0 <= i < self.store@.len() ==> 1 <= (#[trigger] self.store@[i]).0 < self.next_id
        &&& forall|i: int, j: int|
            0 <= i < j < self.store@.len() ==> self.store@[i].0 != self.store@[j].0
    }

    open spec fn entries(&self) -> Seq<(i32, Section)> {
        self.store@
    }

    open spec fn id_counter(&self) -> int {
        self.next_id as int
    }

    fn find_by_id(&self, id: i32) -> (r: Option<Box<Section>>) {
        match self.position_of_key(id) {
            Some(i) => {
                proof {
                    lemma_key_index_unique(self.store@, id, i as int);
                }
                Some(Box::new(self.store[i].1.clone()))
            },
            None => None,
        }
    }

    fn find_all(&self) -> (r: Vec<Section>) {
        let mut sections: Vec<Section> = Vec::new();
        let n = self.store.len();
        let mut i: usize = 0;
        while i < n
            invariant
                n == self.store@.len(),
                i <= n,
                sections@ == spec_values(self.store@.subrange(0, i as int)),
            decreases n - i,
        {
            sections.push(self.store[i].1.clone());
            proof {
                assert(self.store@.subrange(0, i + 1 as int) =~= self.store@.subrange(
                    0,
                    i as int,
                ).push(self.store@[i as int]));
                assert(spec_values(self.store@.subrange(0, i + 1 as int)) =~= spec_values(
                    self.store@.subrange(0, i as int),
                ).push(self.store@[i as int].1));
            }
            i = i + 1;
        }
        proof {
            assert(self.store@.subrange(0, n as int) =~= self.store@);
        }
        sections
    }

    fn create(&mut self, payload: CreateSection, info: SectionInfo) -> (r: Section) {
        let id = self.next_id;
        let section = Section::new(id, info.gender, info.building, info.floor, payload.total);
        self.store.push((id, section.clone()));
        self.next_id = self.next_id + 1;
        proof {
            assert forall|p: int, q: int|
                0 <= p < q < self.store@.len() implies self.store@[p].0 != self.store@[q].0 by {
                if q < self.store@.len() - 1 {
                    assert(old(self).store@[p].0 != old(self).store@[q].0);
                } else {
                    assert(old(self).store@[p].0 < old(self).next_id);
                }
            }
        }
        section
    }

    fn update(&mut self, id: i32, payload: UpdateSection) -> (r: Result<Section, RepositoryError>) {
        match self.position_of_key(payload.id) {
            None => Err(RepositoryError::NotFound(payload.id)),
            Some(idx) => {
                proof {
                    lemma_key_index_unique(self.store@, payload.id, idx as int);
                }
                let stored = self.store[idx].1.clone();
                match switch_usage(payload.status, stored.clone()) {
                    Err(e) => Err(RepositoryError::Transition(e)),
                    Ok(usage) => {
                        let section = Section {
                            id,
                            gender: stored.gender,
                            building: stored.building,
                            floor: stored.floor,
                            total: stored.total,
                            available: usage.available,
                            occupied: usage.occupied,
                            disabled: usage.disabled,
                        };
                        self.store[idx] = (payload.id, section.clone());
                        Ok(section)
                    },
                }
            },
        }
    }

    fn delete(&mut self, id: i32) -> (r: Result<(), RepositoryError>) {
        match self.position_of_key(id) {
            None => Err(RepositoryError::NotFound(id)),
            Some(idx) => {
                proof {
                    lemma_key_index_unique(self.store@, id, idx as int);
                }
                self.store.remove(idx);
                proof {
                    assert forall|p: int, q: int|
                        0 <= p < q < self.store@.len() implies self.store@[p].0
                        != self.store@[q].0 by {
                        let op: int = if p < idx {
                            p
                        } else {
                            p + 1
                        };
                        let oq: int = if q < idx {
                            q
                        } else {
                            q + 1
                        };
                        assert(self.store@[p] == old(self).store@[op]);
                        assert(self.store@[q] == old(self).store@[oq]);
                    }
                    assert forall|i: int|
                        0 <= i < self.store@.len() implies 1 <= (#[trigger] self.store@[i]).0
                        < self.next_id by {
                        let oi: int = if i < idx {
                            i
                        } else {
                            i + 1
                        };
                        assert(self.store@[i] == old(self).store@[oi]);
                    }
                }
                Ok(())
            },
        }
    }
}

} // verus!
