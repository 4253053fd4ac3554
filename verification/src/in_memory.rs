//! The in-memory section store: a vector of sections with pairwise-distinct
//! ids, assigned from a strictly monotonic counter. (Assigning ids from the
//! collection's size would hand out a duplicate after any deletion, so the
//! counter is deliberately independent of the current size.)

use vstd::prelude::*;

use crate::errors::RepositoryError;
use crate::models::{CreateSection, Section, SectionInfo, UpdateSection};
use crate::traits::{
    lemma_filter_push, lemma_index_of_unique, section_with_id, sections_of_building,
    sections_of_floor, sections_of_gender, spec_contains_id, spec_index_of_id, SectionRepository,
};
use crate::utils::{
    inmemory_switch_usage, lemma_section_after_wf, lemma_wf_transition_in_range, section_after,
    transition_ok,
};

verus! {

/// The whole collection is owned by one value; callers serialize access by
/// holding it mutably — typically behind one store-wide reader/writer lock,
/// as the composition root does — so each read-modify-write is atomic with
/// respect to every other operation.
#[derive(Debug, Clone)]
pub struct InMemorySectionRepository {
    pub store: Vec<Section>,
    pub next_id: i32,
}

impl InMemorySectionRepository {
    /// An empty store; the first section will get id 1.
    pub fn new() -> (r: Self)
        ensures
            r.wf(),
            r.sections() == Seq::<Section>::empty(),
            r.id_counter() == 1,
    {
        Self { store: Vec::new(), next_id: 1 }
    }

    /// Exclusive access to the backing collection for the duration of a
    /// read-modify-write.
    pub fn write_store_ref(&mut self) -> (r: &mut Vec<Section>)
        ensures
            *r == old(self).store,
            final(self).store == *final(r),
            final(self).next_id == old(self).next_id,
    {
        &mut self.store
    }

    /// Shared access to the backing collection.
    pub fn read_store_ref(&self) -> (r: &Vec<Section>)
        ensures
            *r == self.store,
    {
        &self.store
    }

    /// The position of the section with this id, if any is stored.
    fn position_of_id(&self, id: i32) -> (r: Option<usize>)
        ensures
            (r matches Some(i) ==> i < self.store@.len() && self.store@[i as int].id == id),
            r is None ==> !spec_contains_id(self.store@, id),
    {
        let mut i: usize = 0;
        while i < self.store.len()
            invariant
                i <= self.store@.len(),
                forall|j: int| 0 <= j < i ==> self.store@[j].id != id,
            decreases self.store@.len() - i,
        {
            if self.store[i].id == id {
                return Some(i);
            }
            i = i + 1;
        }
        None
    }
}

impl SectionRepository for InMemorySectionRepository {
    open spec fn wf(&self) -> bool {
        &&& self.next_id >= 1
        &&& forall|i: int|
            0 <= i < self.store@.len() ==> (#[trigger] self.store@[i]).counters_wf()
        &&& forall|i: int|
            0 <= i < self.store@.len() ==> 1 <= (#[trigger] self.store@[i]).id < self.next_id
        &&& forall|i: int, j: int|
            0 <= i < j < self.store@.len() ==> self.store@[i].id != self.store@[j].id
    }

    open spec fn sections(&self) -> Seq<Section> {
        self.store@
    }

    open spec fn id_counter(&self) -> int {
        self.next_id as int
    }

    fn find_by_id(&self, id: i32) -> (r: Result<Section, RepositoryError>) {
        match self.position_of_id(id) {
            Some(i) => {
                proof {
                    lemma_index_of_unique(self.store@, id, i as int);
                }
                Ok(self.store[i].clone())
            },
            None => Err(RepositoryError::NotFound(id)),
        }
    }

    fn find_by_gender(&self, gender: String) -> (r: Result<Vec<Section>, RepositoryError>) {
        let mut sections: Vec<Section> = Vec::new();
        let n = self.store.len();
        let mut i: usize = 0;
        while i < n
            invariant
                n == self.store@.len(),
                i <= n,
                sections@ == sections_of_gender(self.store@.subrange(0, i as int), gender@),
            decreases n - i,
        {
            if self.store[i].gender == gender {
                sections.push(self.store[i].clone());
            }
            proof {
                assert(self.store@.subrange(0, i + 1 as int) =~= self.store@.subrange(
                    0,
                    i as int,
                ).push(self.store@[i as int]));
                lemma_filter_push(
                    self.store@.subrange(0, i as int),
                    |sec: Section| sec.gender@ == gender@,
                    self.store@[i as int],
                );
            }
            i = i + 1;
        }
        proof {
            assert(self.store@.subrange(0, n as int) =~= self.store@);
        }
        if sections.is_empty() {
            Err(RepositoryError::NoSectionForGender)
        } else {
            Ok(sections)
        }
    }

    fn find_by_building(&self, gender: String, building: String) -> (r: Result<
        Vec<Section>,
        RepositoryError,
    >) {
        let mut sections: Vec<Section> = Vec::new();
        let n = self.store.len();
        let mut i: usize = 0;
        while i < n
            invariant
                n == self.store@.len(),
                i <= n,
                sections@ == sections_of_building(
                    self.store@.subrange(0, i as int),
                    gender@,
                    building@,
                ),
            decreases n - i,
        {
            if self.store[i].gender == gender && self.store[i].building == building {
                sections.push(self.store[i].clone());
            }
            proof {
                assert(self.store@.subrange(0, i + 1 as int) =~= self.store@.subrange(
                    0,
                    i as int,
                ).push(self.store@[i as int]));
                lemma_filter_push(
                    self.store@.subrange(0, i as int),
                    |sec: Section| sec.gender@ == gender@ && sec.building@ == building@,
                    self.store@[i as int],
                );
            }
            i = i + 1;
        }
        proof {
            assert(self.store@.subrange(0, n as int) =~= self.store@);
        }
        if sections.is_empty() {
            Err(RepositoryError::NoSectionForBuilding)
        } else {
            Ok(sections)
        }
    }

    fn find_by_floor(&self, gender: String, building: String, floor: i32) -> (r: Result<
        Vec<Section>,
        RepositoryError,
    >) {
        let mut sections: Vec<Section> = Vec::new();
        let n = self.store.len();
        let mut i: usize = 0;
        while i < n
            invariant
                n == self.store@.len(),
                i <= n,
                sections@ == sections_of_floor(
                    self.store@.subrange(0, i as int),
                    gender@,
                    building@,
                    floor,
                ),
            decreases n - i,
        {
            if self.store[i].gender == gender && self.store[i].building == building
                && self.store[i].floor == floor {
                sections.push(self.store[i].clone());
            }
            proof {
                assert(self.store@.subrange(0, i + 1 as int) =~= self.store@.subrange(
                    0,
                    i as int,
                ).push(self.store@[i as int]));
                lemma_filter_push(
                    self.store@.subrange(0, i as int),
                    |sec: Section| sec.gender@ == gender@ && sec.building@ == building@
                        && sec.floor == floor,
                    self.store@[i as int],
                );
            }
            i = i + 1;
        }
        proof {
            assert(self.store@.subrange(0, n as int) =~= self.store@);
        }
        if sections.is_empty() {
            Err(RepositoryError::NoSectionForBuilding)
        } else {
            Ok(sections)
        }
    }

    fn find_all(&self) -> (r: Result<Vec<Section>, RepositoryError>) {
        let mut sections: Vec<Section> = Vec::new();
        let n = self.store.len();
        let mut i: usize = 0;
        while i < n
            invariant
                n == self.store@.len(),
                i <= n,
                sections@ == self.store@.subrange(0, i as int),
            decreases n - i,
        {
            sections.push(self.store[i].clone());
            proof {
                assert(self.store@.subrange(0, i + 1 as int) =~= self.store@.subrange(
                    0,
                    i as int,
                ).push(self.store@[i as int]));
            }
            i = i + 1;
        }
        proof {
            assert(self.store@.subrange(0, n as int) =~= self.store@);
        }
        Ok(sections)
    }

    fn create(&mut self, payload: CreateSection, info: SectionInfo) -> (r: Result<
        Section,
        RepositoryError,
    >) {
        let id = self.next_id;
        let section = Section::new(id, info.gender, info.building, info.floor, payload.total);
        self.store.push(section.clone());
        self.next_id = self.next_id + 1;
        proof {
            assert forall|i: int, j: int|
                0 <= i < j < self.store@.len() implies self.store@[i].id != self.store@[j].id by {
                if j < self.store@.len() - 1 {
                    assert(old(self).store@[i].id != old(self).store@[j].id);
                } else {
                    assert(old(self).store@[i].id < old(self).next_id);
                }
            }
        }
        Ok(section)
    }

    fn update(&mut self, payload: UpdateSection) -> (r: Result<Section, RepositoryError>) {
        match self.position_of_id(payload.id) {
            None => Err(RepositoryError::NotFound(payload.id)),
            Some(idx) => {
                proof {
                    lemma_index_of_unique(self.store@, payload.id, idx as int);
                }
                let stored = self.store[idx].clone();
                proof {
                    if transition_ok(payload.current_status@, payload.next_status@, stored) {
                        lemma_wf_transition_in_range(
                            payload.current_status@,
                            payload.next_status@,
                            stored,
                        );
                    }
                }
                match inmemory_switch_usage(
                    payload.current_status.clone(),
                    payload.next_status.clone(),
                    stored.clone(),
                ) {
                    Err(e) => Err(RepositoryError::Transition(e)),
                    Ok(usage) => {
                        proof {
                            lemma_section_after_wf(
                                payload.current_status@,
                                payload.next_status@,
                                stored,
                            );
                        }
                        let section = Section {
                            id: payload.id,
                            gender: stored.gender,
                            building: stored.building,
                            floor: stored.floor,
                            total: stored.total,
                            available: usage.available,
                            occupied: usage.occupied,
                            disabled_rooms: usage.disabled_rooms,
                        };
                        self.store[idx] = section.clone();
                        Ok(section)
                    },
                }
            },
        }
    }

    fn delete(&mut self, id: i32) -> (r: Result<(), RepositoryError>) {
        match self.position_of_id(id) {
            None => Err(RepositoryError::NotFound(id)),
            Some(idx) => {
                proof {
                    lemma_index_of_unique(self.store@, id, idx as int);
                }
                self.store.remove(idx);
                proof {
                    assert forall|i: int, j: int|
                        0 <= i < j < self.store@.len() implies self.store@[i].id
                        != self.store@[j].id by {
                        let oi: int = if i < idx { i } else { i + 1 };
                        let oj: int = if j < idx { j } else { j + 1 };
                        assert(self.store@[i] == old(self).store@[oi]);
                        assert(self.store@[j] == old(self).store@[oj]);
                    }
                    assert forall|i: int|
                        0 <= i < self.store@.len() implies (#[trigger] self.store@[i]).counters_wf()
                        && 1 <= self.store@[i].id < self.next_id by {
                        let oi: int = if i < idx { i } else { i + 1 };
                        assert(self.store@[i] == old(self).store@[oi]);
                    }
                }
                Ok(())
            },
        }
    }
}

} // verus!
