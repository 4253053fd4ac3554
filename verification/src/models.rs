//! Data model of the section store: the `Section` record and the small
//! payload values that the store's operations take and return.

use vstd::prelude::*;

verus! {

/// One physical sub-location's occupancy record. The three mutable counters
/// partition `total`: every room is available, occupied or disabled.
#[derive(Debug)]
pub struct Section {
    pub id: i32,
    pub gender: String,
    pub building: String,
    pub floor: i32,
    pub total: i32,
    pub available: i32,
    pub occupied: i32,
    pub disabled_rooms: i32,
}

impl Section {
    /// Consistency of the counters. A section created from a non-negative
    /// `total` keeps every counter non-negative; one created from a negative
    /// `total` (which the store accepts and never lets move) keeps
    /// `available` at least `total`. In both cases the counters sum to
    /// `total`, so a transition can never push a counter past `i32::MAX`.
    pub open spec fn counters_wf(self) -> bool {
        &&& self.occupied >= 0
        &&& self.disabled_rooms >= 0
        &&& self.available + self.occupied + self.disabled_rooms == self.total
        &&& if self.total >= 0 {
            self.available >= 0
        } else {
            self.available >= self.total
        }
    }

    /// A fresh section: every room starts available.
    pub fn new(id: i32, gender: String, building: String, floor: i32, total: i32) -> (r: Self)
        ensures
            r.id == id,
            r.gender == gender,
            r.building == building,
            r.floor == floor,
            r.total == total,
            r.available == total,
            r.occupied == 0,
            r.disabled_rooms == 0,
            r.counters_wf(),
    {
        Self {
            id,
            gender,
            building,
            floor,
            total,
            available: total,
            occupied: 0,
            disabled_rooms: 0,
        }
    }
}

impl Clone for Section {
    fn clone(&self) -> (r: Self)
        ensures
            r == *self,
    {
        Section {
            id: self.id,
            gender: self.gender.clone(),
            building: self.building.clone(),
            floor: self.floor,
            total: self.total,
            available: self.available,
            occupied: self.occupied,
            disabled_rooms: self.disabled_rooms,
        }
    }
}

/// The lookup dimensions under which a new section is filed.
#[derive(Debug, Clone)]
pub struct SectionInfo {
    pub gender: String,
    pub building: String,
    pub floor: i32,
}

/// Creation payload: how many rooms the new section holds in total.
#[derive(Debug, Clone)]
pub struct CreateSection {
    pub total: i32,
}

/// A requested status transition for the section with the given id.
#[derive(Debug, Clone)]
pub struct UpdateSection {
    pub id: i32,
    pub current_status: String,
    pub next_status: String,
}

/// A requested status transition without the target id (the caller resolves
/// the id from the lookup dimensions first).
#[derive(Debug, Clone)]
pub struct UpdatePayload {
    pub current_status: String,
    pub next_status: String,
}

/// The three counters that a successful transition produces; the caller
/// persists them, they are not stored themselves.
#[derive(Debug, Clone, Copy, PartialEq, Eq, Structural)]
pub struct Usage {
    pub available: i32,
    pub occupied: i32,
    pub disabled_rooms: i32,
}

} // verus!
