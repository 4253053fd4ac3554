//! The usage-transition engine: a pure function from a section's counters and
//! a requested `(current_status, next_status)` pair to the new counters, or a
//! refusal. The six directed edges over {available, occupied, disabled} are
//! permitted; a self-loop, an unknown status name, or a source state with no
//! room in it is refused, and nothing is ever silently clamped.

use vstd::prelude::*;

use crate::errors::TransitionError;
use crate::models::{Section, Usage};

verus! {

/// The three recognized status names.
pub open spec fn is_valid_status(s: Seq<char>) -> bool {
    s == "available"@ || s == "occupied"@ || s == "disabled"@
}

/// The counter of `sec` that the status name `status` designates.
pub open spec fn counter(sec: Section, status: Seq<char>) -> int
    recommends
        is_valid_status(status),
{
    if status == "available"@ {
        sec.available as int
    } else if status == "occupied"@ {
        sec.occupied as int
    } else {
        sec.disabled_rooms as int
    }
}

/// The `(current, next)` pair names one of the six permitted edges: both
/// statuses are recognized and they differ.
pub open spec fn transition_allowed(cur: Seq<char>, nxt: Seq<char>) -> bool {
    is_valid_status(cur) && is_valid_status(nxt) && cur != nxt
}

/// The requested step is permitted and the source state has a room to move.
pub open spec fn transition_ok(cur: Seq<char>, nxt: Seq<char>, sec: Section) -> bool {
    transition_allowed(cur, nxt) && counter(sec, cur) > 0
}

/// The counter named `which` after moving one room from `cur` to `nxt`:
/// the source loses one, the destination gains one, the third is untouched.
pub open spec fn counter_after(sec: Section, cur: Seq<char>, nxt: Seq<char>, which: Seq<
    char,
>) -> int {
    counter(sec, which) - (if which == cur {
        1int
    } else {
        0int
    }) + (if which == nxt {
        1int
    } else {
        0int
    })
}

/// The whole section after moving one room from `cur` to `nxt`; identity and
/// `total` are untouched.
pub open spec fn section_after(sec: Section, cur: Seq<char>, nxt: Seq<char>) -> Section {
    Section {
        available: counter_after(sec, cur, nxt, "available"@) as i32,
        occupied: counter_after(sec, cur, nxt, "occupied"@) as i32,
        disabled_rooms: counter_after(sec, cur, nxt, "disabled"@) as i32,
        ..sec
    }
}

/// The refusal for a permitted edge whose source state is empty.
pub open spec fn exhausted_error(cur: Seq<char>, nxt: Seq<char>) -> TransitionError
    recommends
        transition_allowed(cur, nxt),
{
    if cur == "available"@ {
        if nxt == "occupied"@ {
            TransitionError::NoAvailable
        } else {
            TransitionError::NoAvailableToDisable
        }
    } else if cur == "occupied"@ {
        if nxt == "available"@ {
            TransitionError::NoOccupied
        } else {
            TransitionError::NoOccupiedToDisable
        }
    } else {
        if nxt == "available"@ {
            TransitionError::NoDisabled
        } else {
            TransitionError::NoDisabledToOccupy
        }
    }
}

/// The refusal the engine makes on a request that is not fully permitted.
pub open spec fn transition_error(cur: Seq<char>, nxt: Seq<char>, sec: Section) -> TransitionError {
    if !transition_allowed(cur, nxt) {
        TransitionError::InvalidStatus
    } else {
        exhausted_error(cur, nxt)
    }
}

/// The three status names are pairwise distinct sequences.
pub proof fn lemma_status_literals_distinct()
    ensures
        "available"@ != "occupied"@,
        "available"@ != "disabled"@,
        "occupied"@ != "disabled"@,
{
    reveal_strlit("available");
    reveal_strlit("occupied");
    reveal_strlit("disabled");
    assert("available"@.len() == 9);
    assert("occupied"@.len() == 8);
    assert("occupied"@[0] == 'o');
    assert("disabled"@[0] == 'd');
}

/// Computes the effect of the requested transition on `section`'s counters,
/// or refuses it. Pure and stateless: the result depends on the arguments
/// alone, and `section` itself is never changed.
///
/// The one precondition is a machine limit: a permitted step must not push
/// the destination counter past `i32::MAX` (the store's counter consistency
/// rules this out for every stored section).
pub fn inmemory_switch_usage(current_status: String, next_status: String, section: Section) -> (r:
    Result<Usage, TransitionError>)
    requires
        transition_ok(current_status@, next_status@, section) ==> counter(section, next_status@)
            < i32::MAX,
    ensures
        r is Ok <==> transition_ok(current_status@, next_status@, section),
        (r matches Ok(u) ==> u.available == counter_after(
            section,
            current_status@,
            next_status@,
            "available"@,
        )),
        (r matches Ok(u) ==> u.occupied == counter_after(
            section,
            current_status@,
            next_status@,
            "occupied"@,
        )),
        (r matches Ok(u) ==> u.disabled_rooms == counter_after(
            section,
            current_status@,
            next_status@,
            "disabled"@,
        )),
        (r matches Err(e) ==> e == transition_error(current_status@, next_status@, section)),
{
    proof {
        lemma_status_literals_distinct();
    }
    let avail: String = "available".to_owned();
    let occ: String = "occupied".to_owned();
    let dis: String = "disabled".to_owned();
    if current_status == avail {
        if next_status == occ {
            if section.available > 0 {
                Ok(
                    Usage {
                        available: section.available - 1,
                        occupied: section.occupied + 1,
                        disabled_rooms: section.disabled_rooms,
                    },
                )
            } else {
                Err(TransitionError::NoAvailable)
            }
        } else if next_status == dis {
            if section.available > 0 {
                Ok(
                    Usage {
                        available: section.available - 1,
                        occupied: section.occupied,
                        disabled_rooms: section.disabled_rooms + 1,
                    },
                )
            } else {
                Err(TransitionError::NoAvailableToDisable)
            }
        } else {
            Err(TransitionError::InvalidStatus)
        }
    } else if current_status == occ {
        if next_status == avail {
            if section.occupied > 0 {
                Ok(
                    Usage {
                        available: section.available + 1,
                        occupied: section.occupied - 1,
                        disabled_rooms: section.disabled_rooms,
                    },
                )
            } else {
                Err(TransitionError::NoOccupied)
            }
        } else if next_status == dis {
            if section.occupied > 0 {
                Ok(
                    Usage {
                        available: section.available,
                        occupied: section.occupied - 1,
                        disabled_rooms: section.disabled_rooms + 1,
                    },
                )
            } else {
                Err(TransitionError::NoOccupiedToDisable)
            }
        } else {
            Err(TransitionError::InvalidStatus)
        }
    } else if current_status == dis {
        if next_status == avail {
            if section.disabled_rooms > 0 {
                Ok(
                    Usage {
                        available: section.available + 1,
                        occupied: section.occupied,
                        disabled_rooms: section.disabled_rooms - 1,
                    },
                )
            } else {
                Err(TransitionError::NoDisabled)
            }
        } else if next_status == occ {
            if section.disabled_rooms > 0 {
                Ok(
                    Usage {
                        available: section.available,
                        occupied: section.occupied + 1,
                        disabled_rooms: section.disabled_rooms - 1,
                    },
                )
            } else {
                Err(TransitionError::NoDisabledToOccupy)
            }
        } else {
            Err(TransitionError::InvalidStatus)
        }
    } else {
        Err(TransitionError::InvalidStatus)
    }
}

/// The SQL statement that applies the same step server-side, one per
/// permitted edge. No counter guard here: the relational backend enforces
/// its own constraints.
pub open spec fn switch_query(cur: Seq<char>, nxt: Seq<char>) -> Seq<char>
    recommends
        transition_allowed(cur, nxt),
{
    if cur == "available"@ {
        if nxt == "occupied"@ {
            "update sections set available = available - 1, occupied = occupied + 1 where id = $1 returning *"@
        } else {
            "update sections set available = available - 1, disabled_rooms = disabled_rooms + 1 where id = $1 returning *"@
        }
    } else if cur == "occupied"@ {
        if nxt == "available"@ {
            "update sections set available = available + 1, occupied = occupied - 1 where id = $1 returning *"@
        } else {
            "update sections set occupied = occupied - 1, disabled_rooms = disabled_rooms + 1 where id = $1 returning *"@
        }
    } else {
        if nxt == "available"@ {
            "update sections set available = available + 1, disabled_rooms = disabled_rooms - 1 where id = $1 returning *"@
        } else {
            "update sections set occupied = occupied + 1, disabled_rooms = disabled_rooms - 1 where id = $1 returning *"@
        }
    }
}

/// Maps a requested `(current, next)` pair to the SQL statement for that
/// edge, refusing anything that is not one of the six permitted edges.
pub fn query_switch_usage(current_status: String, next_status: String) -> (r: Result<
    &'static str,
    TransitionError,
>)
    ensures
        r is Ok <==> transition_allowed(current_status@, next_status@),
        (r matches Ok(q) ==> q@ == switch_query(current_status@, next_status@)),
        (r matches Err(e) ==> e == TransitionError::InvalidStatus),
{
    proof {
        lemma_status_literals_distinct();
    }
    let avail: String = "available".to_owned();
    let occ: String = "occupied".to_owned();
    let dis: String = "disabled".to_owned();
    if current_status == avail {
        if next_status == occ {
            Ok(
                "update sections set available = available - 1, occupied = occupied + 1 where id = $1 returning *",
            )
        } else if next_status == dis {
            Ok(
                "update sections set available = available - 1, disabled_rooms = disabled_rooms + 1 where id = $1 returning *",
            )
        } else {
            Err(TransitionError::InvalidStatus)
        }
    } else if current_status == occ {
        if next_status == avail {
            Ok(
                "update sections set available = available + 1, occupied = occupied - 1 where id = $1 returning *",
            )
        } else if next_status == dis {
            Ok(
                "update sections set occupied = occupied - 1, disabled_rooms = disabled_rooms + 1 where id = $1 returning *",
            )
        } else {
            Err(TransitionError::InvalidStatus)
        }
    } else if current_status == dis {
        if next_status == avail {
            Ok(
                "update sections set available = available + 1, disabled_rooms = disabled_rooms - 1 where id = $1 returning *",
            )
        } else if next_status == occ {
            Ok(
                "update sections set occupied = occupied + 1, disabled_rooms = disabled_rooms - 1 where id = $1 returning *",
            )
        } else {
            Err(TransitionError::InvalidStatus)
        }
    } else {
        Err(TransitionError::InvalidStatus)
    }
}

/// On a counter-consistent section, a permitted step can never push the
/// destination counter past `i32::MAX`: the counters sum to `total`, the
/// source holds at least one room, so the destination is strictly below
/// `total`, which itself fits in an `i32`.
pub proof fn lemma_wf_transition_in_range(cur: Seq<char>, nxt: Seq<char>, sec: Section)
    requires
        sec.counters_wf(),
        transition_ok(cur, nxt, sec),
    ensures
        counter(sec, nxt) < i32::MAX,
        sec.total >= 0,
{
    lemma_status_literals_distinct();
}

/// A permitted step keeps a counter-consistent section counter-consistent.
pub proof fn lemma_section_after_wf(cur: Seq<char>, nxt: Seq<char>, sec: Section)
    requires
        sec.counters_wf(),
        transition_ok(cur, nxt, sec),
    ensures
        section_after(sec, cur, nxt).counters_wf(),
{
    lemma_status_literals_distinct();
    lemma_wf_transition_in_range(cur, nxt, sec);
}

/// Law: a permitted transition out of a non-empty source state conserves the
/// rooms. The source counter drops by exactly one, the destination counter
/// rises by exactly one, every other recognized counter is untouched, and the
/// sum of the three counters — and with it `total`, which the store never
/// changes — stays the same.
pub proof fn lemma_transition_counter_conservation(cur: Seq<char>, nxt: Seq<char>, sec: Section)
    requires
        transition_ok(cur, nxt, sec),
    ensures
        counter_after(sec, cur, nxt, cur) == counter(sec, cur) - 1,
        counter_after(sec, cur, nxt, nxt) == counter(sec, nxt) + 1,
        forall|w: Seq<char>|
            is_valid_status(w) && w != cur && w != nxt ==> #[trigger] counter_after(
                sec,
                cur,
                nxt,
                w,
            ) == counter(sec, w),
        counter_after(sec, cur, nxt, "available"@) + counter_after(sec, cur, nxt, "occupied"@)
            + counter_after(sec, cur, nxt, "disabled"@) == sec.available + sec.occupied
            + sec.disabled_rooms,
{
    lemma_status_literals_distinct();
}

/// Law: a request whose source state holds no room is refused — with the
/// edge's own exhaustion explanation, never silently clamped — and, being a
/// refusal, computes no new counters at all.
pub proof fn lemma_zero_source_rejected(cur: Seq<char>, nxt: Seq<char>, sec: Section)
    requires
        transition_allowed(cur, nxt),
        counter(sec, cur) == 0,
    ensures
        !transition_ok(cur, nxt, sec),
        transition_error(cur, nxt, sec) == exhausted_error(cur, nxt),
{
}

/// Law: a status name outside {available, occupied, disabled}, or a pair
/// with equal source and destination, is refused as an invalid status,
/// whatever the section's counters hold.
pub proof fn lemma_invalid_status_rejected(cur: Seq<char>, nxt: Seq<char>, sec: Section)
    requires
        !transition_allowed(cur, nxt),
    ensures
        !transition_ok(cur, nxt, sec),
        transition_error(cur, nxt, sec) == TransitionError::InvalidStatus,
{
}

/// Law: opposite transitions round-trip. After a permitted step from `cur`
/// to `nxt`, the reverse step from `nxt` back to `cur` is itself permitted
/// and restores the section — counters, identity and all — exactly. In
/// particular, available -> occupied followed by occupied -> available is
/// the identity on the section.
pub proof fn lemma_opposite_transitions_restore(cur: Seq<char>, nxt: Seq<char>, sec: Section)
    requires
        transition_ok(cur, nxt, sec),
        sec.counters_wf(),
    ensures
        transition_ok(nxt, cur, section_after(sec, cur, nxt)),
        section_after(section_after(sec, cur, nxt), nxt, cur) == sec,
{
    lemma_status_literals_distinct();
}

} // verus!
