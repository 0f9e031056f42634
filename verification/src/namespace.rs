//! The last step of loading the Action namespace: the decoded Action
//! Requests and what replaying the recorded activity left are put together
//! into one snapshot, with the recorded commands in operation order.

use vstd::prelude::*;
use crate::activity::ActivityReplay;
use crate::load_error::ActionPersistenceLoadError;
use crate::model::{
    capsule_views, request_views, ActionPersistenceSnapshot, ActionReplayCapsule,
    ActionRequestRecord, CapsuleView,
};

verus! {

/// Whether every recorded command's ordinal is below their number.
pub open spec fn ordinals_in_range(replay: Seq<CapsuleView>) -> bool {
    forall|i: int| 0 <= i < replay.len() ==> (#[trigger] replay[i]).operation_ordinal < replay.len()
}

/// Whether no two recorded commands share an ordinal.
pub open spec fn ordinals_distinct(replay: Seq<CapsuleView>) -> bool {
    forall|i: int, j: int|
        0 <= i < j < replay.len() ==> (#[trigger] replay[i]).operation_ordinal != (
        #[trigger] replay[j]).operation_ordinal
}

/// Whether the recorded command with ordinal `ordinal` is there.
pub open spec fn has_ordinal(replay: Seq<CapsuleView>, ordinal: int) -> bool {
    exists|j: int| 0 <= j < replay.len() && (#[trigger] replay[j]).operation_ordinal == ordinal
}

/// Whether every ordinal below the number of recorded commands is one's.
pub open spec fn ordinals_covered(replay: Seq<CapsuleView>) -> bool {
    forall|ordinal: int| 0 <= ordinal < replay.len() ==> #[trigger] has_ordinal(replay, ordinal)
}

/// Whether the recorded commands number 0, 1, 2, … without a gap or a
/// repeat, in whatever order they come.
pub open spec fn ordinals_exact(replay: Seq<CapsuleView>) -> bool {
    &&& ordinals_in_range(replay)
    &&& ordinals_distinct(replay)
    &&& ordinals_covered(replay)
}

/// Whether `ordered` holds the commands of `replay` in operation order:
/// the command at place `i` is the one of `replay` with ordinal `i`.
pub open spec fn in_operation_order(ordered: Seq<CapsuleView>, replay: Seq<CapsuleView>) -> bool {
    &&& ordered.len() == replay.len()
    &&& forall|i: int|
        0 <= i < ordered.len() ==> (#[trigger] ordered[i]).operation_ordinal == i && exists|j: int|
            0 <= j < replay.len() && replay[j] == ordered[i]
}

/// Puts the loaded namespace together: the decoded Action Requests, and the
/// Actions, recorded commands, pending and discarded previews that
/// replaying the activity left.  The recorded commands are put in
/// operation order; a gap or a repeat in their ordinals makes the stored
/// namespace an invalid snapshot.
#[verifier::loop_isolation(false)]
pub fn assemble_namespace(requests: Vec<ActionRequestRecord>, replayed: ActivityReplay) -> (result:
    Result<ActionPersistenceSnapshot, ActionPersistenceLoadError>)
    ensures
        result is Ok <==> ordinals_exact(replayed@.replay),
        result matches Err(error) ==> error == ActionPersistenceLoadError::InvalidActionSnapshot,
        result matches Ok(snapshot) ==> {
            &&& snapshot@.requests == request_views(requests@)
            &&& snapshot@.actions == replayed@.actions
            &&& snapshot@.prepared == replayed@.pending
            &&& snapshot@.discarded == replayed@.discarded
            &&& in_operation_order(snapshot@.replay, replayed@.replay)
        },
{
    let ghost before = replayed@;
    let ActivityReplay { actions, replay, pending, discarded } = replayed;
    let ghost input = capsule_views(replay@);
    assert(input == before.replay);
    let n = replay.len();
    let mut slots: Vec<Option<ActionReplayCapsule>> = Vec::new();
    let mut k: usize = 0;
    while k < n
        invariant
            k <= n,
            slots@.len() == k,
            forall|o: int| 0 <= o < k ==> slots@[o] is None,
        decreases n - k,
    {
        slots.push(None);
        k = k + 1;
    }
    let mut i: usize = 0;
    while i < n
        invariant
            n == replay@.len(),
            input == capsule_views(replay@),
            input == before.replay,
            slots@.len() == n,
            i <= n,
            forall|a: int| 0 <= a < i ==> (#[trigger] input[a]).operation_ordinal < n,
            forall|a: int, b: int|
                0 <= a < b < i ==> (#[trigger] input[a]).operation_ordinal != (
                #[trigger] input[b]).operation_ordinal,
            forall|o: int|
                0 <= o < n ==> match #[trigger] slots@[o] {
                    Some(c) => exists|a: int|
                        0 <= a < i && input[a].operation_ordinal == o && input[a] == c@,
                    None => forall|a: int| 0 <= a < i ==> input[a].operation_ordinal != o,
                },
        decreases n - i,
    {
        let ordinal = replay[i].operation_ordinal;
        proof {
            assert(input[i as int] == replay@[i as int]@);
        }
        if ordinal >= n as u64 {
            proof {
                assert(!ordinals_in_range(input));
            }
            return Err(ActionPersistenceLoadError::InvalidActionSnapshot);
        }
        let o = ordinal as usize;
        if slots[o].is_some() {
            proof {
                let a = choose|a: int|
                    0 <= a < i && input[a].operation_ordinal == o && input[a] == slots@[o as int]->Some_0@;
                assert(input[a].operation_ordinal == input[i as int].operation_ordinal);
                assert(!ordinals_distinct(input));
            }
            return Err(ActionPersistenceLoadError::InvalidActionSnapshot);
        }
        let copy = replay[i].clone();
        let ghost old_slots = slots@;
        slots.set(o, Some(copy));
        proof {
            assert forall|q: int| 0 <= q < n implies match #[trigger] slots@[q] {
                Some(c) => exists|a: int|
                    0 <= a < i + 1 && input[a].operation_ordinal == q && input[a] == c@,
                None => forall|a: int| 0 <= a < i + 1 ==> input[a].operation_ordinal != q,
            } by {
                if q == o as int {
                    assert(input[i as int].operation_ordinal == q && input[i as int] == copy@);
                } else {
                    assert(slots@[q] == old_slots[q]);
                    match old_slots[q] {
                        Some(c) => {
                            let a = choose|a: int|
                                0 <= a < i && input[a].operation_ordinal == q && input[a] == c@;
                            assert(0 <= a < i + 1 && input[a].operation_ordinal == q && input[a] == c@);
                        },
                        None => {},
                    }
                }
            }
            assert forall|a: int, b: int|
                0 <= a < b < i + 1 implies (#[trigger] input[a]).operation_ordinal != (
                #[trigger] input[b]).operation_ordinal by {
                if b == i as int && input[a].operation_ordinal == input[b].operation_ordinal {
                    assert(old_slots[o as int] is None);
                }
            }
        }
        i = i + 1;
    }
    proof {
        assert(ordinals_in_range(input));
        assert(ordinals_distinct(input));
    }
    let mut ordered: Vec<ActionReplayCapsule> = Vec::new();
    let mut q: usize = 0;
    while q < n
        invariant
            n == input.len(),
            input == before.replay,
            slots@.len() == n,
            q <= n,
            ordered@.len() == q,
            ordinals_distinct(input),
            forall|o: int|
                0 <= o < n ==> match #[trigger] slots@[o] {
                    Some(c) => exists|a: int|
                        0 <= a < n && input[a].operation_ordinal == o && input[a] == c@,
                    None => forall|a: int| 0 <= a < n ==> input[a].operation_ordinal != o,
                },
            forall|p: int| 0 <= p < q ==> #[trigger] has_ordinal(input, p),
            forall|p: int|
                0 <= p < q ==> (#[trigger] capsule_views(ordered@)[p]).operation_ordinal == p
                    && exists|j: int| 0 <= j < n && input[j] == capsule_views(ordered@)[p],
        decreases n - q,
    {
        match &slots[q] {
            Some(capsule) => {
                let copy = capsule.clone();
                let ghost old_ordered = ordered@;
                ordered.push(copy);
                proof {
                    let a = choose|a: int|
                        0 <= a < n && input[a].operation_ordinal == q && input[a] == capsule@;
                    assert(input[a].operation_ordinal == q);
                    assert(has_ordinal(input, q as int));
                    assert forall|p: int| 0 <= p < q + 1 implies (#[trigger] capsule_views(
                        ordered@,
                    )[p]).operation_ordinal == p && exists|j: int|
                        0 <= j < n && input[j] == capsule_views(ordered@)[p] by {
                        if p < q {
                            assert(ordered@[p] == old_ordered[p]);
                            assert(capsule_views(ordered@)[p] == capsule_views(old_ordered)[p]);
                        } else {
                            assert(capsule_views(ordered@)[p] == copy@);
                            assert(input[a] == capsule_views(ordered@)[p]);
                        }
                    }
                }
            },
            None => {
                proof {
                    assert(!has_ordinal(input, q as int));
                    assert(!ordinals_covered(input));
                }
                return Err(ActionPersistenceLoadError::InvalidActionSnapshot);
            },
        }
        q = q + 1;
    }
    let snapshot = ActionPersistenceSnapshot {
        requests,
        actions,
        replay: ordered,
        prepared: pending,
        discarded,
    };
    proof {
        assert(ordinals_covered(input));
        assert(snapshot@.replay == capsule_views(snapshot.replay@));
    }
    Ok(snapshot)
}

} // verus!
