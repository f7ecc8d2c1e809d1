use crate::app_state::{
    add_workout, close_confirmation, holds_state, move_workout, next_index, next_workout,
    selected_position, swapped, update_workout, AppState, Effect,
};
use crate::confirmation_dialog::{ConfirmationPayload, ConfirmationTopic};
use crate::persistence::{valid_workouts_state, WorkoutsState, MAX_WORKOUTS};
use crate::workout::{
    has_text, ids_unique, is_first_position, lemma_position_of_first, other_has_text,
    position_of, texts_of, texts_unique,
};
use vstd::arithmetic::div_mod::{lemma_mod_self_0, lemma_small_mod};
use vstd::prelude::*;

verus! {

/// "Next" from position `i` of `n` entries goes to `i + 1`, or from the last
/// entry back to the first.
pub proof fn lemma_next_index_step(i: int, n: int)
    requires
        0 <= i < n,
    ensures
        next_index(i, n) == if i + 1 < n {
            i + 1
        } else {
            0
        },
{
    if i + 1 < n {
        lemma_small_mod((i + 1) as nat, n as nat);
    } else {
        lemma_mod_self_0(n);
    }
}

/// Where `k` presses of "Next" lead from position `start` of `n` entries,
/// for `k <= n`.
pub open spec fn position_after(start: int, n: int, k: int) -> int {
    if start + k < n {
        start + k
    } else {
        start + k - n
    }
}

proof fn lemma_trace_positions(trace: Seq<AppState>, effects: Seq<Effect>, k: int)
    requires
        trace.len() >= 1,
        trace[0].wf(),
        trace[0].workouts@.len() > 0,
        trace.len() <= trace[0].workouts@.len() + 1,
        effects.len() + 1 == trace.len(),
        forall|j: int|
            0 <= j < effects.len() ==> #[trigger] next_workout(trace[j], trace[j + 1], effects[j]),
        0 <= k < trace.len(),
    ensures
        trace[k].workouts == trace[0].workouts,
        trace[k].workout_index == position_after(
            trace[0].workout_index as int,
            trace[0].workouts@.len() as int,
            k,
        ),
    decreases k,
{
    if k > 0 {
        lemma_trace_positions(trace, effects, k - 1);
        let j = k - 1;
        assert(next_workout(trace[j], trace[j + 1], effects[j]));
        lemma_next_index_step(trace[k - 1].workout_index as int, trace[0].workouts@.len() as int);
    }
}

/// Some state of `trace` before its last one has index `p`.
pub open spec fn visits(trace: Seq<AppState>, p: int) -> bool {
    exists|k: int| 0 <= k < trace.len() - 1 && #[trigger] trace[k].workout_index == p
}

/// On a list of `n > 0` entries, `n` presses of "Next" (the states of
/// `trace`, one press between each two) reach every position once and come
/// back to the starting index exactly at the `n`-th press.
pub proof fn lemma_next_cycles(trace: Seq<AppState>, effects: Seq<Effect>)
    requires
        trace.len() >= 1,
        trace[0].wf(),
        trace[0].workouts@.len() > 0,
        trace.len() == trace[0].workouts@.len() + 1,
        effects.len() + 1 == trace.len(),
        forall|k: int|
            0 <= k < effects.len() ==> #[trigger] next_workout(trace[k], trace[k + 1], effects[k]),
    ensures
        trace.last().workout_index == trace[0].workout_index,
        forall|k: int|
            0 < k < effects.len() ==> #[trigger] trace[k].workout_index
                != trace[0].workout_index,
        forall|p: int| 0 <= p < trace[0].workouts@.len() ==> #[trigger] visits(trace, p),
{
    let n = trace[0].workouts@.len() as int;
    let s = trace[0].workout_index as int;
    lemma_trace_positions(trace, effects, n);
    assert forall|k: int| 0 < k < effects.len() implies #[trigger] trace[k].workout_index
        != trace[0].workout_index by {
        lemma_trace_positions(trace, effects, k);
    }
    assert forall|p: int| 0 <= p < n implies #[trigger] visits(trace, p) by {
        let k = if p >= s {
            p - s
        } else {
            p - s + n
        };
        lemma_trace_positions(trace, effects, k);
        assert(trace[k].workout_index == p);
    }
}

/// "Next" on an empty list changes nothing and saves nothing.
pub proof fn lemma_next_on_empty_list(pre: AppState, post: AppState, e: Effect)
    requires
        next_workout(pre, post, e),
        pre.workouts@.len() == 0,
    ensures
        post == pre,
        e == Effect::Nothing,
{
}

/// "Add" changes nothing when the edit buffer is empty or shows exactly
/// (case-sensitively) the text of an existing entry.
pub proof fn lemma_add_rejects_empty_or_taken(pre: AppState, post: AppState, e: Effect)
    requires
        add_workout(pre, post, e),
        pre.workout_input is Some,
        pre.workout_input->0@.len() == 0 || has_text(pre.workouts@, pre.workout_input->0@),
    ensures
        post == pre,
        e == Effect::Nothing,
{
}

/// "Add" with a non-empty edit buffer that no entry shows, on a list with
/// room, appends the buffer as the last entry.
pub proof fn lemma_add_appends_new_text(pre: AppState, post: AppState, e: Effect)
    requires
        add_workout(pre, post, e),
        pre.workout_input is Some,
        pre.workout_input->0@.len() > 0,
        !has_text(pre.workouts@, pre.workout_input->0@),
        pre.workouts@.len() < MAX_WORKOUTS,
    ensures
        texts_of(post.workouts@) == texts_of(pre.workouts@).push(pre.workout_input->0@),
        e == Effect::SaveWorkouts,
{
    assert(post.workouts@ =~= pre.workouts@.push(post.workouts@.last()));
    assert(texts_of(post.workouts@) =~= texts_of(pre.workouts@).push(pre.workout_input->0@));
}

/// "Update" changes nothing when the edit buffer shows the text of an entry
/// other than the selected one.
pub proof fn lemma_update_rejects_other_text(pre: AppState, post: AppState, e: Effect)
    requires
        update_workout(pre, post, e),
        pre.workout_selection is Some,
        pre.workout_input is Some,
        other_has_text(pre.workouts@, pre.workout_selection->0.id, pre.workout_input->0@),
    ensures
        post == pre,
        e == Effect::Nothing,
{
}

/// In a list of distinct texts, "Update" of the selected entry (at position
/// `p`) to its own unchanged text succeeds: the entry is not compared with
/// itself, and the texts stay as they were.
pub proof fn lemma_update_to_own_text(pre: AppState, post: AppState, e: Effect, p: int)
    requires
        update_workout(pre, post, e),
        texts_unique(pre.workouts@),
        pre.workout_selection is Some,
        position_of(pre.workouts@, pre.workout_selection->0.id) == Some(p),
        pre.workout_input is Some,
        pre.workout_input->0@.len() > 0,
        pre.workout_input->0@ == pre.workouts@[p].text@,
    ensures
        e == Effect::SaveWorkouts,
        texts_of(post.workouts@) == texts_of(pre.workouts@),
{
    let ws = pre.workouts@;
    let id = pre.workout_selection->0.id;
    let t = pre.workout_input->0@;
    assert(is_first_position(ws, id, p));
    if other_has_text(ws, id, t) {
        let i = choose|i: int| 0 <= i < ws.len() && ws[i].id != id && #[trigger] ws[i].text@ == t;
        assert(ws[i].text@ == ws[p].text@);
    }
    assert(texts_of(post.workouts@) =~= texts_of(ws));
}

/// Confirmed deletion of the selected entry at position `p`: the entry
/// leaves the list; an index at or after `p` drops by one but not below 0,
/// an index before `p` stays.
pub proof fn lemma_delete_adjusts_index(
    pre: AppState,
    payload: ConfirmationPayload,
    post: AppState,
    e: Effect,
    p: int,
)
    requires
        close_confirmation(pre, payload, post, e),
        payload.confirmed,
        payload.topic == ConfirmationTopic::WorkoutDeletion,
        selected_position(pre) == Some(p),
    ensures
        post.workouts@ == pre.workouts@.remove(p),
        p <= pre.workout_index ==> post.workout_index == if pre.workout_index > 0 {
            pre.workout_index - 1
        } else {
            0
        },
        p > pre.workout_index ==> post.workout_index == pre.workout_index,
        e == Effect::SaveWorkouts,
{
    let closed = AppState { show_confirmation: None, ..pre };
    assert(selected_position(closed) == selected_position(pre));
}

/// "Move up" on the first entry and "move down" on the last change nothing.
pub proof fn lemma_move_at_boundary(pre: AppState, up: bool, post: AppState, e: Effect, p: int)
    requires
        move_workout(pre, up, post, e),
        selected_position(pre) == Some(p),
        up ==> p == 0,
        !up ==> p == pre.workouts@.len() - 1,
    ensures
        post == pre,
        e == Effect::Nothing,
{
}

/// Away from the boundary, "move up" or "move down" exchanges the selected
/// entry (at position `p`) with its neighbour, and the selection follows the
/// moved entry to its new position.
pub proof fn lemma_move_swaps_and_selection_follows(
    pre: AppState,
    up: bool,
    post: AppState,
    e: Effect,
    p: int,
)
    requires
        move_workout(pre, up, post, e),
        selected_position(pre) == Some(p),
        up ==> p > 0,
        !up ==> p < pre.workouts@.len() - 1 && ids_unique(pre.workouts@),
    ensures
        up ==> post.workouts@ == swapped(pre.workouts@, p - 1, p),
        !up ==> post.workouts@ == swapped(pre.workouts@, p, p + 1),
        post.workout_selection == pre.workout_selection,
        selected_position(post) == Some(
            if up {
                p - 1
            } else {
                p + 1
            },
        ),
        e == Effect::SaveWorkouts,
{
    let ws = pre.workouts@;
    let id = pre.workout_selection->0.id;
    assert(is_first_position(ws, id, p));
    let q = if up {
        p - 1
    } else {
        p + 1
    };
    assert forall|r: int| 0 <= r < q implies #[trigger] post.workouts@[r].id != id by {
        if r < p {
            assert(ws[r].id != id);
        } else {
            assert(ws[p + 1].id != ws[p].id);
        }
    }
    lemma_position_of_first(post.workouts@, id, q);
}

/// Saving a well-formed state and loading what was saved gives back the
/// same index and the same texts in the same order, and what was saved
/// passes the load-time validation.
pub proof fn lemma_save_load_round_trip(saved: AppState, stored: WorkoutsState, loaded: AppState)
    requires
        saved.wf(),
        holds_state(saved, stored),
        holds_state(loaded, stored),
    ensures
        valid_workouts_state(stored),
        loaded.workout_index == saved.workout_index,
        texts_of(loaded.workouts@) == texts_of(saved.workouts@),
{
    assert(texts_of(loaded.workouts@) =~= texts_of(saved.workouts@));
}

} // verus!
