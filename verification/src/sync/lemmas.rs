//! Characterizations of the model's recursions.
//!
//! The error scans, the natural-key searches, and the per-entity write
//! folds are recursive; these lemmas restate them index-wise, which is the
//! form the executable engine's loops and the engine's laws work with.

use crate::models::goal::{GoalHabitView, GoalView};
use crate::models::habit::{CheckInView, HabitView};
use crate::store::{
    check_in_keys_unique, dates_valid, entity_ids_unique, ids_below, lens_ok, link_keys_unique,
    store_wf, users_wf, StoreView,
};
use crate::sync::model::{
    apply_check_ins, apply_goals, apply_habits, apply_links, apply_push, check_in_item_error,
    check_ins_error, data_error, find_check_in, find_link, goal_item_error, goal_row_of,
    goals_error, habit_item_error, habit_locals, habit_row_of, habits_error, merge_check_in,
    push_fits, spec_find_goal,
};
use crate::sync::wire::{
    CheckInSyncDataView, GoalHabitSyncDataView, GoalSyncDataView, HabitSyncDataView, SyncDataView,
};
use crate::dates::{date_of, valid_date};
use vstd::prelude::*;

verus! {

// ---------------------------------------------------------------------------
// Error scans
// ---------------------------------------------------------------------------

pub proof fn lemma_habits_error_none(hs: Seq<HabitSyncDataView>)
    requires
        forall|j: int| 0 <= j < hs.len() ==> habit_item_error(#[trigger] hs[j]) is None,
    ensures
        habits_error(hs) is None,
    decreases hs.len(),
{
    if hs.len() > 0 {
        let rest = hs.drop_first();
        assert forall|j: int| 0 <= j < rest.len() implies habit_item_error(
            #[trigger] rest[j],
        ) is None by {
            assert(rest[j] == hs[j + 1]);
        }
        lemma_habits_error_none(rest);
    }
}

pub proof fn lemma_habits_error_at(hs: Seq<HabitSyncDataView>, i: int)
    requires
        0 <= i < hs.len(),
        forall|j: int| 0 <= j < i ==> habit_item_error(#[trigger] hs[j]) is None,
        habit_item_error(hs[i]) is Some,
    ensures
        habits_error(hs) == habit_item_error(hs[i]),
    decreases hs.len(),
{
    if i > 0 {
        let rest = hs.drop_first();
        assert forall|j: int| 0 <= j < i - 1 implies habit_item_error(
            #[trigger] rest[j],
        ) is None by {
            assert(rest[j] == hs[j + 1]);
        }
        assert(rest[i - 1] == hs[i]);
        lemma_habits_error_at(rest, i - 1);
    }
}

pub proof fn lemma_check_ins_error_none(cs: Seq<CheckInSyncDataView>, locals: Set<Seq<char>>)
    requires
        forall|j: int| 0 <= j < cs.len() ==> check_in_item_error(#[trigger] cs[j], locals) is None,
    ensures
        check_ins_error(cs, locals) is None,
    decreases cs.len(),
{
    if cs.len() > 0 {
        let rest = cs.drop_first();
        assert forall|j: int| 0 <= j < rest.len() implies check_in_item_error(
            #[trigger] rest[j],
            locals,
        ) is None by {
            assert(rest[j] == cs[j + 1]);
        }
        lemma_check_ins_error_none(rest, locals);
    }
}

pub proof fn lemma_check_ins_error_at(cs: Seq<CheckInSyncDataView>, locals: Set<Seq<char>>, i: int)
    requires
        0 <= i < cs.len(),
        forall|j: int| 0 <= j < i ==> check_in_item_error(#[trigger] cs[j], locals) is None,
        check_in_item_error(cs[i], locals) is Some,
    ensures
        check_ins_error(cs, locals) == check_in_item_error(cs[i], locals),
    decreases cs.len(),
{
    if i > 0 {
        let rest = cs.drop_first();
        assert forall|j: int| 0 <= j < i - 1 implies check_in_item_error(
            #[trigger] rest[j],
            locals,
        ) is None by {
            assert(rest[j] == cs[j + 1]);
        }
        assert(rest[i - 1] == cs[i]);
        lemma_check_ins_error_at(rest, locals, i - 1);
    }
}

pub proof fn lemma_goals_error_none(gs: Seq<GoalSyncDataView>)
    requires
        forall|j: int| 0 <= j < gs.len() ==> goal_item_error(#[trigger] gs[j]) is None,
    ensures
        goals_error(gs) is None,
    decreases gs.len(),
{
    if gs.len() > 0 {
        let rest = gs.drop_first();
        assert forall|j: int| 0 <= j < rest.len() implies goal_item_error(
            #[trigger] rest[j],
        ) is None by {
            assert(rest[j] == gs[j + 1]);
        }
        lemma_goals_error_none(rest);
    }
}

pub proof fn lemma_goals_error_at(gs: Seq<GoalSyncDataView>, i: int)
    requires
        0 <= i < gs.len(),
        forall|j: int| 0 <= j < i ==> goal_item_error(#[trigger] gs[j]) is None,
        goal_item_error(gs[i]) is Some,
    ensures
        goals_error(gs) == goal_item_error(gs[i]),
    decreases gs.len(),
{
    if i > 0 {
        let rest = gs.drop_first();
        assert forall|j: int| 0 <= j < i - 1 implies goal_item_error(
            #[trigger] rest[j],
        ) is None by {
            assert(rest[j] == gs[j + 1]);
        }
        assert(rest[i - 1] == gs[i]);
        lemma_goals_error_at(rest, i - 1);
    }
}

pub proof fn lemma_habits_error_none_inv(hs: Seq<HabitSyncDataView>)
    requires
        habits_error(hs) is None,
    ensures
        forall|j: int| 0 <= j < hs.len() ==> habit_item_error(#[trigger] hs[j]) is None,
    decreases hs.len(),
{
    if hs.len() > 0 {
        let rest = hs.drop_first();
        lemma_habits_error_none_inv(rest);
        assert forall|j: int| 0 <= j < hs.len() implies habit_item_error(
            #[trigger] hs[j],
        ) is None by {
            if j > 0 {
                assert(rest[j - 1] == hs[j]);
            }
        }
    }
}

pub proof fn lemma_check_ins_error_none_inv(cs: Seq<CheckInSyncDataView>, locals: Set<Seq<char>>)
    requires
        check_ins_error(cs, locals) is None,
    ensures
        forall|j: int| 0 <= j < cs.len() ==> check_in_item_error(#[trigger] cs[j], locals) is None,
    decreases cs.len(),
{
    if cs.len() > 0 {
        let rest = cs.drop_first();
        lemma_check_ins_error_none_inv(rest, locals);
        assert forall|j: int| 0 <= j < cs.len() implies check_in_item_error(
            #[trigger] cs[j],
            locals,
        ) is None by {
            if j > 0 {
                assert(rest[j - 1] == cs[j]);
            }
        }
    }
}

pub proof fn lemma_goals_error_none_inv(gs: Seq<GoalSyncDataView>)
    requires
        goals_error(gs) is None,
    ensures
        forall|j: int| 0 <= j < gs.len() ==> goal_item_error(#[trigger] gs[j]) is None,
    decreases gs.len(),
{
    if gs.len() > 0 {
        let rest = gs.drop_first();
        lemma_goals_error_none_inv(rest);
        assert forall|j: int| 0 <= j < gs.len() implies goal_item_error(
            #[trigger] gs[j],
        ) is None by {
            if j > 0 {
                assert(rest[j - 1] == gs[j]);
            }
        }
    }
}

// ---------------------------------------------------------------------------
// Natural-key searches
// ---------------------------------------------------------------------------

pub proof fn lemma_find_check_in_char(rows: Seq<CheckInView>, habit_id: int, d: (int, int, int))
    ensures
        match find_check_in(rows, habit_id, d) {
            Some(i) => 0 <= i < rows.len() && rows[i].habit_id == habit_id
                && rows[i].effective_date == d && (forall|j: int|
                0 <= j < i ==> !(#[trigger] rows[j].habit_id == habit_id
                    && rows[j].effective_date == d)),
            None => forall|j: int|
                0 <= j < rows.len() ==> !(#[trigger] rows[j].habit_id == habit_id
                    && rows[j].effective_date == d),
        },
    decreases rows.len(),
{
    if rows.len() > 0 && !(rows.first().habit_id == habit_id && rows.first().effective_date == d) {
        let rest = rows.drop_first();
        lemma_find_check_in_char(rest, habit_id, d);
        match find_check_in(rest, habit_id, d) {
            Some(i) => {
                assert(rows[i + 1] == rest[i]);
                assert forall|j: int| 0 <= j < i + 1 implies !(#[trigger] rows[j].habit_id
                    == habit_id && rows[j].effective_date == d) by {
                    if j > 0 {
                        assert(rest[j - 1] == rows[j]);
                    }
                }
            },
            None => {
                assert forall|j: int| 0 <= j < rows.len() implies !(#[trigger] rows[j].habit_id
                    == habit_id && rows[j].effective_date == d) by {
                    if j > 0 {
                        assert(rest[j - 1] == rows[j]);
                    }
                }
            },
        }
    }
}

pub proof fn lemma_find_check_in_at(rows: Seq<CheckInView>, habit_id: int, d: (int, int, int), i: int)
    requires
        0 <= i < rows.len(),
        rows[i].habit_id == habit_id,
        rows[i].effective_date == d,
        forall|j: int|
            0 <= j < i ==> !(#[trigger] rows[j].habit_id == habit_id && rows[j].effective_date
                == d),
    ensures
        find_check_in(rows, habit_id, d) == Some(i),
    decreases rows.len(),
{
    if i > 0 {
        let rest = rows.drop_first();
        assert forall|j: int| 0 <= j < i - 1 implies !(#[trigger] rest[j].habit_id == habit_id
            && rest[j].effective_date == d) by {
            assert(rest[j] == rows[j + 1]);
        }
        assert(rest[i - 1] == rows[i]);
        lemma_find_check_in_at(rest, habit_id, d, i - 1);
    }
}

pub proof fn lemma_find_check_in_none(rows: Seq<CheckInView>, habit_id: int, d: (int, int, int))
    requires
        forall|j: int|
            0 <= j < rows.len() ==> !(#[trigger] rows[j].habit_id == habit_id
                && rows[j].effective_date == d),
    ensures
        find_check_in(rows, habit_id, d) is None,
    decreases rows.len(),
{
    if rows.len() > 0 {
        let rest = rows.drop_first();
        assert forall|j: int| 0 <= j < rest.len() implies !(#[trigger] rest[j].habit_id == habit_id
            && rest[j].effective_date == d) by {
            assert(rest[j] == rows[j + 1]);
        }
        lemma_find_check_in_none(rest, habit_id, d);
    }
}

pub proof fn lemma_find_link_char(rows: Seq<GoalHabitView>, goal_id: int, habit_id: int)
    ensures
        match find_link(rows, goal_id, habit_id) {
            Some(i) => 0 <= i < rows.len() && rows[i].goal_id == goal_id && rows[i].habit_id
                == habit_id && (forall|j: int|
                0 <= j < i ==> !(#[trigger] rows[j].goal_id == goal_id && rows[j].habit_id
                    == habit_id)),
            None => forall|j: int|
                0 <= j < rows.len() ==> !(#[trigger] rows[j].goal_id == goal_id
                    && rows[j].habit_id == habit_id),
        },
    decreases rows.len(),
{
    if rows.len() > 0 && !(rows.first().goal_id == goal_id && rows.first().habit_id == habit_id) {
        let rest = rows.drop_first();
        lemma_find_link_char(rest, goal_id, habit_id);
        match find_link(rest, goal_id, habit_id) {
            Some(i) => {
                assert(rows[i + 1] == rest[i]);
                assert forall|j: int| 0 <= j < i + 1 implies !(#[trigger] rows[j].goal_id
                    == goal_id && rows[j].habit_id == habit_id) by {
                    if j > 0 {
                        assert(rest[j - 1] == rows[j]);
                    }
                }
            },
            None => {
                assert forall|j: int| 0 <= j < rows.len() implies !(#[trigger] rows[j].goal_id
                    == goal_id && rows[j].habit_id == habit_id) by {
                    if j > 0 {
                        assert(rest[j - 1] == rows[j]);
                    }
                }
            },
        }
    }
}

pub proof fn lemma_find_link_at(rows: Seq<GoalHabitView>, goal_id: int, habit_id: int, i: int)
    requires
        0 <= i < rows.len(),
        rows[i].goal_id == goal_id,
        rows[i].habit_id == habit_id,
        forall|j: int|
            0 <= j < i ==> !(#[trigger] rows[j].goal_id == goal_id && rows[j].habit_id == habit_id),
    ensures
        find_link(rows, goal_id, habit_id) == Some(i),
    decreases rows.len(),
{
    if i > 0 {
        let rest = rows.drop_first();
        assert forall|j: int| 0 <= j < i - 1 implies !(#[trigger] rest[j].goal_id == goal_id
            && rest[j].habit_id == habit_id) by {
            assert(rest[j] == rows[j + 1]);
        }
        assert(rest[i - 1] == rows[i]);
        lemma_find_link_at(rest, goal_id, habit_id, i - 1);
    }
}

pub proof fn lemma_find_link_none(rows: Seq<GoalHabitView>, goal_id: int, habit_id: int)
    requires
        forall|j: int|
            0 <= j < rows.len() ==> !(#[trigger] rows[j].goal_id == goal_id && rows[j].habit_id
                == habit_id),
    ensures
        find_link(rows, goal_id, habit_id) is None,
    decreases rows.len(),
{
    if rows.len() > 0 {
        let rest = rows.drop_first();
        assert forall|j: int| 0 <= j < rest.len() implies !(#[trigger] rest[j].goal_id == goal_id
            && rest[j].habit_id == habit_id) by {
            assert(rest[j] == rows[j + 1]);
        }
        lemma_find_link_none(rest, goal_id, habit_id);
    }
}

pub proof fn lemma_find_goal_at(gs: Seq<GoalView>, id: int, i: int)
    requires
        0 <= i < gs.len(),
        gs[i].id == id,
        forall|j: int| 0 <= j < i ==> #[trigger] gs[j].id != id,
    ensures
        spec_find_goal(gs, id) == Some(gs[i]),
    decreases gs.len(),
{
    if i > 0 {
        let rest = gs.drop_first();
        assert forall|j: int| 0 <= j < i - 1 implies #[trigger] rest[j].id != id by {
            assert(rest[j] == gs[j + 1]);
        }
        assert(rest[i - 1] == gs[i]);
        lemma_find_goal_at(rest, id, i - 1);
    }
}

pub proof fn lemma_find_goal_none(gs: Seq<GoalView>, id: int)
    requires
        forall|j: int| 0 <= j < gs.len() ==> #[trigger] gs[j].id != id,
    ensures
        spec_find_goal(gs, id) is None,
    decreases gs.len(),
{
    if gs.len() > 0 {
        let rest = gs.drop_first();
        assert forall|j: int| 0 <= j < rest.len() implies #[trigger] rest[j].id != id by {
            assert(rest[j] == gs[j + 1]);
        }
        lemma_find_goal_none(rest, id);
    }
}

// ---------------------------------------------------------------------------
// The write folds, index-wise
// ---------------------------------------------------------------------------

/// The habit phase mints the ids `next_id`, `next_id + 1`, ... in order,
/// and the remapper afterwards holds exactly the pushed local ids, each
/// bound to one of the minted ids of a habit that carried it.
pub proof fn lemma_apply_habits_props(hs: Seq<HabitSyncDataView>, user: int, n0: int)
    ensures
        ({
            let f = apply_habits(hs, user, n0);
            &&& f.rows.len() == hs.len()
            &&& f.next_id == n0 + hs.len()
            &&& forall|i: int|
                0 <= i < hs.len() ==> f.rows[i] == habit_row_of(#[trigger] hs[i], user, n0 + i)
            &&& f.remap.dom() =~= habit_locals(hs)
            &&& forall|l: Seq<char>|
                f.remap.dom().contains(l) ==> n0 <= #[trigger] f.remap[l] < n0 + hs.len()
            &&& forall|l: Seq<char>|
                f.remap.dom().contains(l) ==> exists|i: int|
                    0 <= i < hs.len() && #[trigger] hs[i].local_id == l && f.remap[l] == n0 + i
        }),
    decreases hs.len(),
{
    let f = apply_habits(hs, user, n0);
    if hs.len() == 0 {
        assert(f.remap.dom() =~= habit_locals(hs)) by {
            assert(forall|l: Seq<char>| !habit_locals(hs).contains(l));
        }
    } else {
        let prev = hs.drop_last();
        lemma_apply_habits_props(prev, user, n0);
        let p = apply_habits(prev, user, n0);
        let last = hs.last();
        assert forall|i: int| 0 <= i < hs.len() implies f.rows[i] == habit_row_of(
            #[trigger] hs[i],
            user,
            n0 + i,
        ) by {
            if i < hs.len() - 1 {
                assert(prev[i] == hs[i]);
            }
        }
        assert(f.remap.dom() =~= habit_locals(hs)) by {
            assert forall|l: Seq<char>| f.remap.dom().contains(l) implies habit_locals(
                hs,
            ).contains(l) by {
                if l == last.local_id {
                    assert(hs[hs.len() - 1].local_id == l);
                } else {
                    assert(p.remap.dom().contains(l));
                    assert(habit_locals(prev).contains(l));
                    let i = choose|i: int| 0 <= i < prev.len() && #[trigger] prev[i].local_id == l;
                    assert(hs[i].local_id == l);
                }
            }
            assert forall|l: Seq<char>| habit_locals(hs).contains(l) implies f.remap.dom().contains(
                l,
            ) by {
                let i = choose|i: int| 0 <= i < hs.len() && #[trigger] hs[i].local_id == l;
                if i < hs.len() - 1 {
                    assert(prev[i].local_id == l);
                    assert(habit_locals(prev).contains(l));
                }
            }
        }
        assert forall|l: Seq<char>| f.remap.dom().contains(l) implies exists|i: int|
            0 <= i < hs.len() && #[trigger] hs[i].local_id == l && f.remap[l] == n0 + i by {
            if l == last.local_id {
                assert(hs[hs.len() - 1].local_id == l && f.remap[l] == n0 + (hs.len() - 1));
            } else {
                assert(p.remap.dom().contains(l));
                let i = choose|i: int|
                    0 <= i < prev.len() && #[trigger] prev[i].local_id == l && p.remap[l] == n0 + i;
                assert(hs[i].local_id == l && f.remap[l] == n0 + i);
            }
        }
    }
}

/// Same shape for the goal phase.
pub proof fn lemma_apply_goals_props(gs: Seq<GoalSyncDataView>, user: int, n0: int)
    ensures
        ({
            let f = apply_goals(gs, user, n0);
            &&& f.rows.len() == gs.len()
            &&& f.next_id == n0 + gs.len()
            &&& forall|i: int|
                0 <= i < gs.len() ==> f.rows[i] == goal_row_of(#[trigger] gs[i], user, n0 + i)
            &&& forall|l: Seq<char>|
                f.remap.dom().contains(l) ==> n0 <= #[trigger] f.remap[l] < n0 + gs.len()
            &&& forall|l: Seq<char>|
                f.remap.dom().contains(l) ==> exists|i: int|
                    0 <= i < gs.len() && #[trigger] gs[i].local_id == l && f.remap[l] == n0 + i
        }),
    decreases gs.len(),
{
    let f = apply_goals(gs, user, n0);
    if gs.len() > 0 {
        let prev = gs.drop_last();
        lemma_apply_goals_props(prev, user, n0);
        let p = apply_goals(prev, user, n0);
        let last = gs.last();
        assert forall|i: int| 0 <= i < gs.len() implies f.rows[i] == goal_row_of(
            #[trigger] gs[i],
            user,
            n0 + i,
        ) by {
            if i < gs.len() - 1 {
                assert(prev[i] == gs[i]);
            }
        }
        assert forall|l: Seq<char>| f.remap.dom().contains(l) implies exists|i: int|
            0 <= i < gs.len() && #[trigger] gs[i].local_id == l && f.remap[l] == n0 + i by {
            if l == last.local_id {
                assert(gs[gs.len() - 1].local_id == l && f.remap[l] == n0 + (gs.len() - 1));
            } else {
                assert(p.remap.dom().contains(l));
                let i = choose|i: int|
                    0 <= i < prev.len() && #[trigger] prev[i].local_id == l && p.remap[l] == n0 + i;
                assert(gs[i].local_id == l && f.remap[l] == n0 + i);
            }
        }
    }
}

/// What the check-in phase preserves: the natural-key and id invariants,
/// date validity, and the bounds on sizes and the id counter.
pub proof fn lemma_apply_check_ins_wf(
    cs: Seq<CheckInSyncDataView>,
    user: int,
    m: Map<Seq<char>, int>,
    rows0: Seq<CheckInView>,
    n0: int,
)
    requires
        check_in_keys_unique(rows0),
        forall|i: int, j: int|
            0 <= i < j < rows0.len() ==> #[trigger] rows0[i].id != #[trigger] rows0[j].id,
        forall|i: int|
            0 <= i < rows0.len() ==> #[trigger] rows0[i].id < n0 && rows0[i].habit_id < n0,
        forall|i: int| 0 <= i < rows0.len() ==> valid_date(#[trigger] rows0[i].effective_date),
        forall|l: Seq<char>| m.dom().contains(l) ==> 0 <= #[trigger] m[l] < n0,
        forall|i: int|
            0 <= i < cs.len() && m.dom().contains(#[trigger] cs[i].habit_local_id) ==> date_of(
                cs[i].effective_date,
            ) is Some && valid_date(date_of(cs[i].effective_date)->Some_0),
    ensures
        ({
            let f = apply_check_ins(cs, user, m, rows0, n0);
            &&& rows0.len() <= f.rows.len() <= rows0.len() + cs.len()
            &&& n0 <= f.next_id <= n0 + cs.len()
            &&& f.next_id - n0 == f.rows.len() - rows0.len()
            &&& 0 <= f.count <= cs.len()
            &&& check_in_keys_unique(f.rows)
            &&& forall|i: int, j: int|
                0 <= i < j < f.rows.len() ==> #[trigger] f.rows[i].id != #[trigger] f.rows[j].id
            &&& forall|i: int|
                0 <= i < f.rows.len() ==> #[trigger] f.rows[i].id < f.next_id
                    && f.rows[i].habit_id < f.next_id
            &&& forall|i: int|
                0 <= i < f.rows.len() ==> valid_date(#[trigger] f.rows[i].effective_date)
        }),
    decreases cs.len(),
{
    if cs.len() > 0 {
        let prev = cs.drop_last();
        assert forall|i: int|
            0 <= i < prev.len() && m.dom().contains(#[trigger] prev[i].habit_local_id) implies date_of(
            prev[i].effective_date,
        ) is Some && valid_date(date_of(prev[i].effective_date)->Some_0) by {
            assert(prev[i] == cs[i]);
        }
        lemma_apply_check_ins_wf(prev, user, m, rows0, n0);
        let p = apply_check_ins(prev, user, m, rows0, n0);
        let c = cs.last();
        if m.dom().contains(c.habit_local_id) {
            assert(cs[cs.len() - 1] == c);
            let habit_id = m[c.habit_local_id];
            let d = date_of(c.effective_date)->Some_0;
            match find_check_in(p.rows, habit_id, d) {
                Some(i) => {
                    lemma_find_check_in_char(p.rows, habit_id, d);
                    let merged = merge_check_in(p.rows[i], c);
                    let f = apply_check_ins(cs, user, m, rows0, n0);
                    assert(f.rows == p.rows.update(i, merged));
                    assert(merged.id == p.rows[i].id && merged.habit_id == p.rows[i].habit_id
                        && merged.effective_date == p.rows[i].effective_date);
                    assert(check_in_keys_unique(f.rows)) by {
                        assert forall|a: int, b: int| 0 <= a < b < f.rows.len() implies !(
                        #[trigger] f.rows[a].habit_id == #[trigger] f.rows[b].habit_id
                            && f.rows[a].effective_date == f.rows[b].effective_date) by {
                            assert(f.rows[a].habit_id == p.rows[a].habit_id && f.rows[a].effective_date
                                == p.rows[a].effective_date);
                            assert(f.rows[b].habit_id == p.rows[b].habit_id && f.rows[b].effective_date
                                == p.rows[b].effective_date);
                        }
                    }
                },
                None => {
                    lemma_find_check_in_char(p.rows, habit_id, d);
                },
            }
        }
    }
}

/// Same shape for the link phase.
pub proof fn lemma_apply_links_wf(
    ls: Seq<GoalHabitSyncDataView>,
    gm: Map<Seq<char>, int>,
    hm: Map<Seq<char>, int>,
    rows0: Seq<GoalHabitView>,
    n0: int,
)
    requires
        link_keys_unique(rows0),
        forall|i: int, j: int|
            0 <= i < j < rows0.len() ==> #[trigger] rows0[i].id != #[trigger] rows0[j].id,
        forall|i: int|
            0 <= i < rows0.len() ==> #[trigger] rows0[i].id < n0 && rows0[i].goal_id < n0
                && rows0[i].habit_id < n0,
        forall|l: Seq<char>| gm.dom().contains(l) ==> 0 <= #[trigger] gm[l] < n0,
        forall|l: Seq<char>| hm.dom().contains(l) ==> 0 <= #[trigger] hm[l] < n0,
    ensures
        rows0.len() <= apply_links(ls, gm, hm, rows0, n0).rows.len() <= rows0.len() + ls.len(),
        n0 <= apply_links(ls, gm, hm, rows0, n0).next_id <= n0 + ls.len(),
        link_keys_unique(apply_links(ls, gm, hm, rows0, n0).rows),
        forall|i: int, j: int|
            0 <= i < j < apply_links(ls, gm, hm, rows0, n0).rows.len() ==> #[trigger] apply_links(
                ls,
                gm,
                hm,
                rows0,
                n0,
            ).rows[i].id != #[trigger] apply_links(ls, gm, hm, rows0, n0).rows[j].id,
        forall|i: int|
            0 <= i < apply_links(ls, gm, hm, rows0, n0).rows.len() ==> #[trigger] apply_links(
                ls,
                gm,
                hm,
                rows0,
                n0,
            ).rows[i].id < apply_links(ls, gm, hm, rows0, n0).next_id && apply_links(
                ls,
                gm,
                hm,
                rows0,
                n0,
            ).rows[i].goal_id < apply_links(ls, gm, hm, rows0, n0).next_id && apply_links(
                ls,
                gm,
                hm,
                rows0,
                n0,
            ).rows[i].habit_id < apply_links(ls, gm, hm, rows0, n0).next_id,
    decreases ls.len(),
{
    if ls.len() > 0 {
        let prev = ls.drop_last();
        lemma_apply_links_wf(prev, gm, hm, rows0, n0);
        let p = apply_links(prev, gm, hm, rows0, n0);
        let l = ls.last();
        if gm.dom().contains(l.goal_local_id) && hm.dom().contains(l.habit_local_id) {
            let goal_id = gm[l.goal_local_id];
            let habit_id = hm[l.habit_local_id];
            match find_link(p.rows, goal_id, habit_id) {
                Some(i) => {
                    lemma_find_link_char(p.rows, goal_id, habit_id);
                    let merged = GoalHabitView { weight_bits: l.weight_bits, ..p.rows[i] };
                    let f = apply_links(ls, gm, hm, rows0, n0);
                    assert(f.rows == p.rows.update(i, merged));
                    assert(link_keys_unique(f.rows)) by {
                        assert forall|a: int, b: int| 0 <= a < b < f.rows.len() implies !(
                        #[trigger] f.rows[a].goal_id == #[trigger] f.rows[b].goal_id
                            && f.rows[a].habit_id == f.rows[b].habit_id) by {
                            assert(f.rows[a].goal_id == p.rows[a].goal_id && f.rows[a].habit_id
                                == p.rows[a].habit_id);
                            assert(f.rows[b].goal_id == p.rows[b].goal_id && f.rows[b].habit_id
                                == p.rows[b].habit_id);
                        }
                    }
                },
                None => {
                    lemma_find_link_char(p.rows, goal_id, habit_id);
                },
            }
        }
    }
}

// ---------------------------------------------------------------------------
// A valid push preserves well-formedness
// ---------------------------------------------------------------------------

/// A valid push keeps the store well-formed: minted ids stay unique and
/// below the counter, the natural keys stay unique, stored dates stay
/// real, and the collections stay within bounds. The two `valid_date`
/// hypotheses come from the date parser's contract.
pub proof fn lemma_apply_push_wf(st: StoreView, user: int, data: SyncDataView, now: int)
    requires
        store_wf(st),
        push_fits(st, data),
        data_error(data) is None,
        forall|i: int|
            0 <= i < data.check_ins.len() && habit_locals(data.habits).contains(
                #[trigger] data.check_ins[i].habit_local_id,
            ) && date_of(data.check_ins[i].effective_date) is Some ==> valid_date(
                date_of(data.check_ins[i].effective_date)->Some_0,
            ),
        forall|i: int|
            0 <= i < data.goals.len() && date_of(#[trigger] data.goals[i].deadline) is Some
                ==> valid_date(date_of(data.goals[i].deadline)->Some_0),
    ensures
        store_wf(apply_push(st, user, data, now).0),
{
    let hf = apply_habits(data.habits, user, st.next_id);
    let cf = apply_check_ins(data.check_ins, user, hf.remap, st.check_ins, hf.next_id);
    let gf = apply_goals(data.goals, user, cf.next_id);
    let lf = apply_links(data.goal_habits, gf.remap, hf.remap, st.goal_habits, gf.next_id);
    let st2 = apply_push(st, user, data, now).0;
    let locals = habit_locals(data.habits);

    lemma_apply_habits_props(data.habits, user, st.next_id);
    lemma_habits_error_none_inv(data.habits);
    lemma_check_ins_error_none_inv(data.check_ins, locals);
    lemma_goals_error_none_inv(data.goals);

    assert forall|i: int|
        0 <= i < data.check_ins.len() && hf.remap.dom().contains(
            #[trigger] data.check_ins[i].habit_local_id,
        ) implies date_of(data.check_ins[i].effective_date) is Some && valid_date(
        date_of(data.check_ins[i].effective_date)->Some_0,
    ) by {
        assert(locals.contains(data.check_ins[i].habit_local_id));
        assert(check_in_item_error(data.check_ins[i], locals) is None);
    }
    lemma_apply_check_ins_wf(data.check_ins, user, hf.remap, st.check_ins, hf.next_id);

    lemma_apply_goals_props(data.goals, user, cf.next_id);

    assert(st.next_id <= hf.next_id <= cf.next_id <= gf.next_id);

    assert forall|l: Seq<char>| gf.remap.dom().contains(l) implies 0 <= #[trigger] gf.remap[l]
        < gf.next_id by {}
    assert forall|l: Seq<char>| hf.remap.dom().contains(l) implies 0 <= #[trigger] hf.remap[l]
        < gf.next_id by {}
    lemma_apply_links_wf(data.goal_habits, gf.remap, hf.remap, st.goal_habits, gf.next_id);
    assert(gf.next_id <= lf.next_id);

    // the four collections of the new store
    assert(st2.habits == st.habits + hf.rows);
    assert(st2.check_ins == cf.rows);
    assert(st2.goals == st.goals + gf.rows);
    assert(st2.goal_habits == lf.rows);
    assert(st2.next_id == lf.next_id);
    assert(st2.users == st.users);

    assert(ids_below(st2)) by {
        assert forall|i: int| 0 <= i < st2.habits.len() implies #[trigger] st2.habits[i].id
            < st2.next_id by {
            if i < st.habits.len() {
                assert(st2.habits[i] == st.habits[i]);
            } else {
                let k = i - st.habits.len();
                assert(st2.habits[i] == hf.rows[k]);
                assert(hf.rows[k] == habit_row_of(data.habits[k], user, st.next_id + k));
            }
        }
        assert forall|i: int| 0 <= i < st2.goals.len() implies #[trigger] st2.goals[i].id
            < st2.next_id by {
            if i < st.goals.len() {
                assert(st2.goals[i] == st.goals[i]);
            } else {
                let k = i - st.goals.len();
                assert(st2.goals[i] == gf.rows[k]);
                assert(gf.rows[k] == goal_row_of(data.goals[k], user, cf.next_id + k));
            }
        }
    }

    assert(entity_ids_unique(st2)) by {
        assert forall|i: int, j: int| 0 <= i < j < st2.habits.len() implies #[trigger] st2.habits[i].id
            != #[trigger] st2.habits[j].id by {
            let n = st.habits.len() as int;
            if j < n {
                assert(st2.habits[i] == st.habits[i] && st2.habits[j] == st.habits[j]);
            } else if i < n {
                assert(st2.habits[i] == st.habits[i]);
                assert(st2.habits[j] == hf.rows[j - n]);
                assert(hf.rows[j - n] == habit_row_of(data.habits[j - n], user, st.next_id + j - n));
            } else {
                assert(st2.habits[i] == hf.rows[i - n] && st2.habits[j] == hf.rows[j - n]);
                assert(hf.rows[i - n] == habit_row_of(data.habits[i - n], user, st.next_id + i - n));
                assert(hf.rows[j - n] == habit_row_of(data.habits[j - n], user, st.next_id + j - n));
            }
        }
        assert forall|i: int, j: int| 0 <= i < j < st2.goals.len() implies #[trigger] st2.goals[i].id
            != #[trigger] st2.goals[j].id by {
            let n = st.goals.len() as int;
            if j < n {
                assert(st2.goals[i] == st.goals[i] && st2.goals[j] == st.goals[j]);
            } else if i < n {
                assert(st2.goals[i] == st.goals[i]);
                assert(st2.goals[j] == gf.rows[j - n]);
                assert(gf.rows[j - n] == goal_row_of(data.goals[j - n], user, cf.next_id + j - n));
            } else {
                assert(st2.goals[i] == gf.rows[i - n] && st2.goals[j] == gf.rows[j - n]);
                assert(gf.rows[i - n] == goal_row_of(data.goals[i - n], user, cf.next_id + i - n));
                assert(gf.rows[j - n] == goal_row_of(data.goals[j - n], user, cf.next_id + j - n));
            }
        }
    }

    assert(dates_valid(st2)) by {
        assert forall|i: int| 0 <= i < st2.goals.len() implies valid_date(
            #[trigger] st2.goals[i].deadline,
        ) by {
            if i < st.goals.len() {
                assert(st2.goals[i] == st.goals[i]);
            } else {
                let k = i - st.goals.len();
                assert(st2.goals[i] == gf.rows[k]);
                assert(gf.rows[k] == goal_row_of(data.goals[k], user, cf.next_id + k));
                assert(goal_item_error(data.goals[k]) is None);
            }
        }
    }

    assert(lens_ok(st2));
    assert(users_wf(st2.users));
}

} // verus!
