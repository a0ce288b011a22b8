//! Laws of the synchronization engine, stated over the model and proved.
//!
//! Together with `push_data`'s own contract (an erring push leaves the
//! store exactly as it was) these pin down the externally visible
//! behavior of push and pull.

use crate::dates::date_of;
use crate::error::ApiErrorView;
use crate::models::goal::{GoalHabitView, GoalView};
use crate::models::habit::{CheckInView, HabitView};
use crate::store::{check_in_refs_ok, check_in_target_ok, link_refs_ok, link_target_ok, spec_find_user, store_wf, StoreView};
use crate::sync::lemmas::{
    lemma_apply_goals_props, lemma_apply_habits_props, lemma_check_ins_error_at,
    lemma_check_ins_error_none_inv, lemma_find_check_in_none,
};
use crate::sync::model::{
    apply_check_ins, apply_goals, apply_habits, apply_links, apply_push, check_in_item_error,
    check_ins_error, data_error, export_check_ins, export_goals, export_habits, find_check_in,
    find_link, goal_row_of, habit_item_error, habit_locals, habit_row_of, merge_check_in, msg_invalid_date,
    msg_sync_not_enabled, spec_pull, spec_push,
};
use crate::sync::wire::{
    CheckInSyncDataView, GoalHabitSyncDataView, GoalSyncDataView, HabitSyncDataView, SyncDataView,
    SyncResultView,
};
use vstd::prelude::*;

verus! {

// ---------------------------------------------------------------------------
// Auxiliary facts about the folds
// ---------------------------------------------------------------------------

proof fn lemma_check_ins_next_id_bounds(
    cs: Seq<CheckInSyncDataView>,
    user: int,
    m: Map<Seq<char>, int>,
    rows0: Seq<CheckInView>,
    n0: int,
)
    ensures
        n0 <= apply_check_ins(cs, user, m, rows0, n0).next_id <= n0 + cs.len(),
        rows0.len() <= apply_check_ins(cs, user, m, rows0, n0).rows.len() <= rows0.len()
            + cs.len(),
        0 <= apply_check_ins(cs, user, m, rows0, n0).count <= cs.len(),
    decreases cs.len(),
{
    if cs.len() > 0 {
        lemma_check_ins_next_id_bounds(cs.drop_last(), user, m, rows0, n0);
        let p = apply_check_ins(cs.drop_last(), user, m, rows0, n0);
        let c = cs.last();
        if m.contains_key(c.habit_local_id) {
            let habit_id = m[c.habit_local_id];
            let d = date_of(c.effective_date)->Some_0;
            match find_check_in(p.rows, habit_id, d) {
                Some(i) => {
                    crate::sync::lemmas::lemma_find_check_in_char(p.rows, habit_id, d);
                    assert(apply_check_ins(cs, user, m, rows0, n0).rows.len() == p.rows.len());
                },
                None => {
                    assert(apply_check_ins(cs, user, m, rows0, n0).rows.len() == p.rows.len()
                        + 1);
                },
            }
        }
    }
}

proof fn lemma_links_next_id_bounds(
    ls: Seq<GoalHabitSyncDataView>,
    gm: Map<Seq<char>, int>,
    hm: Map<Seq<char>, int>,
    rows0: Seq<GoalHabitView>,
    n0: int,
)
    ensures
        n0 <= apply_links(ls, gm, hm, rows0, n0).next_id <= n0 + ls.len(),
        rows0.len() <= apply_links(ls, gm, hm, rows0, n0).rows.len() <= rows0.len() + ls.len(),
    decreases ls.len(),
{
    if ls.len() > 0 {
        lemma_links_next_id_bounds(ls.drop_last(), gm, hm, rows0, n0);
        let p = apply_links(ls.drop_last(), gm, hm, rows0, n0);
        let l = ls.last();
        if gm.contains_key(l.goal_local_id) && hm.contains_key(l.habit_local_id) {
            match crate::sync::model::find_link(p.rows, gm[l.goal_local_id], hm[l.habit_local_id]) {
                Some(i) => {
                    crate::sync::lemmas::lemma_find_link_char(
                        p.rows,
                        gm[l.goal_local_id],
                        hm[l.habit_local_id],
                    );
                    assert(apply_links(ls, gm, hm, rows0, n0).rows.len() == p.rows.len());
                },
                None => {
                    assert(apply_links(ls, gm, hm, rows0, n0).rows.len() == p.rows.len() + 1);
                },
            }
        }
    }
}

// ---------------------------------------------------------------------------
// P: sync disabled means BadRequest and no writes
// ---------------------------------------------------------------------------

/// Pushing with cloud sync disabled fails with the `BadRequest` error,
/// whatever the snapshot holds. `push_data`'s contract then guarantees
/// that all four entity collections are exactly as they were.
pub proof fn law_push_requires_sync_enabled(
    st: StoreView,
    user: int,
    data: SyncDataView,
    now: int,
)
    requires
        spec_find_user(st.users, user) matches Some(u) && !u.cloud_sync_enabled,
    ensures
        spec_push(st, user, data, now) == Err::<(StoreView, SyncResultView), _>(
            ApiErrorView::BadRequest(msg_sync_not_enabled()),
        ),
{
}

// ---------------------------------------------------------------------------
// P: an unresolvable check-in is skipped silently
// ---------------------------------------------------------------------------

proof fn lemma_check_ins_error_remove(
    cs: Seq<CheckInSyncDataView>,
    locals: Set<Seq<char>>,
    i: int,
)
    requires
        0 <= i < cs.len(),
        check_in_item_error(cs[i], locals) is None,
    ensures
        check_ins_error(cs.remove(i), locals) == check_ins_error(cs, locals),
    decreases cs.len(),
{
    if i == 0 {
        assert(cs.remove(0) =~= cs.drop_first());
    } else {
        assert(cs.remove(i).drop_first() =~= cs.drop_first().remove(i - 1));
        assert(cs.remove(i).first() == cs.first());
        assert(cs.drop_first()[i - 1] == cs[i]);
        lemma_check_ins_error_remove(cs.drop_first(), locals, i - 1);
    }
}

proof fn lemma_apply_check_ins_remove(
    cs: Seq<CheckInSyncDataView>,
    user: int,
    m: Map<Seq<char>, int>,
    rows0: Seq<CheckInView>,
    n0: int,
    i: int,
)
    requires
        0 <= i < cs.len(),
        !m.dom().contains(cs[i].habit_local_id),
    ensures
        apply_check_ins(cs.remove(i), user, m, rows0, n0) == apply_check_ins(
            cs,
            user,
            m,
            rows0,
            n0,
        ),
    decreases cs.len(),
{
    if i == cs.len() - 1 {
        assert(cs.remove(i) =~= cs.drop_last());
    } else {
        assert(cs.remove(i).drop_last() =~= cs.drop_last().remove(i));
        assert(cs.remove(i).last() == cs.last());
        assert(cs.drop_last()[i] == cs[i]);
        lemma_apply_check_ins_remove(cs.drop_last(), user, m, rows0, n0, i);
    }
}

/// A check-in whose `habitLocalId` appears in none of the pushed habits
/// is skipped silently: the push behaves exactly as if the record were
/// not in the snapshot at all — same result, same counts, same rows, and
/// no error on its account.
pub proof fn law_unresolved_check_in_skipped(
    st: StoreView,
    user: int,
    data: SyncDataView,
    now: int,
    i: int,
)
    requires
        0 <= i < data.check_ins.len(),
        !habit_locals(data.habits).contains(data.check_ins[i].habit_local_id),
    ensures
        spec_push(st, user, data, now) == spec_push(
            st,
            user,
            SyncDataView { check_ins: data.check_ins.remove(i), ..data },
            now,
        ),
{
    let data2 = SyncDataView { check_ins: data.check_ins.remove(i), ..data };
    let locals = habit_locals(data.habits);
    assert(check_in_item_error(data.check_ins[i], locals) is None);
    lemma_check_ins_error_remove(data.check_ins, locals, i);
    assert(data_error(data2) == data_error(data));

    let hf = apply_habits(data.habits, user, st.next_id);
    lemma_apply_habits_props(data.habits, user, st.next_id);
    assert(!hf.remap.dom().contains(data.check_ins[i].habit_local_id));
    lemma_apply_check_ins_remove(data.check_ins, user, hf.remap, st.check_ins, hf.next_id, i);
    assert(apply_push(st, user, data2, now) == apply_push(st, user, data, now));
}

// ---------------------------------------------------------------------------
// P: an unparseable date on a resolvable check-in fails the whole push
// ---------------------------------------------------------------------------

/// If the first failure a push hits is a resolvable check-in whose
/// effective date does not parse, the push fails as `BadRequest` —
/// whatever valid habits came before it. `push_data`'s contract then
/// guarantees full rollback: not even those habits are retained.
pub proof fn law_bad_date_fails_push(
    st: StoreView,
    user: int,
    data: SyncDataView,
    now: int,
    i: int,
)
    requires
        spec_find_user(st.users, user) matches Some(u) && u.cloud_sync_enabled,
        crate::sync::model::habits_error(data.habits) is None,
        0 <= i < data.check_ins.len(),
        habit_locals(data.habits).contains(data.check_ins[i].habit_local_id),
        date_of(data.check_ins[i].effective_date) is None,
        forall|j: int|
            0 <= j < i ==> check_in_item_error(
                #[trigger] data.check_ins[j],
                habit_locals(data.habits),
            ) is None,
    ensures
        spec_push(st, user, data, now) == Err::<(StoreView, SyncResultView), _>(
            ApiErrorView::BadRequest(msg_invalid_date()),
        ),
{
    lemma_check_ins_error_at(data.check_ins, habit_locals(data.habits), i);
}

// ---------------------------------------------------------------------------
// P: upsert on the natural key (habit, effective date)
// ---------------------------------------------------------------------------

/// Pushing the same check-in key twice in one snapshot — same habit
/// local id, equal effective dates, different value or note — leaves
/// exactly one row for that key: the later value wins, and the later
/// note only if it is present; an absent later note keeps the earlier
/// one. (Across two separate pushes the habit itself receives a fresh
/// canonical id, so the natural keys differ; see
/// `law_repeated_push_mints_fresh_ids`.)
pub proof fn law_check_in_upsert_last_wins(
    st: StoreView,
    user: int,
    data: SyncDataView,
    h: HabitSyncDataView,
    c1: CheckInSyncDataView,
    c2: CheckInSyncDataView,
    now: int,
)
    requires
        store_wf(st),
        spec_find_user(st.users, user) matches Some(u) && u.cloud_sync_enabled,
        data.habits == seq![h],
        data.check_ins == seq![c1, c2],
        data.goals == Seq::<GoalSyncDataView>::empty(),
        data.goal_habits == Seq::<GoalHabitSyncDataView>::empty(),
        habit_item_error(h) is None,
        c1.habit_local_id == h.local_id,
        c2.habit_local_id == h.local_id,
        date_of(c1.effective_date) is Some,
        date_of(c2.effective_date) == date_of(c1.effective_date),
    ensures
        spec_push(st, user, data, now) matches Ok(p) && p.0.check_ins == st.check_ins.push(
            (CheckInView {
                id: st.next_id + 1,
                habit_id: st.next_id,
                user_id: user,
                value: c2.value,
                note: if c2.note is Some {
                    c2.note
                } else {
                    c1.note
                },
                effective_date: date_of(c1.effective_date)->Some_0,
                created_at: c1.created_at,
            }),
        ) && p.1.synced_checkins == 2,
{
    let locals = habit_locals(data.habits);
    assert(data.habits[0] == h && data.habits.len() == 1);
    assert(data.check_ins[0] == c1 && data.check_ins[1] == c2 && data.check_ins.len() == 2);
    assert(locals.contains(c1.habit_local_id)) by {
        assert(data.habits[0].local_id == c1.habit_local_id);
    }
    assert(locals.contains(c2.habit_local_id)) by {
        assert(data.habits[0].local_id == c2.habit_local_id);
    }

    // no validation failure
    assert forall|j: int| 0 <= j < data.habits.len() implies habit_item_error(
        #[trigger] data.habits[j],
    ) is None by {
        assert(data.habits[j] == h);
    }
    crate::sync::lemmas::lemma_habits_error_none(data.habits);
    assert forall|j: int| 0 <= j < data.check_ins.len() implies check_in_item_error(
        #[trigger] data.check_ins[j],
        locals,
    ) is None by {
        if j == 0 {
            assert(data.check_ins[j] == c1);
        } else {
            assert(data.check_ins[j] == c2);
        }
    }
    crate::sync::lemmas::lemma_check_ins_error_none(data.check_ins, locals);
    crate::sync::lemmas::lemma_goals_error_none(data.goals);
    assert(data_error(data) is None);

    // habit phase: one row under the freshly minted id
    let n0 = st.next_id;
    let hf = apply_habits(data.habits, user, n0);
    lemma_apply_habits_props(data.habits, user, n0);
    assert(hf.next_id == n0 + 1);
    assert(hf.remap.dom().contains(h.local_id)) by {
        assert(habit_locals(data.habits).contains(h.local_id)) by {
            assert(data.habits[0].local_id == h.local_id);
        }
    }
    assert(hf.remap[h.local_id] == n0) by {
        let i = choose|i: int|
            0 <= i < data.habits.len() && #[trigger] data.habits[i].local_id == h.local_id
                && hf.remap[h.local_id] == n0 + i;
        assert(i == 0);
    }

    // check-in phase, unfolded step by step
    let rows0 = st.check_ins;
    let m = hf.remap;
    let cs = data.check_ins;
    let cs1 = cs.drop_last();
    assert(cs1 =~= seq![c1]);
    assert(cs1.drop_last() =~= Seq::<CheckInSyncDataView>::empty());
    assert(cs1.last() == c1);
    assert(cs.last() == c2);

    let d = date_of(c1.effective_date)->Some_0;
    let f0 = apply_check_ins(cs1.drop_last(), user, m, rows0, hf.next_id);
    assert(f0.rows == rows0 && f0.next_id == hf.next_id && f0.count == 0);

    assert forall|j: int| 0 <= j < rows0.len() implies !(#[trigger] rows0[j].habit_id == n0
        && rows0[j].effective_date == d) by {
        assert(st.check_ins[j].id < st.next_id);
    }
    lemma_find_check_in_none(rows0, n0, d);
    let row1 = CheckInView {
        id: n0 + 1,
        habit_id: n0,
        user_id: user,
        value: c1.value,
        note: c1.note,
        effective_date: d,
        created_at: c1.created_at,
    };
    let f1 = apply_check_ins(cs1, user, m, rows0, hf.next_id);
    assert(f1.rows == rows0.push(row1) && f1.next_id == n0 + 2 && f1.count == 1);

    assert(cs.drop_last() == cs1);
    assert forall|j: int| 0 <= j < rows0.len() implies !(#[trigger] f1.rows[j].habit_id == n0
        && f1.rows[j].effective_date == d) by {
        assert(f1.rows[j] == rows0[j]);
        assert(st.check_ins[j].id < st.next_id);
    }
    assert(f1.rows[rows0.len() as int] == row1);
    crate::sync::lemmas::lemma_find_check_in_at(f1.rows, n0, d, rows0.len() as int);
    let merged = merge_check_in(row1, c2);
    let f2 = apply_check_ins(cs, user, m, rows0, hf.next_id);
    assert(f2.rows == f1.rows.update(rows0.len() as int, merged) && f2.count == 2);
    assert(f2.rows =~= rows0.push(merged));

    // goals and links are empty
    let gf = apply_goals(data.goals, user, f2.next_id);
    let lf = apply_links(data.goal_habits, gf.remap, m, st.goal_habits, gf.next_id);
    assert(spec_push(st, user, data, now) == Ok::<_, ApiErrorView>(
        apply_push(st, user, data, now),
    ));
    assert(apply_push(st, user, data, now).0.check_ins == f2.rows);
    assert(apply_push(st, user, data, now).1.synced_checkins == 2);
}

// ---------------------------------------------------------------------------
// P: every push mints fresh canonical ids for habits
// ---------------------------------------------------------------------------

/// Pushing the identical snapshot twice, in two separate requests,
/// produces two distinct habit rows for each pushed habit — equal in
/// every payload field but under two different canonical ids. The push
/// path always mints a fresh id; only check-ins and goal-habit links are
/// deduplicated, by their natural keys.
pub proof fn law_repeated_push_mints_fresh_ids(
    st: StoreView,
    user: int,
    data: SyncDataView,
    now1: int,
    now2: int,
    i: int,
)
    requires
        spec_push(st, user, data, now1) is Ok,
        0 <= i < data.habits.len(),
    ensures
        ({
            let st1 = spec_push(st, user, data, now1)->Ok_0.0;
            &&& spec_push(st1, user, data, now2) is Ok
            &&& {
                let st2 = spec_push(st1, user, data, now2)->Ok_0.0;
                let a = st.habits.len() + i;
                let b = st1.habits.len() + i;
                &&& st2.habits.len() == st.habits.len() + 2 * data.habits.len()
                &&& st2.habits[a].id != st2.habits[b].id
                &&& st2.habits[a] == habit_row_of(data.habits[i], user, st2.habits[a].id)
                &&& st2.habits[b] == habit_row_of(data.habits[i], user, st2.habits[b].id)
            }
        }),
{
    let st1 = spec_push(st, user, data, now1)->Ok_0.0;
    let hf1 = apply_habits(data.habits, user, st.next_id);
    lemma_apply_habits_props(data.habits, user, st.next_id);
    let cf1 = apply_check_ins(data.check_ins, user, hf1.remap, st.check_ins, hf1.next_id);
    lemma_check_ins_next_id_bounds(data.check_ins, user, hf1.remap, st.check_ins, hf1.next_id);
    let gf1 = apply_goals(data.goals, user, cf1.next_id);
    lemma_apply_goals_props(data.goals, user, cf1.next_id);
    lemma_links_next_id_bounds(
        data.goal_habits,
        gf1.remap,
        hf1.remap,
        st.goal_habits,
        gf1.next_id,
    );
    assert(st1.users == st.users);
    assert(st1.next_id >= st.next_id + data.habits.len());
    assert(spec_push(st1, user, data, now2) is Ok);

    let st2 = spec_push(st1, user, data, now2)->Ok_0.0;
    let hf2 = apply_habits(data.habits, user, st1.next_id);
    lemma_apply_habits_props(data.habits, user, st1.next_id);
    assert(st1.habits == st.habits + hf1.rows);
    assert(st2.habits == st1.habits + hf2.rows);
    let a = st.habits.len() + i;
    let b = st1.habits.len() + i;
    assert(st2.habits[a] == hf1.rows[i]);
    assert(st2.habits[b] == hf2.rows[i]);
    assert(hf1.rows[i] == habit_row_of(data.habits[i], user, st.next_id + i));
    assert(hf2.rows[i] == habit_row_of(data.habits[i], user, st1.next_id + i));
}

// ---------------------------------------------------------------------------
// P: a pull right after a push returns the pushed counts
// ---------------------------------------------------------------------------

proof fn lemma_export_habits_concat(a: Seq<HabitView>, b: Seq<HabitView>, user: int)
    ensures
        export_habits(a + b, user) == export_habits(a, user) + export_habits(b, user),
    decreases b.len(),
{
    if b.len() == 0 {
        assert(a + b =~= a);
        assert(export_habits(a, user) + export_habits(b, user) =~= export_habits(a, user));
    } else {
        lemma_export_habits_concat(a, b.drop_last(), user);
        assert((a + b).drop_last() =~= a + b.drop_last());
        assert((a + b).last() == b.last());
        if b.last().user_id == user {
            assert(export_habits(a, user) + export_habits(b, user) =~= (export_habits(a, user)
                + export_habits(b.drop_last(), user)).push(
                crate::sync::model::habit_export(b.last()),
            ));
        }
    }
}

proof fn lemma_export_habits_none(hs: Seq<HabitView>, user: int)
    requires
        forall|i: int| 0 <= i < hs.len() ==> #[trigger] hs[i].user_id != user,
    ensures
        export_habits(hs, user) == Seq::<HabitSyncDataView>::empty(),
    decreases hs.len(),
{
    if hs.len() > 0 {
        lemma_export_habits_none(hs.drop_last(), user);
    }
}

proof fn lemma_export_habits_all(hs: Seq<HabitView>, user: int)
    requires
        forall|i: int| 0 <= i < hs.len() ==> #[trigger] hs[i].user_id == user,
    ensures
        export_habits(hs, user).len() == hs.len(),
    decreases hs.len(),
{
    if hs.len() > 0 {
        lemma_export_habits_all(hs.drop_last(), user);
    }
}

proof fn lemma_export_check_ins_concat(a: Seq<CheckInView>, b: Seq<CheckInView>, user: int)
    ensures
        export_check_ins(a + b, user) == export_check_ins(a, user) + export_check_ins(b, user),
    decreases b.len(),
{
    if b.len() == 0 {
        assert(a + b =~= a);
        assert(export_check_ins(a, user) + export_check_ins(b, user) =~= export_check_ins(
            a,
            user,
        ));
    } else {
        lemma_export_check_ins_concat(a, b.drop_last(), user);
        assert((a + b).drop_last() =~= a + b.drop_last());
        assert((a + b).last() == b.last());
        if b.last().user_id == user {
            assert(export_check_ins(a, user) + export_check_ins(b, user) =~= (export_check_ins(
                a,
                user,
            ) + export_check_ins(b.drop_last(), user)).push(
                crate::sync::model::check_in_export(b.last()),
            ));
        }
    }
}

proof fn lemma_export_check_ins_none(cs: Seq<CheckInView>, user: int)
    requires
        forall|i: int| 0 <= i < cs.len() ==> #[trigger] cs[i].user_id != user,
    ensures
        export_check_ins(cs, user) == Seq::<CheckInSyncDataView>::empty(),
    decreases cs.len(),
{
    if cs.len() > 0 {
        lemma_export_check_ins_none(cs.drop_last(), user);
    }
}

proof fn lemma_export_check_ins_all(cs: Seq<CheckInView>, user: int)
    requires
        forall|i: int| 0 <= i < cs.len() ==> #[trigger] cs[i].user_id == user,
    ensures
        export_check_ins(cs, user).len() == cs.len(),
    decreases cs.len(),
{
    if cs.len() > 0 {
        lemma_export_check_ins_all(cs.drop_last(), user);
    }
}

proof fn lemma_export_goals_concat(a: Seq<GoalView>, b: Seq<GoalView>, user: int)
    ensures
        export_goals(a + b, user) == export_goals(a, user) + export_goals(b, user),
    decreases b.len(),
{
    if b.len() == 0 {
        assert(a + b =~= a);
        assert(export_goals(a, user) + export_goals(b, user) =~= export_goals(a, user));
    } else {
        lemma_export_goals_concat(a, b.drop_last(), user);
        assert((a + b).drop_last() =~= a + b.drop_last());
        assert((a + b).last() == b.last());
        if b.last().user_id == user {
            assert(export_goals(a, user) + export_goals(b, user) =~= (export_goals(a, user)
                + export_goals(b.drop_last(), user)).push(
                crate::sync::model::goal_export(b.last()),
            ));
        }
    }
}

proof fn lemma_export_goals_none(gs: Seq<GoalView>, user: int)
    requires
        forall|i: int| 0 <= i < gs.len() ==> #[trigger] gs[i].user_id != user,
    ensures
        export_goals(gs, user) == Seq::<GoalSyncDataView>::empty(),
    decreases gs.len(),
{
    if gs.len() > 0 {
        lemma_export_goals_none(gs.drop_last(), user);
    }
}

proof fn lemma_export_goals_all(gs: Seq<GoalView>, user: int)
    requires
        forall|i: int| 0 <= i < gs.len() ==> #[trigger] gs[i].user_id == user,
    ensures
        export_goals(gs, user).len() == gs.len(),
    decreases gs.len(),
{
    if gs.len() > 0 {
        lemma_export_goals_all(gs.drop_last(), user);
    }
}

/// When every check-in resolves, no two share a natural key, and none
/// collides with an existing row, each one inserts: the rows are exactly
/// the old rows followed by one new row per check-in, in order.
proof fn lemma_apply_check_ins_all_insert(
    cs: Seq<CheckInSyncDataView>,
    user: int,
    m: Map<Seq<char>, int>,
    rows0: Seq<CheckInView>,
    n0: int,
)
    requires
        forall|i: int| 0 <= i < cs.len() ==> m.dom().contains(#[trigger] cs[i].habit_local_id),
        forall|i: int| 0 <= i < cs.len() ==> date_of(#[trigger] cs[i].effective_date) is Some,
        forall|i: int, j: int|
            0 <= i < j < cs.len() ==> !(m[#[trigger] cs[i].habit_local_id]
                == m[#[trigger] cs[j].habit_local_id] && date_of(cs[i].effective_date) == date_of(
                cs[j].effective_date,
            )),
        forall|k: int, i: int|
            0 <= k < rows0.len() && 0 <= i < cs.len() ==> !(#[trigger] rows0[k].habit_id
                == m[#[trigger] cs[i].habit_local_id] && rows0[k].effective_date == date_of(
                cs[i].effective_date,
            )->Some_0),
    ensures
        ({
            let f = apply_check_ins(cs, user, m, rows0, n0);
            &&& f.rows.len() == rows0.len() + cs.len()
            &&& f.count == cs.len()
            &&& f.next_id == n0 + cs.len()
            &&& forall|k: int| 0 <= k < rows0.len() ==> #[trigger] f.rows[k] == rows0[k]
            &&& forall|i: int|
                0 <= i < cs.len() ==> #[trigger] f.rows[rows0.len() + i] == (CheckInView {
                    id: n0 + i,
                    habit_id: m[cs[i].habit_local_id],
                    user_id: user,
                    value: cs[i].value,
                    note: cs[i].note,
                    effective_date: date_of(cs[i].effective_date)->Some_0,
                    created_at: cs[i].created_at,
                })
        }),
    decreases cs.len(),
{
    if cs.len() > 0 {
        let prev = cs.drop_last();
        assert forall|i: int, j: int| 0 <= i < j < prev.len() implies !(m[#[trigger] prev[i].habit_local_id]
            == m[#[trigger] prev[j].habit_local_id] && date_of(prev[i].effective_date) == date_of(
            prev[j].effective_date,
        )) by {
            assert(prev[i] == cs[i] && prev[j] == cs[j]);
        }
        assert forall|k: int, i: int|
            0 <= k < rows0.len() && 0 <= i < prev.len() implies !(#[trigger] rows0[k].habit_id
            == m[#[trigger] prev[i].habit_local_id] && rows0[k].effective_date == date_of(
            prev[i].effective_date,
        )->Some_0) by {
            assert(prev[i] == cs[i]);
        }
        lemma_apply_check_ins_all_insert(prev, user, m, rows0, n0);
        let p = apply_check_ins(prev, user, m, rows0, n0);
        let c = cs.last();
        let last_i = cs.len() - 1;
        assert(cs[last_i] == c);
        let habit_id = m[c.habit_local_id];
        let d = date_of(c.effective_date)->Some_0;
        assert forall|k: int| 0 <= k < p.rows.len() implies !(#[trigger] p.rows[k].habit_id
            == habit_id && p.rows[k].effective_date == d) by {
            if k < rows0.len() {
                assert(p.rows[k] == rows0[k]);
            } else {
                let i = k - rows0.len();
                assert(prev[i] == cs[i]);
                assert(p.rows[rows0.len() + i] == (CheckInView {
                    id: n0 + i,
                    habit_id: m[prev[i].habit_local_id],
                    user_id: user,
                    value: prev[i].value,
                    note: prev[i].note,
                    effective_date: date_of(prev[i].effective_date)->Some_0,
                    created_at: prev[i].created_at,
                }));
                if p.rows[k].habit_id == habit_id && p.rows[k].effective_date == d {
                    assert(date_of(cs[i].effective_date) == date_of(cs[last_i].effective_date));
                    assert(false);
                }
            }
        }
        lemma_find_check_in_none(p.rows, habit_id, d);
    }
}

/// Pulling immediately after a successful push of a snapshot with `N`
/// habits, `M` check-ins (all resolvable, with pairwise distinct natural
/// keys) and `K` goals, by a user who had no rows before, returns a
/// snapshot with exactly `N` habits, `M` check-ins and `K` goals, whose
/// export instant is the pull's — strictly later than the push's
/// completion instant whenever the clock moved forward.
pub proof fn law_pull_after_push_counts(
    st: StoreView,
    user: int,
    data: SyncDataView,
    now1: int,
    now2: int,
)
    requires
        store_wf(st),
        spec_push(st, user, data, now1) is Ok,
        forall|i: int| 0 <= i < st.habits.len() ==> #[trigger] st.habits[i].user_id != user,
        forall|i: int| 0 <= i < st.check_ins.len() ==> #[trigger] st.check_ins[i].user_id != user,
        forall|i: int| 0 <= i < st.goals.len() ==> #[trigger] st.goals[i].user_id != user,
        forall|i: int|
            0 <= i < data.check_ins.len() ==> habit_locals(data.habits).contains(
                #[trigger] data.check_ins[i].habit_local_id,
            ),
        forall|i: int, j: int|
            0 <= i < j < data.check_ins.len() ==> !(#[trigger] data.check_ins[i].habit_local_id
                == #[trigger] data.check_ins[j].habit_local_id && date_of(
                data.check_ins[i].effective_date,
            ) == date_of(data.check_ins[j].effective_date)),
        now2 > now1,
    ensures
        ({
            let p = spec_push(st, user, data, now1)->Ok_0;
            &&& spec_pull(p.0, user, now2) is Ok
            &&& {
                let snap = spec_pull(p.0, user, now2)->Ok_0;
                &&& snap.habits.len() == data.habits.len()
                &&& snap.check_ins.len() == data.check_ins.len()
                &&& snap.goals.len() == data.goals.len()
                &&& snap.synced_at == now2
                &&& p.1.synced_at == now1
                &&& snap.synced_at > p.1.synced_at
            }
        }),
{
    let p = spec_push(st, user, data, now1)->Ok_0;
    let st2 = p.0;
    let locals = habit_locals(data.habits);
    assert(data_error(data) is None);
    lemma_check_ins_error_none_inv(data.check_ins, locals);

    let hf = apply_habits(data.habits, user, st.next_id);
    lemma_apply_habits_props(data.habits, user, st.next_id);
    let m = hf.remap;

    // every check-in resolves, and its date parses
    assert forall|i: int| 0 <= i < data.check_ins.len() implies m.dom().contains(
        #[trigger] data.check_ins[i].habit_local_id,
    ) && date_of(data.check_ins[i].effective_date) is Some by {
        assert(locals.contains(data.check_ins[i].habit_local_id));
        assert(check_in_item_error(data.check_ins[i], locals) is None);
    }

    // the remapper is injective: each local id is bound to the id minted
    // for one particular habit position
    assert forall|i: int, j: int| 0 <= i < j < data.check_ins.len() implies !(m[
    #[trigger] data.check_ins[i].habit_local_id] == m[#[trigger] data.check_ins[j].habit_local_id]
        && date_of(data.check_ins[i].effective_date) == date_of(
        data.check_ins[j].effective_date,
    )) by {
        let li = data.check_ins[i].habit_local_id;
        let lj = data.check_ins[j].habit_local_id;
        if m[li] == m[lj] && date_of(data.check_ins[i].effective_date) == date_of(
            data.check_ins[j].effective_date,
        ) {
            if li != lj {
                let ai = choose|a: int|
                    0 <= a < data.habits.len() && #[trigger] data.habits[a].local_id == li && m[li]
                        == st.next_id + a;
                let aj = choose|a: int|
                    0 <= a < data.habits.len() && #[trigger] data.habits[a].local_id == lj && m[lj]
                        == st.next_id + a;
                assert(ai != aj);
                assert(false);
            }
        }
    }

    // no pushed key collides with an existing row: existing habit ids
    // predate the minted ones
    assert forall|k: int, i: int|
        0 <= k < st.check_ins.len() && 0 <= i < data.check_ins.len() implies !(
    #[trigger] st.check_ins[k].habit_id == m[#[trigger] data.check_ins[i].habit_local_id]
        && st.check_ins[k].effective_date == date_of(
        data.check_ins[i].effective_date,
    )->Some_0) by {
        assert(st.check_ins[k].id < st.next_id);
        assert(m[data.check_ins[i].habit_local_id] >= st.next_id);
    }

    lemma_apply_check_ins_all_insert(data.check_ins, user, m, st.check_ins, hf.next_id);
    let cf = apply_check_ins(data.check_ins, user, m, st.check_ins, hf.next_id);

    let gf = apply_goals(data.goals, user, cf.next_id);
    lemma_apply_goals_props(data.goals, user, cf.next_id);

    // habits: old rows are other users', new rows are this user's
    lemma_export_habits_concat(st.habits, hf.rows, user);
    lemma_export_habits_none(st.habits, user);
    assert forall|i: int| 0 <= i < hf.rows.len() implies #[trigger] hf.rows[i].user_id
        == user by {
        assert(hf.rows[i] == habit_row_of(data.habits[i], user, st.next_id + i));
    }
    lemma_export_habits_all(hf.rows, user);
    assert(st2.habits == st.habits + hf.rows);
    assert(export_habits(st2.habits, user).len() == data.habits.len());

    // check-ins: the fold appended one row per pushed check-in
    let newrows = Seq::new(
        data.check_ins.len(),
        |i: int|
            CheckInView {
                id: hf.next_id + i,
                habit_id: m[data.check_ins[i].habit_local_id],
                user_id: user,
                value: data.check_ins[i].value,
                note: data.check_ins[i].note,
                effective_date: date_of(data.check_ins[i].effective_date)->Some_0,
                created_at: data.check_ins[i].created_at,
            },
    );
    assert(cf.rows =~= st.check_ins + newrows) by {
        assert forall|k: int| 0 <= k < cf.rows.len() implies cf.rows[k] == (st.check_ins
            + newrows)[k] by {
            if k < st.check_ins.len() {
                assert(cf.rows[k] == st.check_ins[k]);
            } else {
                let i = k - st.check_ins.len();
                assert(cf.rows[st.check_ins.len() + i] == (CheckInView {
                    id: hf.next_id + i,
                    habit_id: m[data.check_ins[i].habit_local_id],
                    user_id: user,
                    value: data.check_ins[i].value,
                    note: data.check_ins[i].note,
                    effective_date: date_of(data.check_ins[i].effective_date)->Some_0,
                    created_at: data.check_ins[i].created_at,
                }));
            }
        }
    }
    lemma_export_check_ins_concat(st.check_ins, newrows, user);
    lemma_export_check_ins_none(st.check_ins, user);
    lemma_export_check_ins_all(newrows, user);
    assert(st2.check_ins == cf.rows);
    assert(export_check_ins(st2.check_ins, user).len() == data.check_ins.len());

    // goals: as for habits
    lemma_export_goals_concat(st.goals, gf.rows, user);
    lemma_export_goals_none(st.goals, user);
    assert forall|i: int| 0 <= i < gf.rows.len() implies #[trigger] gf.rows[i].user_id
        == user by {
        assert(gf.rows[i] == goal_row_of(data.goals[i], user, cf.next_id + i));
    }
    lemma_export_goals_all(gf.rows, user);
    assert(st2.goals == st.goals + gf.rows);
    assert(export_goals(st2.goals, user).len() == data.goals.len());

    assert(st2.users == st.users);
}

// ---------------------------------------------------------------------------
// The relationship invariant: references stay within one user's data
// ---------------------------------------------------------------------------

/// The reference fields of one check-in row are accounted for: either
/// the row sits where an old row sat, with that row's habit reference
/// and owner, or it belongs to the pushing user and references a
/// remapped habit id.
pub open spec fn check_in_row_ref(
    row: CheckInView,
    rows0: Seq<CheckInView>,
    i: int,
    user: int,
    m: Map<Seq<char>, int>,
) -> bool {
    ||| (i < rows0.len() && row.habit_id == rows0[i].habit_id && row.user_id == rows0[i].user_id)
    ||| (row.user_id == user && exists|l: Seq<char>|
        m.dom().contains(l) && row.habit_id == #[trigger] m[l])
}

proof fn lemma_check_in_row_ref_same(
    a: CheckInView,
    b: CheckInView,
    rows0: Seq<CheckInView>,
    i: int,
    user: int,
    m: Map<Seq<char>, int>,
)
    requires
        check_in_row_ref(a, rows0, i, user, m),
        b.habit_id == a.habit_id,
        b.user_id == a.user_id,
    ensures
        check_in_row_ref(b, rows0, i, user, m),
{
    if !(i < rows0.len() && a.habit_id == rows0[i].habit_id && a.user_id == rows0[i].user_id) {
        let l = choose|l: Seq<char>| m.dom().contains(l) && a.habit_id == #[trigger] m[l];
        assert(m.dom().contains(l) && b.habit_id == m[l]);
    }
}

proof fn lemma_apply_check_ins_refs(
    cs: Seq<CheckInSyncDataView>,
    user: int,
    m: Map<Seq<char>, int>,
    rows0: Seq<CheckInView>,
    n0: int,
)
    ensures
        forall|i: int|
            0 <= i < apply_check_ins(cs, user, m, rows0, n0).rows.len() ==> check_in_row_ref(
                #[trigger] apply_check_ins(cs, user, m, rows0, n0).rows[i],
                rows0,
                i,
                user,
                m,
            ),
    decreases cs.len(),
{
    let f = apply_check_ins(cs, user, m, rows0, n0);
    if cs.len() == 0 {
        assert forall|i: int| 0 <= i < f.rows.len() implies check_in_row_ref(
            #[trigger] f.rows[i],
            rows0,
            i,
            user,
            m,
        ) by {
            assert(f.rows[i] == rows0[i]);
        }
    } else {
        let prev = cs.drop_last();
        lemma_apply_check_ins_refs(prev, user, m, rows0, n0);
        let p = apply_check_ins(prev, user, m, rows0, n0);
        let c = cs.last();
        if m.contains_key(c.habit_local_id) {
            let habit_id = m[c.habit_local_id];
            let d = date_of(c.effective_date)->Some_0;
            match find_check_in(p.rows, habit_id, d) {
                Some(idx) => {
                    crate::sync::lemmas::lemma_find_check_in_char(p.rows, habit_id, d);
                    assert forall|i: int| 0 <= i < f.rows.len() implies check_in_row_ref(
                        #[trigger] f.rows[i],
                        rows0,
                        i,
                        user,
                        m,
                    ) by {
                        assert(check_in_row_ref(p.rows[i], rows0, i, user, m));
                        assert(f.rows[i].habit_id == p.rows[i].habit_id && f.rows[i].user_id
                            == p.rows[i].user_id);
                        lemma_check_in_row_ref_same(p.rows[i], f.rows[i], rows0, i, user, m);
                    }
                },
                None => {
                    assert forall|i: int| 0 <= i < f.rows.len() implies check_in_row_ref(
                        #[trigger] f.rows[i],
                        rows0,
                        i,
                        user,
                        m,
                    ) by {
                        if i < p.rows.len() {
                            assert(f.rows[i] == p.rows[i]);
                            assert(check_in_row_ref(p.rows[i], rows0, i, user, m));
                            lemma_check_in_row_ref_same(p.rows[i], f.rows[i], rows0, i, user, m);
                        } else {
                            assert(m.dom().contains(c.habit_local_id) && f.rows[i].habit_id == m[
                                c.habit_local_id]);
                            assert(f.rows[i].user_id == user);
                        }
                    }
                },
            }
        } else {
            assert forall|i: int| 0 <= i < f.rows.len() implies check_in_row_ref(
                #[trigger] f.rows[i],
                rows0,
                i,
                user,
                m,
            ) by {
                assert(f.rows[i] == p.rows[i]);
                assert(check_in_row_ref(p.rows[i], rows0, i, user, m));
            }
        }
    }
}

/// The reference fields of one link row are accounted for in the same
/// way: an old row's references, or a remapped goal and habit.
pub open spec fn link_row_ref(
    row: GoalHabitView,
    rows0: Seq<GoalHabitView>,
    i: int,
    gm: Map<Seq<char>, int>,
    hm: Map<Seq<char>, int>,
) -> bool {
    ||| (i < rows0.len() && row.goal_id == rows0[i].goal_id && row.habit_id == rows0[i].habit_id)
    ||| ((exists|l: Seq<char>| gm.dom().contains(l) && row.goal_id == #[trigger] gm[l]) && (
    exists|l: Seq<char>| hm.dom().contains(l) && row.habit_id == #[trigger] hm[l]))
}

proof fn lemma_link_row_ref_same(
    a: GoalHabitView,
    b: GoalHabitView,
    rows0: Seq<GoalHabitView>,
    i: int,
    gm: Map<Seq<char>, int>,
    hm: Map<Seq<char>, int>,
)
    requires
        link_row_ref(a, rows0, i, gm, hm),
        b.goal_id == a.goal_id,
        b.habit_id == a.habit_id,
    ensures
        link_row_ref(b, rows0, i, gm, hm),
{
    if !(i < rows0.len() && a.goal_id == rows0[i].goal_id && a.habit_id == rows0[i].habit_id) {
        let lg = choose|l: Seq<char>| gm.dom().contains(l) && a.goal_id == #[trigger] gm[l];
        let lh = choose|l: Seq<char>| hm.dom().contains(l) && a.habit_id == #[trigger] hm[l];
        assert(gm.dom().contains(lg) && b.goal_id == gm[lg]);
        assert(hm.dom().contains(lh) && b.habit_id == hm[lh]);
    }
}

proof fn lemma_apply_links_refs(
    ls: Seq<GoalHabitSyncDataView>,
    gm: Map<Seq<char>, int>,
    hm: Map<Seq<char>, int>,
    rows0: Seq<GoalHabitView>,
    n0: int,
)
    ensures
        forall|i: int|
            0 <= i < apply_links(ls, gm, hm, rows0, n0).rows.len() ==> link_row_ref(
                #[trigger] apply_links(ls, gm, hm, rows0, n0).rows[i],
                rows0,
                i,
                gm,
                hm,
            ),
    decreases ls.len(),
{
    let f = apply_links(ls, gm, hm, rows0, n0);
    if ls.len() == 0 {
        assert forall|i: int| 0 <= i < f.rows.len() implies link_row_ref(
            #[trigger] f.rows[i],
            rows0,
            i,
            gm,
            hm,
        ) by {
            assert(f.rows[i] == rows0[i]);
        }
    } else {
        let prev = ls.drop_last();
        lemma_apply_links_refs(prev, gm, hm, rows0, n0);
        let p = apply_links(prev, gm, hm, rows0, n0);
        let l = ls.last();
        if gm.contains_key(l.goal_local_id) && hm.contains_key(l.habit_local_id) {
            let goal_id = gm[l.goal_local_id];
            let habit_id = hm[l.habit_local_id];
            match find_link(p.rows, goal_id, habit_id) {
                Some(idx) => {
                    crate::sync::lemmas::lemma_find_link_char(p.rows, goal_id, habit_id);
                    assert forall|i: int| 0 <= i < f.rows.len() implies link_row_ref(
                        #[trigger] f.rows[i],
                        rows0,
                        i,
                        gm,
                        hm,
                    ) by {
                        assert(link_row_ref(p.rows[i], rows0, i, gm, hm));
                        assert(f.rows[i].goal_id == p.rows[i].goal_id && f.rows[i].habit_id
                            == p.rows[i].habit_id);
                        lemma_link_row_ref_same(p.rows[i], f.rows[i], rows0, i, gm, hm);
                    }
                },
                None => {
                    assert forall|i: int| 0 <= i < f.rows.len() implies link_row_ref(
                        #[trigger] f.rows[i],
                        rows0,
                        i,
                        gm,
                        hm,
                    ) by {
                        if i < p.rows.len() {
                            assert(f.rows[i] == p.rows[i]);
                            assert(link_row_ref(p.rows[i], rows0, i, gm, hm));
                        } else {
                            assert(gm.dom().contains(l.goal_local_id) && f.rows[i].goal_id == gm[
                                l.goal_local_id]);
                            assert(hm.dom().contains(l.habit_local_id) && f.rows[i].habit_id
                                == hm[l.habit_local_id]);
                        }
                    }
                },
            }
        } else {
            assert forall|i: int| 0 <= i < f.rows.len() implies link_row_ref(
                #[trigger] f.rows[i],
                rows0,
                i,
                gm,
                hm,
            ) by {
                assert(f.rows[i] == p.rows[i]);
                assert(link_row_ref(p.rows[i], rows0, i, gm, hm));
            }
        }
    }
}

/// The relationship invariant is preserved by a successful push: every
/// check-in still references a habit owned by the same user, and every
/// goal-habit link still joins a goal and a habit with one owner —
/// references inside a snapshot are resolved only through the remapper,
/// never through the local identifier itself.
pub proof fn law_push_preserves_relationship_invariant(
    st: StoreView,
    user: int,
    data: SyncDataView,
    now: int,
)
    requires
        store_wf(st),
        check_in_refs_ok(st),
        link_refs_ok(st),
        spec_push(st, user, data, now) is Ok,
    ensures
        check_in_refs_ok(spec_push(st, user, data, now)->Ok_0.0),
        link_refs_ok(spec_push(st, user, data, now)->Ok_0.0),
{
    let st2 = spec_push(st, user, data, now)->Ok_0.0;
    let hf = apply_habits(data.habits, user, st.next_id);
    lemma_apply_habits_props(data.habits, user, st.next_id);
    let cf = apply_check_ins(data.check_ins, user, hf.remap, st.check_ins, hf.next_id);
    let gf = apply_goals(data.goals, user, cf.next_id);
    lemma_apply_goals_props(data.goals, user, cf.next_id);
    let lf = apply_links(data.goal_habits, gf.remap, hf.remap, st.goal_habits, gf.next_id);

    lemma_apply_check_ins_refs(data.check_ins, user, hf.remap, st.check_ins, hf.next_id);
    lemma_apply_links_refs(data.goal_habits, gf.remap, hf.remap, st.goal_habits, gf.next_id);

    assert(st2.check_ins == cf.rows);
    assert(st2.goal_habits == lf.rows);

    assert(check_in_refs_ok(st2)) by {
        assert forall|i: int| 0 <= i < st2.check_ins.len() implies #[trigger] check_in_target_ok(
            st2,
            i,
        ) by {
            assert(check_in_row_ref(cf.rows[i], st.check_ins, i, user, hf.remap));
            if i < st.check_ins.len() && cf.rows[i].habit_id == st.check_ins[i].habit_id
                && cf.rows[i].user_id == st.check_ins[i].user_id {
                assert(check_in_target_ok(st, i));
                let k = choose|k: int|
                    0 <= k < st.habits.len() && st.check_ins[i].habit_id
                        == #[trigger] st.habits[k].id && st.check_ins[i].user_id
                        == st.habits[k].user_id;
                assert(st2.habits[k] == st.habits[k]);
                assert(st2.check_ins[i].habit_id == st2.habits[k].id && st2.check_ins[i].user_id
                    == st2.habits[k].user_id);
            } else {
                let l = choose|l: Seq<char>|
                    hf.remap.dom().contains(l) && cf.rows[i].habit_id == #[trigger] hf.remap[l];
                let a = choose|a: int|
                    0 <= a < data.habits.len() && #[trigger] data.habits[a].local_id == l
                        && hf.remap[l] == st.next_id + a;
                assert(hf.rows[a] == habit_row_of(data.habits[a], user, st.next_id + a));
                let k = st.habits.len() + a;
                assert(st2.habits[k] == hf.rows[a]);
                assert(st2.check_ins[i].habit_id == st2.habits[k].id && st2.check_ins[i].user_id
                    == st2.habits[k].user_id);
            }
        }
    }

    assert(link_refs_ok(st2)) by {
        assert forall|i: int| 0 <= i < st2.goal_habits.len() implies #[trigger] link_target_ok(
            st2,
            i,
        ) by {
            assert(link_row_ref(lf.rows[i], st.goal_habits, i, gf.remap, hf.remap));
            if i < st.goal_habits.len() && lf.rows[i].goal_id == st.goal_habits[i].goal_id
                && lf.rows[i].habit_id == st.goal_habits[i].habit_id {
                assert(link_target_ok(st, i));
                let (k, k2) = choose|k: int, k2: int|
                    0 <= k < st.goals.len() && 0 <= k2 < st.habits.len()
                        && st.goal_habits[i].goal_id == #[trigger] st.goals[k].id
                        && st.goal_habits[i].habit_id == #[trigger] st.habits[k2].id
                        && st.goals[k].user_id == st.habits[k2].user_id;
                assert(st2.goals[k] == st.goals[k]);
                assert(st2.habits[k2] == st.habits[k2]);
                assert(st2.goal_habits[i].goal_id == st2.goals[k].id
                    && st2.goal_habits[i].habit_id == st2.habits[k2].id && st2.goals[k].user_id
                    == st2.habits[k2].user_id);
            } else {
                let lg = choose|l: Seq<char>|
                    gf.remap.dom().contains(l) && lf.rows[i].goal_id == #[trigger] gf.remap[l];
                let lh = choose|l: Seq<char>|
                    hf.remap.dom().contains(l) && lf.rows[i].habit_id == #[trigger] hf.remap[l];
                let b = choose|b: int|
                    0 <= b < data.goals.len() && #[trigger] data.goals[b].local_id == lg
                        && gf.remap[lg] == cf.next_id + b;
                let a = choose|a: int|
                    0 <= a < data.habits.len() && #[trigger] data.habits[a].local_id == lh
                        && hf.remap[lh] == st.next_id + a;
                assert(gf.rows[b] == goal_row_of(data.goals[b], user, cf.next_id + b));
                assert(hf.rows[a] == habit_row_of(data.habits[a], user, st.next_id + a));
                let k = st.goals.len() + b;
                let k2 = st.habits.len() + a;
                assert(st2.goals[k] == gf.rows[b]);
                assert(st2.habits[k2] == hf.rows[a]);
                assert(st2.goal_habits[i].goal_id == st2.goals[k].id
                    && st2.goal_habits[i].habit_id == st2.habits[k2].id && st2.goals[k].user_id
                    == st2.habits[k2].user_id);
            }
        }
    }
}

} // verus!
