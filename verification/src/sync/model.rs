//! The mathematical model of the synchronization engine.
//!
//! [`spec_push`] and [`spec_pull`] say exactly what one push or pull does:
//! the executable engine is proved equal to them, and the engine's laws
//! are stated over them.
//!
//! The merge policy, per entity:
//!
//! | entity         | conflict key              | on conflict                                   | unresolvable parent |
//! |----------------|---------------------------|-----------------------------------------------|---------------------|
//! | habit          | canonical id (fresh)      | n/a: a fresh id never conflicts               | n/a                 |
//! | check-in       | (habit id, effective date)| overwrite value; note only if incoming is set | skip silently       |
//! | goal           | canonical id (fresh)      | n/a                                           | n/a                 |
//! | goal-habit link| (goal id, habit id)       | overwrite weight                              | skip silently       |

use crate::dates::{date_of, date_text};
use crate::error::ApiErrorView;
use crate::ids::dec_str;
use crate::models::goal::{
    goal_status_label, spec_parse_goal_status, GoalHabitView, GoalView,
};
use crate::models::habit::{
    habit_type_label, spec_parse_habit_type, spec_parse_target_direction, target_direction_label,
    CheckInView, HabitView,
};
use crate::store::{spec_find_user, StoreView, LEN_LIMIT};
use crate::sync::wire::{
    CheckInSyncDataView, GoalHabitSyncDataView, GoalSyncDataView, HabitSyncDataView, SyncDataView,
    SyncResultView,
};
use vstd::prelude::*;

verus! {

// ---------------------------------------------------------------------------
// Messages
// ---------------------------------------------------------------------------

/// Message of the `BadRequest` returned when sync is not enabled.
pub open spec fn msg_sync_not_enabled() -> Seq<char> {
    "Cloud sync is not enabled"@
}

/// Message of the `BadRequest` returned for an unparseable date.
pub open spec fn msg_invalid_date() -> Seq<char> {
    "Invalid date format"@
}

/// Internal message of the store failure for a missing user record.
pub open spec fn msg_user_not_found() -> Seq<char> {
    "user record not found"@
}

/// Internal message of the store failure for an unknown habit type label.
pub open spec fn msg_bad_habit_type() -> Seq<char> {
    "invalid habit type"@
}

/// Internal message of the store failure for an unknown target direction label.
pub open spec fn msg_bad_target_direction() -> Seq<char> {
    "invalid target direction"@
}

/// Internal message of the store failure for an unknown goal status label.
pub open spec fn msg_bad_goal_status() -> Seq<char> {
    "invalid goal status"@
}

pub open spec fn msg_sync_enabled_response() -> Seq<char> {
    "Cloud sync enabled. Your data will now be securely backed up."@
}

pub open spec fn msg_sync_disabled_response() -> Seq<char> {
    "Cloud sync disabled. Your data remains on your device."@
}

// ---------------------------------------------------------------------------
// Validation: what makes a push fail, in processing order
// ---------------------------------------------------------------------------

/// The local identifiers of the pushed habits: exactly the keys the
/// identity remapper holds once the habit phase is over.
pub open spec fn habit_locals(hs: Seq<HabitSyncDataView>) -> Set<Seq<char>> {
    Set::new(|l: Seq<char>| exists|i: int| 0 <= i < hs.len() && #[trigger] hs[i].local_id == l)
}

/// The store rejects a habit whose type or direction label is unknown.
pub open spec fn habit_item_error(h: HabitSyncDataView) -> Option<ApiErrorView> {
    if spec_parse_habit_type(h.habit_type) is None {
        Some(ApiErrorView::Database(msg_bad_habit_type()))
    } else if spec_parse_target_direction(h.target_direction) is None {
        Some(ApiErrorView::Database(msg_bad_target_direction()))
    } else {
        None
    }
}

/// A resolvable check-in whose effective date does not parse fails the
/// push; a date is looked at only after the parent habit resolves.
pub open spec fn check_in_item_error(
    c: CheckInSyncDataView,
    locals: Set<Seq<char>>,
) -> Option<ApiErrorView> {
    if locals.contains(c.habit_local_id) && date_of(c.effective_date) is None {
        Some(ApiErrorView::BadRequest(msg_invalid_date()))
    } else {
        None
    }
}

/// A goal's deadline is parsed before its status label reaches the store.
pub open spec fn goal_item_error(g: GoalSyncDataView) -> Option<ApiErrorView> {
    if date_of(g.deadline) is None {
        Some(ApiErrorView::BadRequest(msg_invalid_date()))
    } else if spec_parse_goal_status(g.status) is None {
        Some(ApiErrorView::Database(msg_bad_goal_status()))
    } else {
        None
    }
}

pub open spec fn habits_error(hs: Seq<HabitSyncDataView>) -> Option<ApiErrorView>
    decreases hs.len(),
{
    if hs.len() == 0 {
        None
    } else if habit_item_error(hs.first()) is Some {
        habit_item_error(hs.first())
    } else {
        habits_error(hs.drop_first())
    }
}

pub open spec fn check_ins_error(
    cs: Seq<CheckInSyncDataView>,
    locals: Set<Seq<char>>,
) -> Option<ApiErrorView>
    decreases cs.len(),
{
    if cs.len() == 0 {
        None
    } else if check_in_item_error(cs.first(), locals) is Some {
        check_in_item_error(cs.first(), locals)
    } else {
        check_ins_error(cs.drop_first(), locals)
    }
}

pub open spec fn goals_error(gs: Seq<GoalSyncDataView>) -> Option<ApiErrorView>
    decreases gs.len(),
{
    if gs.len() == 0 {
        None
    } else if goal_item_error(gs.first()) is Some {
        goal_item_error(gs.first())
    } else {
        goals_error(gs.drop_first())
    }
}

/// The first failure one push would hit, in the order the entities are
/// processed: habits, then check-ins, then goals. Goal-habit links cannot
/// fail.
pub open spec fn data_error(data: SyncDataView) -> Option<ApiErrorView> {
    if habits_error(data.habits) is Some {
        habits_error(data.habits)
    } else if check_ins_error(data.check_ins, habit_locals(data.habits)) is Some {
        check_ins_error(data.check_ins, habit_locals(data.habits))
    } else {
        goals_error(data.goals)
    }
}

// ---------------------------------------------------------------------------
// The write phase, entity by entity
// ---------------------------------------------------------------------------

/// The habit row one pushed habit becomes, under a freshly minted id.
pub open spec fn habit_row_of(h: HabitSyncDataView, user: int, id: int) -> HabitView {
    HabitView {
        id,
        user_id: user,
        name: h.name,
        description: h.description,
        habit_type: spec_parse_habit_type(h.habit_type)->Some_0,
        unit: h.unit,
        target_value: h.target_value,
        target_direction: spec_parse_target_direction(h.target_direction)->Some_0,
        archived: h.archived,
        created_at: h.created_at,
        updated_at: h.updated_at,
    }
}

pub struct HabitFold {
    pub rows: Seq<HabitView>,
    pub remap: Map<Seq<char>, int>,
    pub next_id: int,
}

/// Mint a fresh id for each habit, in order, recording local id to
/// canonical id; a repeated local id overwrites the earlier mapping.
pub open spec fn apply_habits(hs: Seq<HabitSyncDataView>, user: int, next_id: int) -> HabitFold
    decreases hs.len(),
{
    if hs.len() == 0 {
        HabitFold { rows: Seq::empty(), remap: Map::empty(), next_id }
    } else {
        let p = apply_habits(hs.drop_last(), user, next_id);
        let h = hs.last();
        HabitFold {
            rows: p.rows.push(habit_row_of(h, user, p.next_id)),
            remap: p.remap.insert(h.local_id, p.next_id),
            next_id: p.next_id + 1,
        }
    }
}

/// First check-in row holding the natural key (habit id, effective date).
pub open spec fn find_check_in(rows: Seq<CheckInView>, habit_id: int, d: (int, int, int)) -> Option<
    int,
>
    decreases rows.len(),
{
    if rows.len() == 0 {
        None
    } else if rows.first().habit_id == habit_id && rows.first().effective_date == d {
        Some(0)
    } else {
        match find_check_in(rows.drop_first(), habit_id, d) {
            Some(i) => Some(i + 1),
            None => None,
        }
    }
}

/// The upsert a conflicting check-in performs: the value is overwritten,
/// the note only if the incoming note is present.
pub open spec fn merge_check_in(row: CheckInView, c: CheckInSyncDataView) -> CheckInView {
    CheckInView {
        value: c.value,
        note: if c.note is Some {
            c.note
        } else {
            row.note
        },
        ..row
    }
}

pub struct CheckInFold {
    pub rows: Seq<CheckInView>,
    pub next_id: int,
    pub count: int,
}

/// Upsert each check-in whose parent habit resolves; skip the others.
pub open spec fn apply_check_ins(
    cs: Seq<CheckInSyncDataView>,
    user: int,
    remap: Map<Seq<char>, int>,
    rows0: Seq<CheckInView>,
    next_id: int,
) -> CheckInFold
    decreases cs.len(),
{
    if cs.len() == 0 {
        CheckInFold { rows: rows0, next_id, count: 0 }
    } else {
        let p = apply_check_ins(cs.drop_last(), user, remap, rows0, next_id);
        let c = cs.last();
        if remap.contains_key(c.habit_local_id) {
            let habit_id = remap[c.habit_local_id];
            let d = date_of(c.effective_date)->Some_0;
            match find_check_in(p.rows, habit_id, d) {
                Some(i) => CheckInFold {
                    rows: p.rows.update(i, merge_check_in(p.rows[i], c)),
                    next_id: p.next_id,
                    count: p.count + 1,
                },
                None => CheckInFold {
                    rows: p.rows.push(
                        CheckInView {
                            id: p.next_id,
                            habit_id,
                            user_id: user,
                            value: c.value,
                            note: c.note,
                            effective_date: d,
                            created_at: c.created_at,
                        },
                    ),
                    next_id: p.next_id + 1,
                    count: p.count + 1,
                },
            }
        } else {
            p
        }
    }
}

/// The goal row one pushed goal becomes, under a freshly minted id.
/// A pushed goal is never shared.
pub open spec fn goal_row_of(g: GoalSyncDataView, user: int, id: int) -> GoalView {
    GoalView {
        id,
        user_id: user,
        name: g.name,
        description: g.description,
        deadline: date_of(g.deadline)->Some_0,
        status: spec_parse_goal_status(g.status)->Some_0,
        is_shared: false,
        created_at: g.created_at,
        updated_at: g.updated_at,
    }
}

pub struct GoalFold {
    pub rows: Seq<GoalView>,
    pub remap: Map<Seq<char>, int>,
    pub next_id: int,
}

/// Mint a fresh id for each goal, in order, as for habits.
pub open spec fn apply_goals(gs: Seq<GoalSyncDataView>, user: int, next_id: int) -> GoalFold
    decreases gs.len(),
{
    if gs.len() == 0 {
        GoalFold { rows: Seq::empty(), remap: Map::empty(), next_id }
    } else {
        let p = apply_goals(gs.drop_last(), user, next_id);
        let g = gs.last();
        GoalFold {
            rows: p.rows.push(goal_row_of(g, user, p.next_id)),
            remap: p.remap.insert(g.local_id, p.next_id),
            next_id: p.next_id + 1,
        }
    }
}

/// First link row holding the natural key (goal id, habit id).
pub open spec fn find_link(rows: Seq<GoalHabitView>, goal_id: int, habit_id: int) -> Option<int>
    decreases rows.len(),
{
    if rows.len() == 0 {
        None
    } else if rows.first().goal_id == goal_id && rows.first().habit_id == habit_id {
        Some(0)
    } else {
        match find_link(rows.drop_first(), goal_id, habit_id) {
            Some(i) => Some(i + 1),
            None => None,
        }
    }
}

pub struct LinkFold {
    pub rows: Seq<GoalHabitView>,
    pub next_id: int,
}

/// Upsert each link both of whose parents resolve; skip the others.
/// Only the weight is overwritten on conflict.
pub open spec fn apply_links(
    ls: Seq<GoalHabitSyncDataView>,
    goal_remap: Map<Seq<char>, int>,
    habit_remap: Map<Seq<char>, int>,
    rows0: Seq<GoalHabitView>,
    next_id: int,
) -> LinkFold
    decreases ls.len(),
{
    if ls.len() == 0 {
        LinkFold { rows: rows0, next_id }
    } else {
        let p = apply_links(ls.drop_last(), goal_remap, habit_remap, rows0, next_id);
        let l = ls.last();
        if goal_remap.contains_key(l.goal_local_id) && habit_remap.contains_key(l.habit_local_id) {
            let goal_id = goal_remap[l.goal_local_id];
            let habit_id = habit_remap[l.habit_local_id];
            match find_link(p.rows, goal_id, habit_id) {
                Some(i) => LinkFold {
                    rows: p.rows.update(
                        i,
                        GoalHabitView { weight_bits: l.weight_bits, ..p.rows[i] },
                    ),
                    next_id: p.next_id,
                },
                None => LinkFold {
                    rows: p.rows.push(
                        GoalHabitView {
                            id: p.next_id,
                            goal_id,
                            habit_id,
                            weight_bits: l.weight_bits,
                        },
                    ),
                    next_id: p.next_id + 1,
                },
            }
        } else {
            p
        }
    }
}

/// The store and result a valid push produces: all four write phases, in
/// order, inside one unit of work.
pub open spec fn apply_push(st: StoreView, user: int, data: SyncDataView, now: int) -> (
    StoreView,
    SyncResultView,
) {
    let hf = apply_habits(data.habits, user, st.next_id);
    let cf = apply_check_ins(data.check_ins, user, hf.remap, st.check_ins, hf.next_id);
    let gf = apply_goals(data.goals, user, cf.next_id);
    let lf = apply_links(data.goal_habits, gf.remap, hf.remap, st.goal_habits, gf.next_id);
    (
        StoreView {
            habits: st.habits + hf.rows,
            check_ins: cf.rows,
            goals: st.goals + gf.rows,
            goal_habits: lf.rows,
            next_id: lf.next_id,
            ..st
        },
        SyncResultView {
            success: true,
            synced_habits: data.habits.len() as int,
            synced_checkins: cf.count,
            synced_goals: data.goals.len() as int,
            synced_at: now,
        },
    )
}

/// One push. Sync must be enabled; the first failure aborts the whole
/// unit of work, so an erring push changes nothing.
pub open spec fn spec_push(st: StoreView, user: int, data: SyncDataView, now: int) -> Result<
    (StoreView, SyncResultView),
    ApiErrorView,
> {
    match spec_find_user(st.users, user) {
        None => Err(ApiErrorView::Database(msg_user_not_found())),
        Some(u) => {
            if !u.cloud_sync_enabled {
                Err(ApiErrorView::BadRequest(msg_sync_not_enabled()))
            } else {
                match data_error(data) {
                    Some(e) => Err(e),
                    None => Ok(apply_push(st, user, data, now)),
                }
            }
        },
    }
}

/// Ceiling on snapshot and store sizes, so counters and the id counter
/// cannot overflow their machine types.
pub open spec fn push_fits(st: StoreView, data: SyncDataView) -> bool {
    &&& data.habits.len() <= i32::MAX
    &&& data.check_ins.len() <= i32::MAX
    &&& data.goals.len() <= i32::MAX
    &&& st.habits.len() + data.habits.len() <= LEN_LIMIT
    &&& st.check_ins.len() + data.check_ins.len() <= LEN_LIMIT
    &&& st.goals.len() + data.goals.len() <= LEN_LIMIT
    &&& st.goal_habits.len() + data.goal_habits.len() <= LEN_LIMIT
    &&& st.next_id + data.habits.len() + data.check_ins.len() + data.goals.len()
        + data.goal_habits.len() <= u64::MAX
}

// ---------------------------------------------------------------------------
// Pull: export the user's collections
// ---------------------------------------------------------------------------

/// What a stored habit looks like on the wire: the canonical id, in
/// decimal, takes the place of the local identifier.
pub open spec fn habit_export(h: HabitView) -> HabitSyncDataView {
    HabitSyncDataView {
        local_id: dec_str(h.id),
        name: h.name,
        description: h.description,
        habit_type: habit_type_label(h.habit_type),
        unit: h.unit,
        target_value: h.target_value,
        target_direction: target_direction_label(h.target_direction),
        archived: h.archived,
        created_at: h.created_at,
        updated_at: h.updated_at,
    }
}

pub open spec fn export_habits(hs: Seq<HabitView>, user: int) -> Seq<HabitSyncDataView>
    decreases hs.len(),
{
    if hs.len() == 0 {
        Seq::empty()
    } else {
        let p = export_habits(hs.drop_last(), user);
        if hs.last().user_id == user {
            p.push(habit_export(hs.last()))
        } else {
            p
        }
    }
}

pub open spec fn check_in_export(c: CheckInView) -> CheckInSyncDataView {
    CheckInSyncDataView {
        local_id: dec_str(c.id),
        habit_local_id: dec_str(c.habit_id),
        value: c.value,
        note: c.note,
        effective_date: date_text(c.effective_date),
        created_at: c.created_at,
    }
}

pub open spec fn export_check_ins(cs: Seq<CheckInView>, user: int) -> Seq<CheckInSyncDataView>
    decreases cs.len(),
{
    if cs.len() == 0 {
        Seq::empty()
    } else {
        let p = export_check_ins(cs.drop_last(), user);
        if cs.last().user_id == user {
            p.push(check_in_export(cs.last()))
        } else {
            p
        }
    }
}

pub open spec fn goal_export(g: GoalView) -> GoalSyncDataView {
    GoalSyncDataView {
        local_id: dec_str(g.id),
        name: g.name,
        description: g.description,
        deadline: date_text(g.deadline),
        status: goal_status_label(g.status),
        created_at: g.created_at,
        updated_at: g.updated_at,
    }
}

pub open spec fn export_goals(gs: Seq<GoalView>, user: int) -> Seq<GoalSyncDataView>
    decreases gs.len(),
{
    if gs.len() == 0 {
        Seq::empty()
    } else {
        let p = export_goals(gs.drop_last(), user);
        if gs.last().user_id == user {
            p.push(goal_export(gs.last()))
        } else {
            p
        }
    }
}

/// First goal row with the given id, if any.
pub open spec fn spec_find_goal(gs: Seq<GoalView>, id: int) -> Option<GoalView>
    decreases gs.len(),
{
    if gs.len() == 0 {
        None
    } else if gs.first().id == id {
        Some(gs.first())
    } else {
        spec_find_goal(gs.drop_first(), id)
    }
}

/// A link is exported when its goal belongs to the user: the store keeps
/// no owner on the link itself, so ownership goes through the goal.
pub open spec fn link_owned(l: GoalHabitView, gs: Seq<GoalView>, user: int) -> bool {
    match spec_find_goal(gs, l.goal_id) {
        Some(g) => g.user_id == user,
        None => false,
    }
}

pub open spec fn link_export(l: GoalHabitView) -> GoalHabitSyncDataView {
    GoalHabitSyncDataView {
        goal_local_id: dec_str(l.goal_id),
        habit_local_id: dec_str(l.habit_id),
        weight_bits: l.weight_bits,
    }
}

pub open spec fn export_links(
    ls: Seq<GoalHabitView>,
    gs: Seq<GoalView>,
    user: int,
) -> Seq<GoalHabitSyncDataView>
    decreases ls.len(),
{
    if ls.len() == 0 {
        Seq::empty()
    } else {
        let p = export_links(ls.drop_last(), gs, user);
        if link_owned(ls.last(), gs, user) {
            p.push(link_export(ls.last()))
        } else {
            p
        }
    }
}

/// One pull: sync must be enabled; the four collections are read and
/// exported as a snapshot stamped with the export instant.
pub open spec fn spec_pull(st: StoreView, user: int, now: int) -> Result<
    SyncDataView,
    ApiErrorView,
> {
    match spec_find_user(st.users, user) {
        None => Err(ApiErrorView::Database(msg_user_not_found())),
        Some(u) => {
            if !u.cloud_sync_enabled {
                Err(ApiErrorView::BadRequest(msg_sync_not_enabled()))
            } else {
                Ok(
                    SyncDataView {
                        habits: export_habits(st.habits, user),
                        check_ins: export_check_ins(st.check_ins, user),
                        goals: export_goals(st.goals, user),
                        goal_habits: export_links(st.goal_habits, st.goals, user),
                        synced_at: now,
                    },
                )
            }
        },
    }
}

// ---------------------------------------------------------------------------
// Status, enable, disable
// ---------------------------------------------------------------------------

pub open spec fn count_habits(hs: Seq<HabitView>, user: int) -> int
    decreases hs.len(),
{
    if hs.len() == 0 {
        0
    } else {
        count_habits(hs.drop_last(), user) + if hs.last().user_id == user {
            1int
        } else {
            0int
        }
    }
}

pub open spec fn count_check_ins(cs: Seq<CheckInView>, user: int) -> int
    decreases cs.len(),
{
    if cs.len() == 0 {
        0
    } else {
        count_check_ins(cs.drop_last(), user) + if cs.last().user_id == user {
            1int
        } else {
            0int
        }
    }
}

pub open spec fn count_goals(gs: Seq<GoalView>, user: int) -> int
    decreases gs.len(),
{
    if gs.len() == 0 {
        0
    } else {
        count_goals(gs.drop_last(), user) + if gs.last().user_id == user {
            1int
        } else {
            0int
        }
    }
}

/// The status report: the user's sync flag and row counts. The service
/// does not track the time of the last sync.
pub open spec fn spec_sync_status(st: StoreView, user: int) -> Result<
    crate::sync::wire::SyncStatusView,
    ApiErrorView,
> {
    match spec_find_user(st.users, user) {
        None => Err(ApiErrorView::Database(msg_user_not_found())),
        Some(u) => Ok(
            crate::sync::wire::SyncStatusView {
                enabled: u.cloud_sync_enabled,
                last_sync: None,
                habits_count: count_habits(st.habits, user),
                checkins_count: count_check_ins(st.check_ins, user),
                goals_count: count_goals(st.goals, user),
            },
        ),
    }
}

/// The store after the sync flag of the given user is set. Setting the
/// flag of an unknown user changes nothing, and is not an error.
pub open spec fn spec_set_sync_enabled(st: StoreView, user: int, enabled: bool, now: int) -> StoreView {
    match crate::store::spec_find_user_idx(st.users, user) {
        None => st,
        Some(i) => StoreView {
            users: st.users.update(
                i,
                crate::models::user::UserView {
                    cloud_sync_enabled: enabled,
                    updated_at: now,
                    ..st.users[i]
                },
            ),
            ..st
        },
    }
}

} // verus!
