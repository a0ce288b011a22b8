//! The executable synchronization engine.
//!
//! Each entry point is proved equal to its mathematical model in
//! [`crate::sync::model`]: `push_data` to [`spec_push`], `pull_data` to
//! [`spec_pull`], and so on. The store argument stands for the caller's
//! canonical collections; a push either applies completely or returns the
//! error and leaves the store exactly as it was.

use crate::clock::now_micros;
use crate::dates::{date_of, format_date, parse_date, valid_date, Date};
use crate::error::ApiError;
use crate::error::ApiErrorView;
use crate::ids::u64_dec_string;
use crate::models::goal::{Goal, GoalHabit, GoalStatus};
use crate::models::habit::{CheckIn, Habit, HabitType, TargetDirection};
use crate::models::user::User;
use crate::remap::IdRemapper;
use crate::store::{store_wf, Store, StoreView};
use crate::sync::lemmas::{
    lemma_apply_check_ins_wf, lemma_apply_goals_props, lemma_apply_habits_props,
    lemma_apply_push_wf, lemma_check_ins_error_at, lemma_check_ins_error_none,
    lemma_find_check_in_at, lemma_find_check_in_none, lemma_find_goal_at, lemma_find_goal_none,
    lemma_find_link_at, lemma_find_link_none, lemma_goals_error_at, lemma_goals_error_none,
    lemma_habits_error_at, lemma_habits_error_none,
};
use crate::sync::model::{
    apply_check_ins, apply_goals, apply_habits, apply_links, apply_push, check_in_export,
    check_in_item_error, count_check_ins, count_goals, count_habits, data_error, export_check_ins,
    export_goals, export_habits, export_links, find_check_in, find_link, goal_export,
    goal_item_error, goal_row_of, habit_export, habit_item_error, habit_locals, habit_row_of,
    link_export, link_owned, merge_check_in, msg_sync_disabled_response,
    msg_sync_enabled_response, push_fits, spec_find_goal, spec_pull, spec_push,
    spec_set_sync_enabled, spec_sync_status,
};
use crate::sync::wire::{
    CheckInSyncData, CloudSyncResponse, GoalHabitSyncData, GoalSyncData, HabitSyncData, SyncData,
    SyncResult, SyncResultView, SyncStatus,
};
use vstd::prelude::*;
use vstd::string::StringExecFns;

verus! {

/// A copy of an optional string, equal to the original.
fn clone_opt_string(o: &Option<String>) -> (r: Option<String>)
    ensures
        r == *o,
{
    match o {
        Some(s) => Some(s.clone()),
        None => None,
    }
}

/// First goal row with the given id, if any.
fn find_goal_row(goals: &Vec<Goal>, id: u64) -> (r: Option<usize>)
    ensures
        match r {
            Some(j) => j < goals.len() && goals.deep_view()[j as int].id == id as int
                && spec_find_goal(goals.deep_view(), id as int) == Some(
                goals.deep_view()[j as int],
            ),
            None => spec_find_goal(goals.deep_view(), id as int) is None,
        },
{
    let n = goals.len();
    let mut j: usize = 0;
    while j < n
        invariant
            j <= n,
            n == goals.len(),
            forall|k: int| 0 <= k < j ==> #[trigger] goals.deep_view()[k].id != id as int,
        decreases n - j,
    {
        if goals[j].id == id {
            proof {
                lemma_find_goal_at(goals.deep_view(), id as int, j as int);
            }
            return Some(j);
        }
        j = j + 1;
    }
    proof {
        lemma_find_goal_none(goals.deep_view(), id as int);
    }
    None
}

/// Whether any pushed habit carries the given local identifier.
fn habits_contain_local(habits: &Vec<HabitSyncData>, local_id: &String) -> (r: bool)
    ensures
        r == habit_locals(habits.deep_view()).contains(local_id@),
{
    let n = habits.len();
    let mut i: usize = 0;
    while i < n
        invariant
            i <= n,
            n == habits.len(),
            forall|j: int| 0 <= j < i ==> #[trigger] habits.deep_view()[j].local_id != local_id@,
        decreases n - i,
    {
        if habits[i].local_id == *local_id {
            proof {
                assert(habit_locals(habits.deep_view()).contains(local_id@)) by {
                    assert(habits.deep_view()[i as int].local_id == local_id@);
                }
            }
            return true;
        }
        i = i + 1;
    }
    false
}

/// First check-in row with the natural key (habit id, effective date).
fn find_check_in_row(rows: &Vec<CheckIn>, habit_id: u64, d: &Date) -> (r: Option<usize>)
    ensures
        match r {
            Some(idx) => idx < rows.len() && find_check_in(rows.deep_view(), habit_id as int, d@)
                == Some(idx as int),
            None => find_check_in(rows.deep_view(), habit_id as int, d@) is None,
        },
{
    let n = rows.len();
    let mut i: usize = 0;
    while i < n
        invariant
            i <= n,
            n == rows.len(),
            forall|j: int|
                0 <= j < i ==> !(#[trigger] rows.deep_view()[j].habit_id == habit_id as int
                    && rows.deep_view()[j].effective_date == d@),
        decreases n - i,
    {
        if rows[i].habit_id == habit_id && rows[i].effective_date == *d {
            proof {
                lemma_find_check_in_at(rows.deep_view(), habit_id as int, d@, i as int);
            }
            return Some(i);
        }
        i = i + 1;
    }
    proof {
        lemma_find_check_in_none(rows.deep_view(), habit_id as int, d@);
    }
    None
}

/// First link row with the natural key (goal id, habit id).
fn find_link_row(rows: &Vec<GoalHabit>, goal_id: u64, habit_id: u64) -> (r: Option<usize>)
    ensures
        match r {
            Some(idx) => idx < rows.len() && find_link(
                rows.deep_view(),
                goal_id as int,
                habit_id as int,
            ) == Some(idx as int),
            None => find_link(rows.deep_view(), goal_id as int, habit_id as int) is None,
        },
{
    let n = rows.len();
    let mut i: usize = 0;
    while i < n
        invariant
            i <= n,
            n == rows.len(),
            forall|j: int|
                0 <= j < i ==> !(#[trigger] rows.deep_view()[j].goal_id == goal_id as int
                    && rows.deep_view()[j].habit_id == habit_id as int),
        decreases n - i,
    {
        if rows[i].goal_id == goal_id && rows[i].habit_id == habit_id {
            proof {
                lemma_find_link_at(rows.deep_view(), goal_id as int, habit_id as int, i as int);
            }
            return Some(i);
        }
        i = i + 1;
    }
    proof {
        lemma_find_link_none(rows.deep_view(), goal_id as int, habit_id as int);
    }
    None
}

/// `GET /sync/status`: the user's sync flag and row counts.
pub fn sync_status(store: &Store, user_id: u64) -> (r: Result<SyncStatus, ApiError>)
    requires
        store_wf(store@),
    ensures
        match r {
            Ok(s) => spec_sync_status(store@, user_id as int) == Ok::<_, ApiErrorView>(s@),
            Err(e) => spec_sync_status(store@, user_id as int) == Err::<
                crate::sync::wire::SyncStatusView,
                _,
            >(e@),
        },
{
    let uidx = match store.user_index(user_id) {
        Some(i) => i,
        None => {
            return Err(ApiError::Database(String::from_str("user record not found")));
        },
    };
    let enabled = store.users[uidx].cloud_sync_enabled;

    let mut habits_count: i64 = 0;
    let mut i: usize = 0;
    while i < store.habits.len()
        invariant
            i <= store.habits.len(),
            store_wf(store@),
            0 <= habits_count <= i,
            habits_count as int == count_habits(store@.habits.take(i as int), user_id as int),
        decreases store.habits.len() - i,
    {
        proof {
            assert(store@.habits.take(i + 1).drop_last() =~= store@.habits.take(i as int));
        }
        if store.habits[i].user_id == user_id {
            habits_count = habits_count + 1;
        }
        i = i + 1;
    }
    proof {
        assert(store@.habits.take(store@.habits.len() as int) =~= store@.habits);
    }

    let mut checkins_count: i64 = 0;
    let mut i: usize = 0;
    while i < store.check_ins.len()
        invariant
            i <= store.check_ins.len(),
            store_wf(store@),
            0 <= checkins_count <= i,
            checkins_count as int == count_check_ins(
                store@.check_ins.take(i as int),
                user_id as int,
            ),
        decreases store.check_ins.len() - i,
    {
        proof {
            assert(store@.check_ins.take(i + 1).drop_last() =~= store@.check_ins.take(i as int));
        }
        if store.check_ins[i].user_id == user_id {
            checkins_count = checkins_count + 1;
        }
        i = i + 1;
    }
    proof {
        assert(store@.check_ins.take(store@.check_ins.len() as int) =~= store@.check_ins);
    }

    let mut goals_count: i64 = 0;
    let mut i: usize = 0;
    while i < store.goals.len()
        invariant
            i <= store.goals.len(),
            store_wf(store@),
            0 <= goals_count <= i,
            goals_count as int == count_goals(store@.goals.take(i as int), user_id as int),
        decreases store.goals.len() - i,
    {
        proof {
            assert(store@.goals.take(i + 1).drop_last() =~= store@.goals.take(i as int));
        }
        if store.goals[i].user_id == user_id {
            goals_count = goals_count + 1;
        }
        i = i + 1;
    }
    proof {
        assert(store@.goals.take(store@.goals.len() as int) =~= store@.goals);
    }

    Ok(SyncStatus { enabled, last_sync: None, habits_count, checkins_count, goals_count })
}

/// `POST /sync/enable`: turn the user's cloud sync on. Unknown users are
/// not an error; nothing changes for them.
pub fn enable_cloud_sync(store: &mut Store, user_id: u64, now: i64) -> (r: CloudSyncResponse)
    requires
        store_wf(old(store)@),
    ensures
        final(store)@ == spec_set_sync_enabled(old(store)@, user_id as int, true, now as int),
        store_wf(final(store)@),
        r@.enabled == true,
        r@.message == msg_sync_enabled_response(),
{
    set_sync_flag(store, user_id, true, now);
    CloudSyncResponse {
        enabled: true,
        message: String::from_str(
            "Cloud sync enabled. Your data will now be securely backed up.",
        ),
    }
}

/// `POST /sync/disable`: turn the user's cloud sync off. The data stays.
pub fn disable_cloud_sync(store: &mut Store, user_id: u64, now: i64) -> (r: CloudSyncResponse)
    requires
        store_wf(old(store)@),
    ensures
        final(store)@ == spec_set_sync_enabled(old(store)@, user_id as int, false, now as int),
        store_wf(final(store)@),
        r@.enabled == false,
        r@.message == msg_sync_disabled_response(),
{
    set_sync_flag(store, user_id, false, now);
    CloudSyncResponse {
        enabled: false,
        message: String::from_str("Cloud sync disabled. Your data remains on your device."),
    }
}

fn set_sync_flag(store: &mut Store, user_id: u64, enabled: bool, now: i64)
    requires
        store_wf(old(store)@),
    ensures
        final(store)@ == spec_set_sync_enabled(old(store)@, user_id as int, enabled, now as int),
        store_wf(final(store)@),
{
    match store.user_index(user_id) {
        Some(i) => {
            let new_user = User {
                id: store.users[i].id,
                email: store.users[i].email.clone(),
                name: clone_opt_string(&store.users[i].name),
                avatar_url: clone_opt_string(&store.users[i].avatar_url),
                provider: store.users[i].provider,
                provider_id: store.users[i].provider_id.clone(),
                cloud_sync_enabled: enabled,
                created_at: store.users[i].created_at,
                updated_at: now,
            };
            let ghost uv = new_user@;
            store.users.set(i, new_user);
            proof {
                assert(store.users.deep_view() =~= old(store).users.deep_view().update(
                    i as int,
                    uv,
                ));
                assert(uv == (crate::models::user::UserView {
                    cloud_sync_enabled: enabled,
                    updated_at: now as int,
                    ..old(store)@.users[i as int]
                }));
            }
        },
        None => {
        },
    }
}

/// `GET /sync/pull`: export the user's full collections as one snapshot,
/// stamped with the export instant. Sync must be enabled.
pub fn pull_data(store: &Store, user_id: u64, now: i64) -> (r: Result<SyncData, ApiError>)
    requires
        store_wf(store@),
    ensures
        match r {
            Ok(snap) => spec_pull(store@, user_id as int, now as int) == Ok::<_, ApiErrorView>(
                snap@,
            ),
            Err(e) => spec_pull(store@, user_id as int, now as int) == Err::<
                crate::sync::wire::SyncDataView,
                _,
            >(e@),
        },
{
    let uidx = match store.user_index(user_id) {
        Some(i) => i,
        None => {
            return Err(ApiError::Database(String::from_str("user record not found")));
        },
    };
    if !store.users[uidx].cloud_sync_enabled {
        return Err(ApiError::BadRequest(String::from_str("Cloud sync is not enabled")));
    }

    let mut habits: Vec<HabitSyncData> = Vec::new();
    let mut i: usize = 0;
    proof {
        assert(habits.deep_view() =~= export_habits(store@.habits.take(0), user_id as int));
    }
    while i < store.habits.len()
        invariant
            i <= store.habits.len(),
            store_wf(store@),
            habits.deep_view() == export_habits(store@.habits.take(i as int), user_id as int),
        decreases store.habits.len() - i,
    {
        let ghost prefix = store@.habits.take(i as int);
        let ghost prefix1 = store@.habits.take(i as int + 1);
        proof {
            assert(prefix1.drop_last() =~= prefix);
            assert(prefix1.last() == store@.habits[i as int]);
        }
        let h = &store.habits[i];
        if h.user_id == user_id {
            let item = HabitSyncData {
                local_id: u64_dec_string(h.id),
                name: h.name.clone(),
                description: clone_opt_string(&h.description),
                habit_type: h.habit_type.label(),
                unit: clone_opt_string(&h.unit),
                target_value: h.target_value,
                target_direction: h.target_direction.label(),
                archived: h.archived,
                created_at: h.created_at,
                updated_at: h.updated_at,
            };
            let ghost itemv = item@;
            let ghost before = habits.deep_view();
            habits.push(item);
            proof {
                assert(itemv == habit_export(store@.habits[i as int]));
                assert(habits.deep_view() =~= before.push(itemv));
            }
        }
        i = i + 1;
    }
    proof {
        assert(store@.habits.take(store@.habits.len() as int) =~= store@.habits);
    }

    let mut check_ins: Vec<CheckInSyncData> = Vec::new();
    let mut i: usize = 0;
    proof {
        assert(check_ins.deep_view() =~= export_check_ins(
            store@.check_ins.take(0),
            user_id as int,
        ));
    }
    while i < store.check_ins.len()
        invariant
            i <= store.check_ins.len(),
            store_wf(store@),
            check_ins.deep_view() == export_check_ins(
                store@.check_ins.take(i as int),
                user_id as int,
            ),
        decreases store.check_ins.len() - i,
    {
        let ghost prefix = store@.check_ins.take(i as int);
        let ghost prefix1 = store@.check_ins.take(i as int + 1);
        proof {
            assert(prefix1.drop_last() =~= prefix);
            assert(prefix1.last() == store@.check_ins[i as int]);
        }
        let c = &store.check_ins[i];
        if c.user_id == user_id {
            let item = CheckInSyncData {
                local_id: u64_dec_string(c.id),
                habit_local_id: u64_dec_string(c.habit_id),
                value: c.value,
                note: clone_opt_string(&c.note),
                effective_date: format_date(&c.effective_date),
                created_at: c.created_at,
            };
            let ghost itemv = item@;
            let ghost before = check_ins.deep_view();
            check_ins.push(item);
            proof {
                assert(itemv == check_in_export(store@.check_ins[i as int]));
                assert(check_ins.deep_view() =~= before.push(itemv));
            }
        }
        i = i + 1;
    }
    proof {
        assert(store@.check_ins.take(store@.check_ins.len() as int) =~= store@.check_ins);
    }

    let mut goals: Vec<GoalSyncData> = Vec::new();
    let mut i: usize = 0;
    proof {
        assert(goals.deep_view() =~= export_goals(store@.goals.take(0), user_id as int));
    }
    while i < store.goals.len()
        invariant
            i <= store.goals.len(),
            store_wf(store@),
            goals.deep_view() == export_goals(store@.goals.take(i as int), user_id as int),
        decreases store.goals.len() - i,
    {
        let ghost prefix = store@.goals.take(i as int);
        let ghost prefix1 = store@.goals.take(i as int + 1);
        proof {
            assert(prefix1.drop_last() =~= prefix);
            assert(prefix1.last() == store@.goals[i as int]);
        }
        let g = &store.goals[i];
        if g.user_id == user_id {
            let item = GoalSyncData {
                local_id: u64_dec_string(g.id),
                name: g.name.clone(),
                description: clone_opt_string(&g.description),
                deadline: format_date(&g.deadline),
                status: g.status.label(),
                created_at: g.created_at,
                updated_at: g.updated_at,
            };
            let ghost itemv = item@;
            let ghost before = goals.deep_view();
            goals.push(item);
            proof {
                assert(itemv == goal_export(store@.goals[i as int]));
                assert(goals.deep_view() =~= before.push(itemv));
            }
        }
        i = i + 1;
    }
    proof {
        assert(store@.goals.take(store@.goals.len() as int) =~= store@.goals);
    }

    let mut goal_habits: Vec<GoalHabitSyncData> = Vec::new();
    let mut i: usize = 0;
    proof {
        assert(goal_habits.deep_view() =~= export_links(
            store@.goal_habits.take(0),
            store@.goals,
            user_id as int,
        ));
    }
    while i < store.goal_habits.len()
        invariant
            i <= store.goal_habits.len(),
            store_wf(store@),
            goal_habits.deep_view() == export_links(
                store@.goal_habits.take(i as int),
                store@.goals,
                user_id as int,
            ),
        decreases store.goal_habits.len() - i,
    {
        let ghost prefix = store@.goal_habits.take(i as int);
        let ghost prefix1 = store@.goal_habits.take(i as int + 1);
        proof {
            assert(prefix1.drop_last() =~= prefix);
            assert(prefix1.last() == store@.goal_habits[i as int]);
        }
        let l = &store.goal_habits[i];
        let owned = match find_goal_row(&store.goals, l.goal_id) {
            Some(j) => store.goals[j].user_id == user_id,
            None => false,
        };
        proof {
            assert(owned == link_owned(
                store@.goal_habits[i as int],
                store@.goals,
                user_id as int,
            ));
        }
        if owned {
            let item = GoalHabitSyncData {
                goal_local_id: u64_dec_string(l.goal_id),
                habit_local_id: u64_dec_string(l.habit_id),
                weight_bits: l.weight_bits,
            };
            let ghost itemv = item@;
            let ghost before = goal_habits.deep_view();
            goal_habits.push(item);
            proof {
                assert(itemv == link_export(store@.goal_habits[i as int]));
                assert(goal_habits.deep_view() =~= before.push(itemv));
            }
        }
        i = i + 1;
    }
    proof {
        assert(store@.goal_habits.take(store@.goal_habits.len() as int) =~= store@.goal_habits);
    }

    Ok(SyncData { habits, check_ins, goals, goal_habits, synced_at: now })
}

/// `POST /sync/push`: ingest one snapshot inside one unit of work.
///
/// Sync must be enabled, else `BadRequest` and nothing is written. The
/// snapshot is validated first — an unknown habit type, target direction
/// or goal status label would be rejected by the store, and an
/// unparseable date of a resolvable check-in or of any goal is a
/// `BadRequest` — and a validation failure leaves the store exactly as it
/// was: partial success is never observable. Only then are the writes
/// applied, so the whole push commits or nothing does.
#[verifier::loop_isolation(false)]
#[verifier::rlimit(60)]
pub fn push_data(store: &mut Store, user_id: u64, data: &SyncData, now: i64) -> (r: Result<
    SyncResult,
    ApiError,
>)
    requires
        store_wf(old(store)@),
        push_fits(old(store)@, data@),
    ensures
        store_wf(final(store)@),
        match r {
            Ok(out) => spec_push(old(store)@, user_id as int, data@, now as int) == Ok::<
                _,
                ApiErrorView,
            >((final(store)@, out@)),
            Err(e) => spec_push(old(store)@, user_id as int, data@, now as int) == Err::<
                (StoreView, SyncResultView),
                _,
            >(e@) && final(store)@ == old(store)@,
        },
{
    let ghost st0 = store@;
    let ghost dv = data@;
    let ghost user = user_id as int;

    // Precondition: the caller's sync flag.
    let uidx = match store.user_index(user_id) {
        Some(i) => i,
        None => {
            return Err(ApiError::Database(String::from_str("user record not found")));
        },
    };
    if !store.users[uidx].cloud_sync_enabled {
        return Err(ApiError::BadRequest(String::from_str("Cloud sync is not enabled")));
    }

    // Validation: find the first failure the write phases would hit, and
    // return it before anything is written.
    let mut i: usize = 0;
    while i < data.habits.len()
        invariant
            i <= data.habits.len(),
            forall|j: int| 0 <= j < i ==> habit_item_error(#[trigger] dv.habits[j]) is None,
        decreases data.habits.len() - i,
    {
        let h = &data.habits[i];
        if HabitType::parse(&h.habit_type).is_none() {
            proof {
                lemma_habits_error_at(dv.habits, i as int);
            }
            return Err(ApiError::Database(String::from_str("invalid habit type")));
        }
        if TargetDirection::parse(&h.target_direction).is_none() {
            proof {
                lemma_habits_error_at(dv.habits, i as int);
            }
            return Err(ApiError::Database(String::from_str("invalid target direction")));
        }
        i = i + 1;
    }
    proof {
        lemma_habits_error_none(dv.habits);
    }

    let ghost locals = habit_locals(dv.habits);
    let mut i: usize = 0;
    while i < data.check_ins.len()
        invariant
            i <= data.check_ins.len(),
            forall|j: int|
                0 <= j < i ==> check_in_item_error(#[trigger] dv.check_ins[j], locals) is None,
            forall|j: int|
                0 <= j < i && locals.contains(#[trigger] dv.check_ins[j].habit_local_id)
                    ==> date_of(dv.check_ins[j].effective_date) is Some && valid_date(
                    date_of(dv.check_ins[j].effective_date)->Some_0,
                ),
        decreases data.check_ins.len() - i,
    {
        let c = &data.check_ins[i];
        if habits_contain_local(&data.habits, &c.habit_local_id) {
            match parse_date(&c.effective_date) {
                Some(_) => {},
                None => {
                    proof {
                        lemma_check_ins_error_at(dv.check_ins, locals, i as int);
                    }
                    return Err(ApiError::BadRequest(String::from_str("Invalid date format")));
                },
            }
        }
        i = i + 1;
    }
    proof {
        lemma_check_ins_error_none(dv.check_ins, locals);
    }

    let mut i: usize = 0;
    while i < data.goals.len()
        invariant
            i <= data.goals.len(),
            forall|j: int| 0 <= j < i ==> goal_item_error(#[trigger] dv.goals[j]) is None,
            forall|j: int|
                0 <= j < i ==> date_of(#[trigger] dv.goals[j].deadline) is Some && valid_date(
                    date_of(dv.goals[j].deadline)->Some_0,
                ),
        decreases data.goals.len() - i,
    {
        let g = &data.goals[i];
        match parse_date(&g.deadline) {
            Some(_) => {},
            None => {
                proof {
                    lemma_goals_error_at(dv.goals, i as int);
                }
                return Err(ApiError::BadRequest(String::from_str("Invalid date format")));
            },
        }
        if GoalStatus::parse(&g.status).is_none() {
            proof {
                lemma_goals_error_at(dv.goals, i as int);
            }
            return Err(ApiError::Database(String::from_str("invalid goal status")));
        }
        i = i + 1;
    }
    proof {
        lemma_goals_error_none(dv.goals);
        assert(data_error(dv) is None);
    }

    // The unit of work: no failure is possible past this point, so the
    // writes go to the store directly.
    // Habits: always a fresh canonical id, recorded in the remapper.
    let ghost hfull = apply_habits(dv.habits, user, st0.next_id);
    proof {
        lemma_apply_habits_props(dv.habits, user, st0.next_id);
    }
    let mut remap = IdRemapper::new();
    let mut i: usize = 0;
    while i < data.habits.len()
        invariant
            i <= data.habits.len(),
            store@.users == st0.users,
            store@.check_ins == st0.check_ins,
            store@.goals == st0.goals,
            store@.goal_habits == st0.goal_habits,
            store@.habits == st0.habits + apply_habits(
                dv.habits.take(i as int),
                user,
                st0.next_id,
            ).rows,
            remap@ == apply_habits(dv.habits.take(i as int), user, st0.next_id).remap,
            store@.next_id == apply_habits(dv.habits.take(i as int), user, st0.next_id).next_id,
        decreases data.habits.len() - i,
    {
        let ghost prefix = dv.habits.take(i as int);
        let ghost prefix1 = dv.habits.take(i as int + 1);
        proof {
            assert(prefix1.drop_last() =~= prefix);
            assert(prefix1.last() == dv.habits[i as int]);
            lemma_apply_habits_props(prefix, user, st0.next_id);
        }
        let h = &data.habits[i];
        let habit_type = match HabitType::parse(&h.habit_type) {
            Some(t) => t,
            None => {
                proof {
                    assert(habit_item_error(dv.habits[i as int]) is None);
                    assert(false);
                }
                HabitType::Binary
            },
        };
        let target_direction = match TargetDirection::parse(&h.target_direction) {
            Some(t) => t,
            None => {
                proof {
                    assert(habit_item_error(dv.habits[i as int]) is None);
                    assert(false);
                }
                TargetDirection::AtLeast
            },
        };
        let server_id = store.next_id;
        store.next_id = store.next_id + 1;
        let row = Habit {
            id: server_id,
            user_id,
            name: h.name.clone(),
            description: clone_opt_string(&h.description),
            habit_type,
            unit: clone_opt_string(&h.unit),
            target_value: h.target_value,
            target_direction,
            archived: h.archived,
            created_at: h.created_at,
            updated_at: h.updated_at,
        };
        let ghost rowv = row@;
        let ghost habits_before = store.habits.deep_view();
        store.habits.push(row);
        remap.insert(h.local_id.clone(), server_id);
        proof {
            assert(rowv == habit_row_of(dv.habits[i as int], user, server_id as int));
            assert(store.habits.deep_view() =~= habits_before.push(rowv));
            assert(st0.habits + apply_habits(prefix1, user, st0.next_id).rows =~= (st0.habits
                + apply_habits(prefix, user, st0.next_id).rows).push(rowv));
        }
        i = i + 1;
    }
    proof {
        assert(dv.habits.take(dv.habits.len() as int) =~= dv.habits);
    }

    // Check-ins: resolve the parent habit; skip silently on a miss;
    // upsert on (habit id, effective date).
    let ghost cfull = apply_check_ins(dv.check_ins, user, hfull.remap, st0.check_ins, hfull.next_id);
    let mut synced_checkins: i32 = 0;
    let mut i: usize = 0;
    while i < data.check_ins.len()
        invariant
            i <= data.check_ins.len(),
            store@.users == st0.users,
            store@.goals == st0.goals,
            store@.goal_habits == st0.goal_habits,
            store@.habits == st0.habits + hfull.rows,
            remap@ == hfull.remap,
            store@.check_ins == apply_check_ins(
                dv.check_ins.take(i as int),
                user,
                hfull.remap,
                st0.check_ins,
                hfull.next_id,
            ).rows,
            store@.next_id == apply_check_ins(
                dv.check_ins.take(i as int),
                user,
                hfull.remap,
                st0.check_ins,
                hfull.next_id,
            ).next_id,
            synced_checkins as int == apply_check_ins(
                dv.check_ins.take(i as int),
                user,
                hfull.remap,
                st0.check_ins,
                hfull.next_id,
            ).count,
            0 <= synced_checkins <= i,
        decreases data.check_ins.len() - i,
    {
        let ghost prefix = dv.check_ins.take(i as int);
        let ghost prefix1 = dv.check_ins.take(i as int + 1);
        let ghost cfp = apply_check_ins(prefix, user, hfull.remap, st0.check_ins, hfull.next_id);
        proof {
            assert(prefix1.drop_last() =~= prefix);
            assert(prefix1.last() == dv.check_ins[i as int]);
            assert forall|j: int|
                0 <= j < prefix.len() && hfull.remap.dom().contains(
                    #[trigger] prefix[j].habit_local_id,
                ) implies date_of(prefix[j].effective_date) is Some && valid_date(
                date_of(prefix[j].effective_date)->Some_0,
            ) by {
                assert(prefix[j] == dv.check_ins[j]);
            }
            lemma_apply_check_ins_wf(prefix, user, hfull.remap, st0.check_ins, hfull.next_id);
        }
        let c = &data.check_ins[i];
        match remap.lookup(&c.habit_local_id) {
            Some(habit_id) => {
                let d = match parse_date(&c.effective_date) {
                    Some(d) => d,
                    None => {
                        proof {
                            assert(false);
                        }
                        Date { year: 1970, month: 1, day: 1 }
                    },
                };
                proof {
                    assert(d@ == date_of(dv.check_ins[i as int].effective_date)->Some_0);
                }
                match find_check_in_row(&store.check_ins, habit_id, &d) {
                    Some(idx) => {
                        let updated = CheckIn {
                            id: store.check_ins[idx].id,
                            habit_id: store.check_ins[idx].habit_id,
                            user_id: store.check_ins[idx].user_id,
                            value: c.value,
                            note: if c.note.is_some() {
                                clone_opt_string(&c.note)
                            } else {
                                clone_opt_string(&store.check_ins[idx].note)
                            },
                            effective_date: store.check_ins[idx].effective_date,
                            created_at: store.check_ins[idx].created_at,
                        };
                        let ghost updv = updated@;
                        let ghost before = store.check_ins.deep_view();
                        store.check_ins.set(idx, updated);
                        proof {
                            assert(updv == merge_check_in(
                                cfp.rows[idx as int],
                                dv.check_ins[i as int],
                            ));
                            assert(store.check_ins.deep_view() =~= before.update(idx as int, updv));
                        }
                    },
                    None => {
                        let server_id = store.next_id;
                        store.next_id = store.next_id + 1;
                        let row = CheckIn {
                            id: server_id,
                            habit_id,
                            user_id,
                            value: c.value,
                            note: clone_opt_string(&c.note),
                            effective_date: d,
                            created_at: c.created_at,
                        };
                        let ghost rowv = row@;
                        let ghost before = store.check_ins.deep_view();
                        store.check_ins.push(row);
                        proof {
                            assert(store.check_ins.deep_view() =~= before.push(rowv));
                        }
                    },
                }
                synced_checkins = synced_checkins + 1;
            },
            None => {},
        }
        i = i + 1;
    }
    proof {
        assert(dv.check_ins.take(dv.check_ins.len() as int) =~= dv.check_ins);
    }

    // Goals: same shape as habits, with their own remapper scope.
    let ghost gfull = apply_goals(dv.goals, user, cfull.next_id);
    proof {
        lemma_apply_goals_props(dv.goals, user, cfull.next_id);
        assert forall|j: int|
            0 <= j < dv.check_ins.len() && hfull.remap.dom().contains(
                #[trigger] dv.check_ins[j].habit_local_id,
            ) implies date_of(dv.check_ins[j].effective_date) is Some && valid_date(
            date_of(dv.check_ins[j].effective_date)->Some_0,
        ) by {}
        lemma_apply_check_ins_wf(dv.check_ins, user, hfull.remap, st0.check_ins, hfull.next_id);
    }
    let mut goal_remap = IdRemapper::new();
    let mut i: usize = 0;
    while i < data.goals.len()
        invariant
            i <= data.goals.len(),
            store@.users == st0.users,
            store@.goal_habits == st0.goal_habits,
            store@.habits == st0.habits + hfull.rows,
            store@.check_ins == cfull.rows,
            remap@ == hfull.remap,
            store@.goals == st0.goals + apply_goals(
                dv.goals.take(i as int),
                user,
                cfull.next_id,
            ).rows,
            goal_remap@ == apply_goals(dv.goals.take(i as int), user, cfull.next_id).remap,
            store@.next_id == apply_goals(dv.goals.take(i as int), user, cfull.next_id).next_id,
        decreases data.goals.len() - i,
    {
        let ghost prefix = dv.goals.take(i as int);
        let ghost prefix1 = dv.goals.take(i as int + 1);
        proof {
            assert(prefix1.drop_last() =~= prefix);
            assert(prefix1.last() == dv.goals[i as int]);
            lemma_apply_goals_props(prefix, user, cfull.next_id);
        }
        let g = &data.goals[i];
        let deadline = match parse_date(&g.deadline) {
            Some(d) => d,
            None => {
                proof {
                    assert(goal_item_error(dv.goals[i as int]) is None);
                    assert(false);
                }
                Date { year: 1970, month: 1, day: 1 }
            },
        };
        let status = match GoalStatus::parse(&g.status) {
            Some(s) => s,
            None => {
                proof {
                    assert(goal_item_error(dv.goals[i as int]) is None);
                    assert(false);
                }
                GoalStatus::Active
            },
        };
        let server_id = store.next_id;
        store.next_id = store.next_id + 1;
        let row = Goal {
            id: server_id,
            user_id,
            name: g.name.clone(),
            description: clone_opt_string(&g.description),
            deadline,
            status,
            is_shared: false,
            created_at: g.created_at,
            updated_at: g.updated_at,
        };
        let ghost rowv = row@;
        let ghost goals_before = store.goals.deep_view();
        store.goals.push(row);
        goal_remap.insert(g.local_id.clone(), server_id);
        proof {
            assert(rowv == goal_row_of(dv.goals[i as int], user, server_id as int));
            assert(store.goals.deep_view() =~= goals_before.push(rowv));
            assert(st0.goals + apply_goals(prefix1, user, cfull.next_id).rows =~= (st0.goals
                + apply_goals(prefix, user, cfull.next_id).rows).push(rowv));
        }
        i = i + 1;
    }
    proof {
        assert(dv.goals.take(dv.goals.len() as int) =~= dv.goals);
    }

    // Goal-habit links: resolve both parents; skip silently if either is
    // missing; upsert on (goal id, habit id), overwriting the weight.
    let ghost lfull = apply_links(
        dv.goal_habits,
        gfull.remap,
        hfull.remap,
        st0.goal_habits,
        gfull.next_id,
    );
    let mut i: usize = 0;
    while i < data.goal_habits.len()
        invariant
            i <= data.goal_habits.len(),
            store@.users == st0.users,
            store@.habits == st0.habits + hfull.rows,
            store@.check_ins == cfull.rows,
            store@.goals == st0.goals + gfull.rows,
            remap@ == hfull.remap,
            goal_remap@ == gfull.remap,
            store@.goal_habits == apply_links(
                dv.goal_habits.take(i as int),
                gfull.remap,
                hfull.remap,
                st0.goal_habits,
                gfull.next_id,
            ).rows,
            store@.next_id == apply_links(
                dv.goal_habits.take(i as int),
                gfull.remap,
                hfull.remap,
                st0.goal_habits,
                gfull.next_id,
            ).next_id,
        decreases data.goal_habits.len() - i,
    {
        let ghost prefix = dv.goal_habits.take(i as int);
        let ghost prefix1 = dv.goal_habits.take(i as int + 1);
        proof {
            assert(prefix1.drop_last() =~= prefix);
            assert(prefix1.last() == dv.goal_habits[i as int]);
            assert(st0.next_id <= hfull.next_id <= cfull.next_id <= gfull.next_id);
            assert forall|l: Seq<char>| gfull.remap.dom().contains(l) implies 0
                <= #[trigger] gfull.remap[l] < gfull.next_id by {}
            assert forall|l: Seq<char>| hfull.remap.dom().contains(l) implies 0
                <= #[trigger] hfull.remap[l] < gfull.next_id by {}
            crate::sync::lemmas::lemma_apply_links_wf(
                prefix,
                gfull.remap,
                hfull.remap,
                st0.goal_habits,
                gfull.next_id,
            );
        }
        let l = &data.goal_habits[i];
        let goal_id_opt = goal_remap.lookup(&l.goal_local_id);
        let habit_id_opt = remap.lookup(&l.habit_local_id);
        match (goal_id_opt, habit_id_opt) {
            (Some(goal_id), Some(habit_id)) => {
                match find_link_row(&store.goal_habits, goal_id, habit_id) {
                    Some(idx) => {
                        let updated = GoalHabit {
                            id: store.goal_habits[idx].id,
                            goal_id: store.goal_habits[idx].goal_id,
                            habit_id: store.goal_habits[idx].habit_id,
                            weight_bits: l.weight_bits,
                        };
                        let ghost updv = updated@;
                        let ghost before = store.goal_habits.deep_view();
                        store.goal_habits.set(idx, updated);
                        proof {
                            assert(store.goal_habits.deep_view() =~= before.update(
                                idx as int,
                                updv,
                            ));
                        }
                    },
                    None => {
                        let server_id = store.next_id;
                        store.next_id = store.next_id + 1;
                        let row = GoalHabit {
                            id: server_id,
                            goal_id,
                            habit_id,
                            weight_bits: l.weight_bits,
                        };
                        let ghost rowv = row@;
                        let ghost before = store.goal_habits.deep_view();
                        store.goal_habits.push(row);
                        proof {
                            assert(store.goal_habits.deep_view() =~= before.push(rowv));
                        }
                    },
                }
            },
            _ => {},
        }
        i = i + 1;
    }
    proof {
        assert(dv.goal_habits.take(dv.goal_habits.len() as int) =~= dv.goal_habits);
    }

    let synced_habits = data.habits.len() as i32;
    let synced_goals = data.goals.len() as i32;
    let result = SyncResult { success: true, synced_habits, synced_checkins, synced_goals, synced_at: now };
    proof {
        let ap = apply_push(st0, user, dv, now as int);
        assert(store@ == ap.0);
        assert(result@ == ap.1);
        lemma_apply_push_wf(st0, user, dv, now as int);
    }
    Ok(result)
}

/// Push stamped with the clock: the completion instant in the result is
/// the one the store state is explained by.
pub fn push_data_now(store: &mut Store, user_id: u64, data: &SyncData) -> (r: Result<
    SyncResult,
    ApiError,
>)
    requires
        store_wf(old(store)@),
        push_fits(old(store)@, data@),
    ensures
        store_wf(final(store)@),
        match r {
            Ok(out) => spec_push(old(store)@, user_id as int, data@, out@.synced_at) == Ok::<
                _,
                ApiErrorView,
            >((final(store)@, out@)),
            Err(e) => spec_push(old(store)@, user_id as int, data@, 0) == Err::<
                (StoreView, SyncResultView),
                _,
            >(e@) && final(store)@ == old(store)@,
        },
{
    let now = now_micros();
    let r = push_data(store, user_id, data, now);
    proof {
        if r is Err {
            assert(spec_push(old(store)@, user_id as int, data@, 0) == spec_push(
                old(store)@,
                user_id as int,
                data@,
                now as int,
            ));
        }
    }
    r
}

/// Pull stamped with the clock.
pub fn pull_data_now(store: &Store, user_id: u64) -> (r: Result<SyncData, ApiError>)
    requires
        store_wf(store@),
    ensures
        match r {
            Ok(snap) => spec_pull(store@, user_id as int, snap@.synced_at) == Ok::<
                _,
                ApiErrorView,
            >(snap@),
            Err(e) => spec_pull(store@, user_id as int, 0) == Err::<
                crate::sync::wire::SyncDataView,
                _,
            >(e@),
        },
{
    let now = now_micros();
    let r = pull_data(store, user_id, now);
    proof {
        if r is Err {
            assert(spec_pull(store@, user_id as int, 0) == spec_pull(
                store@,
                user_id as int,
                now as int,
            ));
        }
    }
    r
}

} // verus!
