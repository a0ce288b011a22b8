use betterbe_core::models::user::AuthProvider;
use betterbe_core::store::Store;
use betterbe_core::sync::engine::{
    disable_cloud_sync, enable_cloud_sync, pull_data, pull_data_now, push_data, push_data_now,
    sync_status,
};
use betterbe_core::sync::wire::{
    CheckInSyncData, GoalHabitSyncData, GoalSyncData, HabitSyncData, SyncData,
};
use betterbe_core::error::ApiError;

fn new_user(enabled: bool) -> (Store, u64) {
    let mut store = Store::new();
    let user_id = store.add_user(
        String::from("ada@example.com"),
        Some(String::from("Ada")),
        None,
        AuthProvider::Google,
        String::from("google-1"),
        1_000,
    );
    if enabled {
        enable_cloud_sync(&mut store, user_id, 2_000);
    }
    (store, user_id)
}

fn habit(local_id: &str, name: &str) -> HabitSyncData {
    HabitSyncData {
        local_id: String::from(local_id),
        name: String::from(name),
        description: None,
        habit_type: String::from("binary"),
        unit: None,
        target_value: None,
        target_direction: String::from("at_least"),
        archived: false,
        created_at: 10,
        updated_at: 20,
    }
}

fn check_in(habit_local_id: &str, date: &str, value: i32, note: Option<&str>) -> CheckInSyncData {
    CheckInSyncData {
        local_id: String::from("c-local"),
        habit_local_id: String::from(habit_local_id),
        value,
        note: note.map(String::from),
        effective_date: String::from(date),
        created_at: 30,
    }
}

fn goal(local_id: &str, name: &str, deadline: &str) -> GoalSyncData {
    GoalSyncData {
        local_id: String::from(local_id),
        name: String::from(name),
        description: None,
        deadline: String::from(deadline),
        status: String::from("active"),
        created_at: 40,
        updated_at: 50,
    }
}

fn snapshot(
    habits: Vec<HabitSyncData>,
    check_ins: Vec<CheckInSyncData>,
    goals: Vec<GoalSyncData>,
    goal_habits: Vec<GoalHabitSyncData>,
) -> SyncData {
    SyncData { habits, check_ins, goals, goal_habits, synced_at: 0 }
}

#[test]
fn push_with_sync_disabled_is_rejected_and_writes_nothing() {
    let (mut store, user_id) = new_user(false);
    let data = snapshot(vec![habit("h1", "Run")], vec![check_in("h1", "2024-03-07", 1, None)], vec![], vec![]);
    let r = push_data(&mut store, user_id, &data, 5_000);
    match r {
        Err(ApiError::BadRequest(msg)) => assert_eq!(msg, "Cloud sync is not enabled"),
        _ => panic!("expected BadRequest"),
    }
    assert_eq!(store.habits.len(), 0);
    assert_eq!(store.check_ins.len(), 0);
    assert_eq!(store.goals.len(), 0);
    assert_eq!(store.goal_habits.len(), 0);
}

#[test]
fn unresolved_check_in_is_skipped_without_error() {
    let (mut store, user_id) = new_user(true);
    let data = snapshot(
        vec![habit("h1", "Run")],
        vec![check_in("nope", "2024-03-07", 1, None)],
        vec![],
        vec![],
    );
    let r = push_data(&mut store, user_id, &data, 5_000).unwrap();
    assert!(r.success);
    assert_eq!(r.synced_habits, 1);
    assert_eq!(r.synced_checkins, 0);
    assert_eq!(store.habits.len(), 1);
    assert_eq!(store.check_ins.len(), 0);
}

#[test]
fn check_in_upsert_keeps_one_row_with_later_value_and_coalesced_note() {
    let (mut store, user_id) = new_user(true);
    let data = snapshot(
        vec![habit("h1", "Run")],
        vec![
            check_in("h1", "2024-03-07", 1, Some("first")),
            check_in("h1", "2024-03-07", 5, None),
        ],
        vec![],
        vec![],
    );
    let r = push_data(&mut store, user_id, &data, 5_000).unwrap();
    assert_eq!(r.synced_checkins, 2);
    assert_eq!(store.check_ins.len(), 1);
    assert_eq!(store.check_ins[0].value, 5);
    assert_eq!(store.check_ins[0].note.as_deref(), Some("first"));
}

#[test]
fn check_in_upsert_overwrites_note_when_present() {
    let (mut store, user_id) = new_user(true);
    let data = snapshot(
        vec![habit("h1", "Run")],
        vec![
            check_in("h1", "2024-03-07", 1, Some("first")),
            check_in("h1", "2024-03-07", 2, Some("second")),
        ],
        vec![],
        vec![],
    );
    push_data(&mut store, user_id, &data, 5_000).unwrap();
    assert_eq!(store.check_ins.len(), 1);
    assert_eq!(store.check_ins[0].value, 2);
    assert_eq!(store.check_ins[0].note.as_deref(), Some("second"));
}

#[test]
fn differently_written_dates_hit_the_same_natural_key() {
    let (mut store, user_id) = new_user(true);
    let data = snapshot(
        vec![habit("h1", "Run")],
        vec![
            check_in("h1", "2024-3-7", 1, None),
            check_in("h1", "2024-03-07", 9, None),
        ],
        vec![],
        vec![],
    );
    push_data(&mut store, user_id, &data, 5_000).unwrap();
    assert_eq!(store.check_ins.len(), 1);
    assert_eq!(store.check_ins[0].value, 9);
}

#[test]
fn bad_date_rolls_back_the_whole_push() {
    let (mut store, user_id) = new_user(true);
    let data = snapshot(
        vec![habit("h1", "Run"), habit("h2", "Read"), habit("h3", "Sleep")],
        vec![check_in("h1", "not-a-date", 1, None)],
        vec![],
        vec![],
    );
    let r = push_data(&mut store, user_id, &data, 5_000);
    match r {
        Err(ApiError::BadRequest(msg)) => assert_eq!(msg, "Invalid date format"),
        _ => panic!("expected BadRequest"),
    }
    assert_eq!(store.habits.len(), 0);
    assert_eq!(store.check_ins.len(), 0);
}

#[test]
fn impossible_calendar_date_rolls_back_but_leap_day_passes() {
    let (mut store, user_id) = new_user(true);
    let bad = snapshot(
        vec![habit("h1", "Run")],
        vec![check_in("h1", "2023-02-29", 1, None)],
        vec![],
        vec![],
    );
    assert!(push_data(&mut store, user_id, &bad, 5_000).is_err());
    assert_eq!(store.habits.len(), 0);

    let good = snapshot(
        vec![habit("h1", "Run")],
        vec![check_in("h1", "2024-02-29", 1, None)],
        vec![],
        vec![],
    );
    let r = push_data(&mut store, user_id, &good, 5_000).unwrap();
    assert_eq!(r.synced_checkins, 1);
}

#[test]
fn bad_goal_deadline_rolls_back_the_whole_push() {
    let (mut store, user_id) = new_user(true);
    let data = snapshot(vec![habit("h1", "Run")], vec![], vec![goal("g1", "Marathon", "soon")], vec![]);
    let r = push_data(&mut store, user_id, &data, 5_000);
    match r {
        Err(ApiError::BadRequest(msg)) => assert_eq!(msg, "Invalid date format"),
        _ => panic!("expected BadRequest"),
    }
    assert_eq!(store.habits.len(), 0);
    assert_eq!(store.goals.len(), 0);
}

#[test]
fn unknown_habit_type_label_is_a_store_failure_and_rolls_back() {
    let (mut store, user_id) = new_user(true);
    let mut h = habit("h1", "Run");
    h.habit_type = String::from("purple");
    let data = snapshot(vec![h], vec![], vec![], vec![]);
    let r = push_data(&mut store, user_id, &data, 5_000);
    match r {
        Err(e @ ApiError::Database(_)) => {
            assert_eq!(e.status_code(), 500);
            assert_eq!(e.response_message(), "Database error");
        },
        _ => panic!("expected Database error"),
    }
    assert_eq!(store.habits.len(), 0);
}

#[test]
fn unknown_goal_status_label_is_a_store_failure() {
    let (mut store, user_id) = new_user(true);
    let mut g = goal("g1", "Marathon", "2025-01-01");
    g.status = String::from("someday");
    let data = snapshot(vec![], vec![], vec![g], vec![]);
    assert!(matches!(push_data(&mut store, user_id, &data, 5_000), Err(ApiError::Database(_))));
    assert_eq!(store.goals.len(), 0);
}

#[test]
fn push_for_unknown_user_is_a_store_failure() {
    let mut store = Store::new();
    let data = snapshot(vec![], vec![], vec![], vec![]);
    assert!(matches!(push_data(&mut store, 77, &data, 5_000), Err(ApiError::Database(_))));
}

#[test]
fn pull_after_push_returns_the_pushed_counts_and_a_later_stamp() {
    let (mut store, user_id) = new_user(true);
    let data = snapshot(
        vec![habit("h1", "Run"), habit("h2", "Read")],
        vec![
            check_in("h1", "2024-03-07", 1, None),
            check_in("h2", "2024-03-08", 2, None),
        ],
        vec![goal("g1", "Marathon", "2025-06-01")],
        vec![],
    );
    let res = push_data(&mut store, user_id, &data, 5_000).unwrap();
    assert_eq!(res.synced_habits, 2);
    assert_eq!(res.synced_checkins, 2);
    assert_eq!(res.synced_goals, 1);
    assert_eq!(res.synced_at, 5_000);

    let snap = pull_data(&store, user_id, 6_000).unwrap();
    assert_eq!(snap.habits.len(), 2);
    assert_eq!(snap.check_ins.len(), 2);
    assert_eq!(snap.goals.len(), 1);
    assert!(snap.synced_at > res.synced_at);
}

#[test]
fn pull_renders_canonical_ids_and_dates() {
    let (mut store, user_id) = new_user(true);
    let data = snapshot(
        vec![habit("h1", "Run")],
        vec![check_in("h1", "2024-3-7", 4, Some("note"))],
        vec![],
        vec![],
    );
    push_data(&mut store, user_id, &data, 5_000).unwrap();
    let snap = pull_data(&store, user_id, 6_000).unwrap();
    // the user record took id 1, the habit id 2, the check-in id 3
    assert_eq!(snap.habits[0].local_id, "2");
    assert_eq!(snap.habits[0].habit_type, "binary");
    assert_eq!(snap.habits[0].target_direction, "at_least");
    assert_eq!(snap.check_ins[0].local_id, "3");
    assert_eq!(snap.check_ins[0].habit_local_id, "2");
    // rendered in canonical form, not as the client wrote it
    assert_eq!(snap.check_ins[0].effective_date, "2024-03-07");
    assert_eq!(snap.check_ins[0].value, 4);
}

#[test]
fn identical_push_twice_duplicates_habits_under_fresh_ids() {
    let (mut store, user_id) = new_user(true);
    let data = snapshot(vec![habit("h1", "Run")], vec![], vec![], vec![]);
    push_data(&mut store, user_id, &data, 5_000).unwrap();
    let data_again = snapshot(vec![habit("h1", "Run")], vec![], vec![], vec![]);
    push_data(&mut store, user_id, &data_again, 6_000).unwrap();
    assert_eq!(store.habits.len(), 2);
    assert_ne!(store.habits[0].id, store.habits[1].id);
    assert_eq!(store.habits[0].name, store.habits[1].name);
}

#[test]
fn repeated_local_id_remaps_to_the_last_habit() {
    let (mut store, user_id) = new_user(true);
    let data = snapshot(
        vec![habit("a", "First"), habit("a", "Second")],
        vec![check_in("a", "2024-03-07", 1, None)],
        vec![],
        vec![],
    );
    push_data(&mut store, user_id, &data, 5_000).unwrap();
    assert_eq!(store.habits.len(), 2);
    assert_eq!(store.check_ins.len(), 1);
    // the check-in attached to the habit pushed later
    let second_id: u64 = store.habits[1].id;
    assert_eq!(store.check_ins[0].habit_id, second_id);
}

#[test]
fn link_upsert_overwrites_weight_and_skips_unresolved() {
    let (mut store, user_id) = new_user(true);
    let w1: u32 = 1.0f32.to_bits();
    let w2: u32 = 2.5f32.to_bits();
    let data = snapshot(
        vec![habit("h1", "Run")],
        vec![],
        vec![goal("g1", "Marathon", "2025-06-01")],
        vec![
            GoalHabitSyncData {
                goal_local_id: String::from("g1"),
                habit_local_id: String::from("h1"),
                weight_bits: w1,
            },
            GoalHabitSyncData {
                goal_local_id: String::from("g1"),
                habit_local_id: String::from("h1"),
                weight_bits: w2,
            },
            GoalHabitSyncData {
                goal_local_id: String::from("g1"),
                habit_local_id: String::from("missing"),
                weight_bits: w1,
            },
        ],
    );
    push_data(&mut store, user_id, &data, 5_000).unwrap();
    assert_eq!(store.goal_habits.len(), 1);
    assert_eq!(store.goal_habits[0].weight_bits, w2);
    assert_eq!(f32::from_bits(store.goal_habits[0].weight_bits), 2.5);

    let snap = pull_data(&store, user_id, 6_000).unwrap();
    assert_eq!(snap.goal_habits.len(), 1);
    assert_eq!(snap.goal_habits[0].weight_bits, w2);
}

#[test]
fn status_reports_flag_and_counts() {
    let (mut store, user_id) = new_user(true);
    let data = snapshot(
        vec![habit("h1", "Run")],
        vec![check_in("h1", "2024-03-07", 1, None)],
        vec![goal("g1", "Marathon", "2025-06-01")],
        vec![],
    );
    push_data(&mut store, user_id, &data, 5_000).unwrap();
    let s = sync_status(&store, user_id).unwrap();
    assert!(s.enabled);
    assert_eq!(s.last_sync, None);
    assert_eq!(s.habits_count, 1);
    assert_eq!(s.checkins_count, 1);
    assert_eq!(s.goals_count, 1);

    // another user sees their own (empty) collections and their own flag
    let other = store.add_user(
        String::from("bob@example.com"),
        None,
        None,
        AuthProvider::Apple,
        String::from("apple-2"),
        7_000,
    );
    let s2 = sync_status(&store, other).unwrap();
    assert!(!s2.enabled);
    assert_eq!(s2.habits_count, 0);
}

#[test]
fn status_for_unknown_user_is_a_store_failure() {
    let store = Store::new();
    assert!(matches!(sync_status(&store, 9), Err(ApiError::Database(_))));
}

#[test]
fn enable_and_disable_toggle_the_flag_with_fixed_messages() {
    let (mut store, user_id) = new_user(false);
    let r = enable_cloud_sync(&mut store, user_id, 3_000);
    assert!(r.enabled);
    assert_eq!(r.message, "Cloud sync enabled. Your data will now be securely backed up.");
    assert!(sync_status(&store, user_id).unwrap().enabled);

    let r = disable_cloud_sync(&mut store, user_id, 4_000);
    assert!(!r.enabled);
    assert_eq!(r.message, "Cloud sync disabled. Your data remains on your device.");
    assert!(!sync_status(&store, user_id).unwrap().enabled);
}

#[test]
fn clocked_push_and_pull_use_the_wall_clock() {
    let (mut store, user_id) = new_user(true);
    let data = snapshot(vec![habit("h1", "Run")], vec![], vec![], vec![]);
    let res = push_data_now(&mut store, user_id, &data).unwrap();
    assert_eq!(res.synced_habits, 1);
    assert!(res.synced_at > 0);
    let snap = pull_data_now(&store, user_id).unwrap();
    assert_eq!(snap.habits.len(), 1);
    assert!(snap.synced_at >= res.synced_at);
}

#[test]
fn pull_with_sync_disabled_is_rejected() {
    let (store, user_id) = new_user(false);
    match pull_data(&store, user_id, 6_000) {
        Err(ApiError::BadRequest(msg)) => assert_eq!(msg, "Cloud sync is not enabled"),
        _ => panic!("expected BadRequest"),
    }
}

#[test]
fn pull_is_scoped_to_the_requesting_user() {
    let (mut store, ada) = new_user(true);
    let bob = store.add_user(
        String::from("bob@example.com"),
        None,
        None,
        AuthProvider::Apple,
        String::from("apple-2"),
        7_000,
    );
    enable_cloud_sync(&mut store, bob, 7_500);
    let data = snapshot(vec![habit("h1", "Run")], vec![], vec![], vec![]);
    push_data(&mut store, ada, &data, 5_000).unwrap();

    let bob_snap = pull_data(&store, bob, 8_000).unwrap();
    assert_eq!(bob_snap.habits.len(), 0);
    let ada_snap = pull_data(&store, ada, 8_000).unwrap();
    assert_eq!(ada_snap.habits.len(), 1);
}
