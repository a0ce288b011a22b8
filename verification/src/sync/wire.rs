//! Wire-level snapshot types for push and pull.
//!
//! These are the JSON shapes of the sync endpoints, with instants as
//! microsecond timestamps, calendar dates as `YYYY-MM-DD` strings, and a
//! link weight as its raw 32-bit encoding. A snapshot entity's `local_id`
//! is the identifier minted by the client device; on export the canonical
//! id takes its place.

use vstd::prelude::*;

verus! {

#[derive(Debug)]
pub struct HabitSyncData {
    pub local_id: String,
    pub name: String,
    pub description: Option<String>,
    pub habit_type: String,
    pub unit: Option<String>,
    pub target_value: Option<i32>,
    pub target_direction: String,
    pub archived: bool,
    pub created_at: i64,
    pub updated_at: i64,
}

pub struct HabitSyncDataView {
    pub local_id: Seq<char>,
    pub name: Seq<char>,
    pub description: Option<Seq<char>>,
    pub habit_type: Seq<char>,
    pub unit: Option<Seq<char>>,
    pub target_value: Option<int>,
    pub target_direction: Seq<char>,
    pub archived: bool,
    pub created_at: int,
    pub updated_at: int,
}

impl View for HabitSyncData {
    type V = HabitSyncDataView;

    open spec fn view(&self) -> HabitSyncDataView {
        HabitSyncDataView {
            local_id: self.local_id@,
            name: self.name@,
            description: self.description.deep_view(),
            habit_type: self.habit_type@,
            unit: self.unit.deep_view(),
            target_value: crate::views::opt_i32_view(self.target_value),
            target_direction: self.target_direction@,
            archived: self.archived,
            created_at: self.created_at as int,
            updated_at: self.updated_at as int,
        }
    }
}

impl DeepView for HabitSyncData {
    type V = HabitSyncDataView;

    open spec fn deep_view(&self) -> HabitSyncDataView {
        self.view()
    }
}

#[derive(Debug)]
pub struct CheckInSyncData {
    pub local_id: String,
    pub habit_local_id: String,
    pub value: i32,
    pub note: Option<String>,
    pub effective_date: String,
    pub created_at: i64,
}

pub struct CheckInSyncDataView {
    pub local_id: Seq<char>,
    pub habit_local_id: Seq<char>,
    pub value: int,
    pub note: Option<Seq<char>>,
    pub effective_date: Seq<char>,
    pub created_at: int,
}

impl View for CheckInSyncData {
    type V = CheckInSyncDataView;

    open spec fn view(&self) -> CheckInSyncDataView {
        CheckInSyncDataView {
            local_id: self.local_id@,
            habit_local_id: self.habit_local_id@,
            value: self.value as int,
            note: self.note.deep_view(),
            effective_date: self.effective_date@,
            created_at: self.created_at as int,
        }
    }
}

impl DeepView for CheckInSyncData {
    type V = CheckInSyncDataView;

    open spec fn deep_view(&self) -> CheckInSyncDataView {
        self.view()
    }
}

#[derive(Debug)]
pub struct GoalSyncData {
    pub local_id: String,
    pub name: String,
    pub description: Option<String>,
    pub deadline: String,
    pub status: String,
    pub created_at: i64,
    pub updated_at: i64,
}

pub struct GoalSyncDataView {
    pub local_id: Seq<char>,
    pub name: Seq<char>,
    pub description: Option<Seq<char>>,
    pub deadline: Seq<char>,
    pub status: Seq<char>,
    pub created_at: int,
    pub updated_at: int,
}

impl View for GoalSyncData {
    type V = GoalSyncDataView;

    open spec fn view(&self) -> GoalSyncDataView {
        GoalSyncDataView {
            local_id: self.local_id@,
            name: self.name@,
            description: self.description.deep_view(),
            deadline: self.deadline@,
            status: self.status@,
            created_at: self.created_at as int,
            updated_at: self.updated_at as int,
        }
    }
}

impl DeepView for GoalSyncData {
    type V = GoalSyncDataView;

    open spec fn deep_view(&self) -> GoalSyncDataView {
        self.view()
    }
}

#[derive(Debug)]
pub struct GoalHabitSyncData {
    pub goal_local_id: String,
    pub habit_local_id: String,
    pub weight_bits: u32,
}

pub struct GoalHabitSyncDataView {
    pub goal_local_id: Seq<char>,
    pub habit_local_id: Seq<char>,
    pub weight_bits: int,
}

impl View for GoalHabitSyncData {
    type V = GoalHabitSyncDataView;

    open spec fn view(&self) -> GoalHabitSyncDataView {
        GoalHabitSyncDataView {
            goal_local_id: self.goal_local_id@,
            habit_local_id: self.habit_local_id@,
            weight_bits: self.weight_bits as int,
        }
    }
}

impl DeepView for GoalHabitSyncData {
    type V = GoalHabitSyncDataView;

    open spec fn deep_view(&self) -> GoalHabitSyncDataView {
        self.view()
    }
}

/// Full data bundle for one push or pull.
#[derive(Debug)]
pub struct SyncData {
    pub habits: Vec<HabitSyncData>,
    pub check_ins: Vec<CheckInSyncData>,
    pub goals: Vec<GoalSyncData>,
    pub goal_habits: Vec<GoalHabitSyncData>,
    pub synced_at: i64,
}

pub struct SyncDataView {
    pub habits: Seq<HabitSyncDataView>,
    pub check_ins: Seq<CheckInSyncDataView>,
    pub goals: Seq<GoalSyncDataView>,
    pub goal_habits: Seq<GoalHabitSyncDataView>,
    pub synced_at: int,
}

impl View for SyncData {
    type V = SyncDataView;

    open spec fn view(&self) -> SyncDataView {
        SyncDataView {
            habits: self.habits.deep_view(),
            check_ins: self.check_ins.deep_view(),
            goals: self.goals.deep_view(),
            goal_habits: self.goal_habits.deep_view(),
            synced_at: self.synced_at as int,
        }
    }
}

impl DeepView for SyncData {
    type V = SyncDataView;

    open spec fn deep_view(&self) -> SyncDataView {
        self.view()
    }
}

/// Result of a push: how many records were actually written.
#[derive(Debug)]
pub struct SyncResult {
    pub success: bool,
    pub synced_habits: i32,
    pub synced_checkins: i32,
    pub synced_goals: i32,
    pub synced_at: i64,
}

pub struct SyncResultView {
    pub success: bool,
    pub synced_habits: int,
    pub synced_checkins: int,
    pub synced_goals: int,
    pub synced_at: int,
}

impl View for SyncResult {
    type V = SyncResultView;

    open spec fn view(&self) -> SyncResultView {
        SyncResultView {
            success: self.success,
            synced_habits: self.synced_habits as int,
            synced_checkins: self.synced_checkins as int,
            synced_goals: self.synced_goals as int,
            synced_at: self.synced_at as int,
        }
    }
}

impl DeepView for SyncResult {
    type V = SyncResultView;

    open spec fn deep_view(&self) -> SyncResultView {
        self.view()
    }
}

#[derive(Debug)]
pub struct SyncStatus {
    pub enabled: bool,
    pub last_sync: Option<i64>,
    pub habits_count: i64,
    pub checkins_count: i64,
    pub goals_count: i64,
}

pub struct SyncStatusView {
    pub enabled: bool,
    pub last_sync: Option<int>,
    pub habits_count: int,
    pub checkins_count: int,
    pub goals_count: int,
}

impl View for SyncStatus {
    type V = SyncStatusView;

    open spec fn view(&self) -> SyncStatusView {
        SyncStatusView {
            enabled: self.enabled,
            last_sync: match self.last_sync {
                Some(t) => Some(t as int),
                None => None,
            },
            habits_count: self.habits_count as int,
            checkins_count: self.checkins_count as int,
            goals_count: self.goals_count as int,
        }
    }
}

impl DeepView for SyncStatus {
    type V = SyncStatusView;

    open spec fn deep_view(&self) -> SyncStatusView {
        self.view()
    }
}

#[derive(Debug)]
pub struct CloudSyncResponse {
    pub enabled: bool,
    pub message: String,
}

pub struct CloudSyncResponseView {
    pub enabled: bool,
    pub message: Seq<char>,
}

impl View for CloudSyncResponse {
    type V = CloudSyncResponseView;

    open spec fn view(&self) -> CloudSyncResponseView {
        CloudSyncResponseView { enabled: self.enabled, message: self.message@ }
    }
}

impl DeepView for CloudSyncResponse {
    type V = CloudSyncResponseView;

    open spec fn deep_view(&self) -> CloudSyncResponseView {
        self.view()
    }
}

} // verus!
