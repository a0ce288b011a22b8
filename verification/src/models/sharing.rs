//! Sharing models for collaborative goals.

use vstd::prelude::*;

verus! {

#[derive(Clone, Copy, PartialEq, Eq, Structural, Debug)]
pub enum ShareRole {
    Owner,
    Collaborator,
    Viewer,
}

#[derive(Clone, Copy, PartialEq, Eq, Structural, Debug)]
pub enum InviteStatus {
    Pending,
    Accepted,
    Declined,
    Expired,
}

/// A shared goal between multiple users.
#[derive(Debug)]
pub struct SharedGoal {
    pub id: u64,
    pub goal_id: u64,
    pub created_by: u64,
    pub invite_code: String,
    pub max_participants: i32,
    pub created_at: i64,
}

/// Participant in a shared goal.
#[derive(Debug)]
pub struct GoalParticipant {
    pub id: u64,
    pub shared_goal_id: u64,
    pub user_id: u64,
    pub role: ShareRole,
    pub joined_at: i64,
}

/// Invitation to join a shared goal.
#[derive(Debug)]
pub struct GoalInvite {
    pub id: u64,
    pub shared_goal_id: u64,
    pub inviter_id: u64,
    pub invitee_email: String,
    pub status: InviteStatus,
    pub created_at: i64,
    pub expires_at: i64,
}

#[derive(Debug)]
pub struct CreateSharedGoalRequest {
    pub goal_id: u64,
    pub max_participants: Option<i32>,
}

#[derive(Debug)]
pub struct SharedGoalResponse {
    pub id: u64,
    pub goal: crate::models::goal::Goal,
    pub invite_code: String,
    pub participants: Vec<ParticipantInfo>,
    pub created_at: i64,
}

#[derive(Debug)]
pub struct ParticipantInfo {
    pub user_id: u64,
    pub name: Option<String>,
    pub avatar_url: Option<String>,
    pub role: ShareRole,
    pub joined_at: i64,
}

#[derive(Debug)]
pub struct InviteUserRequest {
    pub email: String,
}

#[derive(Debug)]
pub struct JoinByCodeRequest {
    pub invite_code: String,
}

#[derive(Debug)]
pub struct InviteResponse {
    pub invite_id: u64,
    pub status: InviteStatus,
}

/// Activity feed item for shared goals.
#[derive(Debug)]
pub struct SharedActivity {
    pub id: u64,
    pub shared_goal_id: u64,
    pub user_id: u64,
    pub activity_type: ActivityType,
    pub habit_id: Option<u64>,
    pub check_in_id: Option<u64>,
    pub message: Option<String>,
    pub created_at: i64,
}

#[derive(Clone, Copy, PartialEq, Eq, Structural, Debug)]
pub enum ActivityType {
    CheckIn,
    StreakMilestone,
    GoalProgress,
    JoinedGoal,
    Encouragement,
}

#[derive(Debug)]
pub struct ActivityFeedItem {
    pub id: u64,
    pub user_name: Option<String>,
    pub user_avatar: Option<String>,
    pub activity_type: ActivityType,
    pub habit_name: Option<String>,
    pub message: Option<String>,
    pub created_at: i64,
}

} // verus!
