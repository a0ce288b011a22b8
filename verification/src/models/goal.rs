//! Goal models.
//!
//! A goal-habit link's contribution weight is carried as the raw 32-bit
//! encoding of the wire value; the engine stores and overwrites it but
//! never interprets it.

use crate::dates::Date;
use vstd::prelude::*;
use vstd::string::StringExecFns;

verus! {

#[derive(Clone, Copy, PartialEq, Eq, Structural, Debug)]
pub enum GoalStatus {
    Active,
    Achieved,
    Failed,
    Abandoned,
}

/// The store's label for a goal status.
pub open spec fn goal_status_label(s: GoalStatus) -> Seq<char> {
    match s {
        GoalStatus::Active => "active"@,
        GoalStatus::Achieved => "achieved"@,
        GoalStatus::Failed => "failed"@,
        GoalStatus::Abandoned => "abandoned"@,
    }
}

/// The goal status a label denotes, if any.
pub open spec fn spec_parse_goal_status(s: Seq<char>) -> Option<GoalStatus> {
    if s == "active"@ {
        Some(GoalStatus::Active)
    } else if s == "achieved"@ {
        Some(GoalStatus::Achieved)
    } else if s == "failed"@ {
        Some(GoalStatus::Failed)
    } else if s == "abandoned"@ {
        Some(GoalStatus::Abandoned)
    } else {
        None
    }
}

impl GoalStatus {
    pub fn parse(s: &String) -> (r: Option<GoalStatus>)
        ensures
            r == spec_parse_goal_status(s@),
    {
        let active = String::from_str("active");
        let achieved = String::from_str("achieved");
        let failed = String::from_str("failed");
        let abandoned = String::from_str("abandoned");
        if *s == active {
            Some(GoalStatus::Active)
        } else if *s == achieved {
            Some(GoalStatus::Achieved)
        } else if *s == failed {
            Some(GoalStatus::Failed)
        } else if *s == abandoned {
            Some(GoalStatus::Abandoned)
        } else {
            None
        }
    }

    pub fn label(&self) -> (r: String)
        ensures
            r@ == goal_status_label(*self),
    {
        match self {
            GoalStatus::Active => String::from_str("active"),
            GoalStatus::Achieved => String::from_str("achieved"),
            GoalStatus::Failed => String::from_str("failed"),
            GoalStatus::Abandoned => String::from_str("abandoned"),
        }
    }
}

#[derive(Debug)]
pub struct Goal {
    pub id: u64,
    pub user_id: u64,
    pub name: String,
    pub description: Option<String>,
    pub deadline: Date,
    pub status: GoalStatus,
    pub is_shared: bool,
    pub created_at: i64,
    pub updated_at: i64,
}

pub struct GoalView {
    pub id: int,
    pub user_id: int,
    pub name: Seq<char>,
    pub description: Option<Seq<char>>,
    pub deadline: (int, int, int),
    pub status: GoalStatus,
    pub is_shared: bool,
    pub created_at: int,
    pub updated_at: int,
}

impl View for Goal {
    type V = GoalView;

    open spec fn view(&self) -> GoalView {
        GoalView {
            id: self.id as int,
            user_id: self.user_id as int,
            name: self.name@,
            description: self.description.deep_view(),
            deadline: self.deadline@,
            status: self.status,
            is_shared: self.is_shared,
            created_at: self.created_at as int,
            updated_at: self.updated_at as int,
        }
    }
}

impl DeepView for Goal {
    type V = GoalView;

    open spec fn deep_view(&self) -> GoalView {
        self.view()
    }
}

#[derive(Debug)]
pub struct CreateGoalRequest {
    pub name: String,
    pub description: Option<String>,
    pub deadline: Date,
    pub habit_ids: Vec<u64>,
}

#[derive(Debug)]
pub struct UpdateGoalRequest {
    pub name: Option<String>,
    pub description: Option<String>,
    pub deadline: Option<Date>,
    pub status: Option<GoalStatus>,
}

#[derive(Debug)]
pub struct GoalHabit {
    pub id: u64,
    pub goal_id: u64,
    pub habit_id: u64,
    pub weight_bits: u32,
}

pub struct GoalHabitView {
    pub id: int,
    pub goal_id: int,
    pub habit_id: int,
    pub weight_bits: int,
}

impl View for GoalHabit {
    type V = GoalHabitView;

    open spec fn view(&self) -> GoalHabitView {
        GoalHabitView {
            id: self.id as int,
            goal_id: self.goal_id as int,
            habit_id: self.habit_id as int,
            weight_bits: self.weight_bits as int,
        }
    }
}

impl DeepView for GoalHabit {
    type V = GoalHabitView;

    open spec fn deep_view(&self) -> GoalHabitView {
        self.view()
    }
}

#[derive(Debug)]
pub struct LinkHabitRequest {
    pub habit_id: u64,
    pub weight_bits: Option<u32>,
}

} // verus!
