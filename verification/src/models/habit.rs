//! Habit models.
//!
//! Identifiers are canonical (server-minted) numeric ids; instants are
//! microsecond timestamps; calendar dates are [`Date`] values.

use crate::dates::Date;
use vstd::prelude::*;
use vstd::string::StringExecFns;

verus! {

#[derive(Clone, Copy, PartialEq, Eq, Structural, Debug)]
pub enum HabitType {
    Binary,
    Numeric,
}

#[derive(Clone, Copy, PartialEq, Eq, Structural, Debug)]
pub enum TargetDirection {
    AtLeast,
    AtMost,
    Exactly,
}

/// The store's label for a habit type.
pub open spec fn habit_type_label(t: HabitType) -> Seq<char> {
    match t {
        HabitType::Binary => "binary"@,
        HabitType::Numeric => "numeric"@,
    }
}

/// The habit type a label denotes, if any. Any other label is rejected by
/// the store.
pub open spec fn spec_parse_habit_type(s: Seq<char>) -> Option<HabitType> {
    if s == "binary"@ {
        Some(HabitType::Binary)
    } else if s == "numeric"@ {
        Some(HabitType::Numeric)
    } else {
        None
    }
}

/// The store's label for a target direction.
pub open spec fn target_direction_label(t: TargetDirection) -> Seq<char> {
    match t {
        TargetDirection::AtLeast => "at_least"@,
        TargetDirection::AtMost => "at_most"@,
        TargetDirection::Exactly => "exactly"@,
    }
}

/// The target direction a label denotes, if any.
pub open spec fn spec_parse_target_direction(s: Seq<char>) -> Option<TargetDirection> {
    if s == "at_least"@ {
        Some(TargetDirection::AtLeast)
    } else if s == "at_most"@ {
        Some(TargetDirection::AtMost)
    } else if s == "exactly"@ {
        Some(TargetDirection::Exactly)
    } else {
        None
    }
}

impl HabitType {
    pub fn parse(s: &String) -> (r: Option<HabitType>)
        ensures
            r == spec_parse_habit_type(s@),
    {
        let binary = String::from_str("binary");
        let numeric = String::from_str("numeric");
        if *s == binary {
            Some(HabitType::Binary)
        } else if *s == numeric {
            Some(HabitType::Numeric)
        } else {
            None
        }
    }

    pub fn label(&self) -> (r: String)
        ensures
            r@ == habit_type_label(*self),
    {
        match self {
            HabitType::Binary => String::from_str("binary"),
            HabitType::Numeric => String::from_str("numeric"),
        }
    }
}

impl TargetDirection {
    pub fn parse(s: &String) -> (r: Option<TargetDirection>)
        ensures
            r == spec_parse_target_direction(s@),
    {
        let at_least = String::from_str("at_least");
        let at_most = String::from_str("at_most");
        let exactly = String::from_str("exactly");
        if *s == at_least {
            Some(TargetDirection::AtLeast)
        } else if *s == at_most {
            Some(TargetDirection::AtMost)
        } else if *s == exactly {
            Some(TargetDirection::Exactly)
        } else {
            None
        }
    }

    pub fn label(&self) -> (r: String)
        ensures
            r@ == target_direction_label(*self),
    {
        match self {
            TargetDirection::AtLeast => String::from_str("at_least"),
            TargetDirection::AtMost => String::from_str("at_most"),
            TargetDirection::Exactly => String::from_str("exactly"),
        }
    }
}

#[derive(Debug)]
pub struct Habit {
    pub id: u64,
    pub user_id: u64,
    pub name: String,
    pub description: Option<String>,
    pub habit_type: HabitType,
    pub unit: Option<String>,
    pub target_value: Option<i32>,
    pub target_direction: TargetDirection,
    pub archived: bool,
    pub created_at: i64,
    pub updated_at: i64,
}

pub struct HabitView {
    pub id: int,
    pub user_id: int,
    pub name: Seq<char>,
    pub description: Option<Seq<char>>,
    pub habit_type: HabitType,
    pub unit: Option<Seq<char>>,
    pub target_value: Option<int>,
    pub target_direction: TargetDirection,
    pub archived: bool,
    pub created_at: int,
    pub updated_at: int,
}

impl View for Habit {
    type V = HabitView;

    open spec fn view(&self) -> HabitView {
        HabitView {
            id: self.id as int,
            user_id: self.user_id as int,
            name: self.name@,
            description: self.description.deep_view(),
            habit_type: self.habit_type,
            unit: self.unit.deep_view(),
            target_value: crate::views::opt_i32_view(self.target_value),
            target_direction: self.target_direction,
            archived: self.archived,
            created_at: self.created_at as int,
            updated_at: self.updated_at as int,
        }
    }
}

impl DeepView for Habit {
    type V = HabitView;

    open spec fn deep_view(&self) -> HabitView {
        self.view()
    }
}

#[derive(Debug)]
pub struct CreateHabitRequest {
    pub name: String,
    pub description: Option<String>,
    pub habit_type: HabitType,
    pub unit: Option<String>,
    pub target_value: Option<i32>,
    pub target_direction: Option<TargetDirection>,
}

#[derive(Debug)]
pub struct UpdateHabitRequest {
    pub name: Option<String>,
    pub description: Option<String>,
    pub unit: Option<String>,
    pub target_value: Option<i32>,
    pub target_direction: Option<TargetDirection>,
    pub archived: Option<bool>,
}

#[derive(Debug)]
pub struct CheckIn {
    pub id: u64,
    pub habit_id: u64,
    pub user_id: u64,
    pub value: i32,
    pub note: Option<String>,
    pub effective_date: Date,
    pub created_at: i64,
}

pub struct CheckInView {
    pub id: int,
    pub habit_id: int,
    pub user_id: int,
    pub value: int,
    pub note: Option<Seq<char>>,
    pub effective_date: (int, int, int),
    pub created_at: int,
}

impl View for CheckIn {
    type V = CheckInView;

    open spec fn view(&self) -> CheckInView {
        CheckInView {
            id: self.id as int,
            habit_id: self.habit_id as int,
            user_id: self.user_id as int,
            value: self.value as int,
            note: self.note.deep_view(),
            effective_date: self.effective_date@,
            created_at: self.created_at as int,
        }
    }
}

impl DeepView for CheckIn {
    type V = CheckInView;

    open spec fn deep_view(&self) -> CheckInView {
        self.view()
    }
}

#[derive(Debug)]
pub struct CreateCheckInRequest {
    pub habit_id: u64,
    pub value: i32,
    pub note: Option<String>,
    pub effective_date: Date,
}

#[derive(Debug)]
pub struct UpdateCheckInRequest {
    pub value: Option<i32>,
    pub note: Option<String>,
}

/// Reminder settings.
#[derive(Clone, Copy, PartialEq, Eq, Structural, Debug)]
pub enum ReminderType {
    Interval,
    Daily,
    Random,
}

#[derive(Debug)]
pub struct HabitReminder {
    pub id: u64,
    pub habit_id: u64,
    pub enabled: bool,
    pub reminder_type: ReminderType,
    pub interval_hours: Option<i32>,
    pub daily_time: Option<String>,
    pub random_window_start: Option<String>,
    pub random_window_end: Option<String>,
    pub created_at: i64,
    pub updated_at: i64,
}

} // verus!
