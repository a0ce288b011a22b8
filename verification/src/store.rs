//! The entity store.
//!
//! The canonical per-user collections of habits, check-ins, goals and
//! goal-habit links, together with the user records that carry the
//! cloud-sync flag. Canonical ids are minted from a single counter, so an
//! id never repeats; the well-formedness predicate [`store_wf`] records
//! that, the natural-key invariants of check-ins and goal-habit links,
//! and that every stored calendar date is a real date.

use crate::dates::valid_date;
use crate::models::goal::{Goal, GoalHabit, GoalHabitView, GoalView};
use crate::models::habit::{CheckIn, CheckInView, Habit, HabitView};
use crate::models::user::{AuthProvider, User, UserView};
use vstd::prelude::*;

verus! {

/// Cap on the size of each collection, so that row counts fit the signed
/// 64-bit counters the status report uses.
pub const LEN_LIMIT: u64 = 0x7fff_ffff_ffff_ffff;

pub struct Store {
    pub users: Vec<User>,
    pub habits: Vec<Habit>,
    pub check_ins: Vec<CheckIn>,
    pub goals: Vec<Goal>,
    pub goal_habits: Vec<GoalHabit>,
    pub next_id: u64,
}

pub struct StoreView {
    pub users: Seq<UserView>,
    pub habits: Seq<HabitView>,
    pub check_ins: Seq<CheckInView>,
    pub goals: Seq<GoalView>,
    pub goal_habits: Seq<GoalHabitView>,
    pub next_id: int,
}

impl View for Store {
    type V = StoreView;

    open spec fn view(&self) -> StoreView {
        StoreView {
            users: self.users.deep_view(),
            habits: self.habits.deep_view(),
            check_ins: self.check_ins.deep_view(),
            goals: self.goals.deep_view(),
            goal_habits: self.goal_habits.deep_view(),
            next_id: self.next_id as int,
        }
    }
}

/// User ids are unique.
pub open spec fn users_wf(users: Seq<UserView>) -> bool {
    forall|i: int, j: int|
        0 <= i < j < users.len() ==> #[trigger] users[i].id != #[trigger] users[j].id
}

/// Every identifier in the store was minted: it is below the counter.
pub open spec fn ids_below(st: StoreView) -> bool {
    &&& 0 <= st.next_id
    &&& forall|i: int| 0 <= i < st.users.len() ==> #[trigger] st.users[i].id < st.next_id
    &&& forall|i: int| 0 <= i < st.habits.len() ==> #[trigger] st.habits[i].id < st.next_id
    &&& forall|i: int|
        0 <= i < st.check_ins.len() ==> (#[trigger] st.check_ins[i].id < st.next_id
            && st.check_ins[i].habit_id < st.next_id)
    &&& forall|i: int| 0 <= i < st.goals.len() ==> #[trigger] st.goals[i].id < st.next_id
    &&& forall|i: int|
        0 <= i < st.goal_habits.len() ==> (#[trigger] st.goal_habits[i].id < st.next_id
            && st.goal_habits[i].goal_id < st.next_id && st.goal_habits[i].habit_id < st.next_id)
}

/// Each entity collection has unique ids.
pub open spec fn entity_ids_unique(st: StoreView) -> bool {
    &&& forall|i: int, j: int|
        0 <= i < j < st.habits.len() ==> #[trigger] st.habits[i].id != #[trigger] st.habits[j].id
    &&& forall|i: int, j: int|
        0 <= i < j < st.check_ins.len() ==> #[trigger] st.check_ins[i].id
            != #[trigger] st.check_ins[j].id
    &&& forall|i: int, j: int|
        0 <= i < j < st.goals.len() ==> #[trigger] st.goals[i].id != #[trigger] st.goals[j].id
    &&& forall|i: int, j: int|
        0 <= i < j < st.goal_habits.len() ==> #[trigger] st.goal_habits[i].id
            != #[trigger] st.goal_habits[j].id
}

/// At most one check-in per (habit, effective date): the natural key.
pub open spec fn check_in_keys_unique(rows: Seq<CheckInView>) -> bool {
    forall|i: int, j: int|
        0 <= i < j < rows.len() ==> !(#[trigger] rows[i].habit_id == #[trigger] rows[j].habit_id
            && rows[i].effective_date == rows[j].effective_date)
}

/// At most one link per (goal, habit) pair: the natural key.
pub open spec fn link_keys_unique(rows: Seq<GoalHabitView>) -> bool {
    forall|i: int, j: int|
        0 <= i < j < rows.len() ==> !(#[trigger] rows[i].goal_id == #[trigger] rows[j].goal_id
            && rows[i].habit_id == rows[j].habit_id)
}

/// Every stored calendar date is a real date, so it can be rendered.
pub open spec fn dates_valid(st: StoreView) -> bool {
    &&& forall|i: int|
        0 <= i < st.check_ins.len() ==> valid_date(#[trigger] st.check_ins[i].effective_date)
    &&& forall|i: int| 0 <= i < st.goals.len() ==> valid_date(#[trigger] st.goals[i].deadline)
}

pub open spec fn lens_ok(st: StoreView) -> bool {
    &&& st.habits.len() <= LEN_LIMIT
    &&& st.check_ins.len() <= LEN_LIMIT
    &&& st.goals.len() <= LEN_LIMIT
    &&& st.goal_habits.len() <= LEN_LIMIT
}

/// The check-in at the given position references a habit row owned by
/// the same user.
pub open spec fn check_in_target_ok(st: StoreView, i: int) -> bool {
    exists|k: int|
        0 <= k < st.habits.len() && st.check_ins[i].habit_id == #[trigger] st.habits[k].id
            && st.check_ins[i].user_id == st.habits[k].user_id
}

/// Every check-in references a habit owned by the same user.
pub open spec fn check_in_refs_ok(st: StoreView) -> bool {
    forall|i: int| 0 <= i < st.check_ins.len() ==> #[trigger] check_in_target_ok(st, i)
}

/// The link at the given position references a goal row and a habit row
/// owned by one user.
pub open spec fn link_target_ok(st: StoreView, i: int) -> bool {
    exists|k: int, k2: int|
        0 <= k < st.goals.len() && 0 <= k2 < st.habits.len() && st.goal_habits[i].goal_id
            == #[trigger] st.goals[k].id && st.goal_habits[i].habit_id
            == #[trigger] st.habits[k2].id && st.goals[k].user_id == st.habits[k2].user_id
}

/// Every goal-habit link references a goal and a habit owned by one user.
pub open spec fn link_refs_ok(st: StoreView) -> bool {
    forall|i: int| 0 <= i < st.goal_habits.len() ==> #[trigger] link_target_ok(st, i)
}

pub open spec fn store_wf(st: StoreView) -> bool {
    &&& users_wf(st.users)
    &&& ids_below(st)
    &&& entity_ids_unique(st)
    &&& check_in_keys_unique(st.check_ins)
    &&& link_keys_unique(st.goal_habits)
    &&& dates_valid(st)
    &&& lens_ok(st)
}

/// The first user record with the given id, if any.
pub open spec fn spec_find_user_idx(users: Seq<UserView>, id: int) -> Option<int>
    decreases users.len(),
{
    if users.len() == 0 {
        None
    } else if users.first().id == id {
        Some(0)
    } else {
        match spec_find_user_idx(users.drop_first(), id) {
            Some(i) => Some(i + 1),
            None => None,
        }
    }
}

pub open spec fn spec_find_user(users: Seq<UserView>, id: int) -> Option<UserView> {
    match spec_find_user_idx(users, id) {
        Some(i) => Some(users[i]),
        None => None,
    }
}

pub proof fn lemma_find_user_idx_char(users: Seq<UserView>, id: int)
    ensures
        match spec_find_user_idx(users, id) {
            Some(i) => 0 <= i < users.len() && users[i].id == id && (forall|j: int|
                0 <= j < i ==> #[trigger] users[j].id != id),
            None => forall|j: int| 0 <= j < users.len() ==> #[trigger] users[j].id != id,
        },
    decreases users.len(),
{
    if users.len() > 0 && users.first().id != id {
        let rest = users.drop_first();
        lemma_find_user_idx_char(rest, id);
        match spec_find_user_idx(rest, id) {
            Some(i) => {
                assert(users[i + 1] == rest[i]);
                assert forall|j: int| 0 <= j < i + 1 implies #[trigger] users[j].id != id by {
                    if j > 0 {
                        assert(rest[j - 1] == users[j]);
                    }
                }
            },
            None => {
                assert forall|j: int| 0 <= j < users.len() implies #[trigger] users[j].id
                    != id by {
                    if j > 0 {
                        assert(rest[j - 1] == users[j]);
                    }
                }
            },
        }
    }
}

pub proof fn lemma_find_user_idx_at(users: Seq<UserView>, id: int, i: int)
    requires
        0 <= i < users.len(),
        users[i].id == id,
        forall|j: int| 0 <= j < i ==> #[trigger] users[j].id != id,
    ensures
        spec_find_user_idx(users, id) == Some(i),
    decreases users.len(),
{
    if i > 0 {
        lemma_find_user_idx_at(users.drop_first(), id, i - 1);
    }
}

pub proof fn lemma_find_user_idx_none(users: Seq<UserView>, id: int)
    requires
        forall|j: int| 0 <= j < users.len() ==> #[trigger] users[j].id != id,
    ensures
        spec_find_user_idx(users, id) is None,
    decreases users.len(),
{
    if users.len() > 0 {
        lemma_find_user_idx_none(users.drop_first(), id);
    }
}

impl Store {
    /// An empty store. The id counter starts at 1.
    pub fn new() -> (r: Store)
        ensures
            r@.users == Seq::<UserView>::empty(),
            r@.habits == Seq::<HabitView>::empty(),
            r@.check_ins == Seq::<CheckInView>::empty(),
            r@.goals == Seq::<GoalView>::empty(),
            r@.goal_habits == Seq::<GoalHabitView>::empty(),
            r@.next_id == 1,
            store_wf(r@),
    {
        let r = Store {
            users: Vec::new(),
            habits: Vec::new(),
            check_ins: Vec::new(),
            goals: Vec::new(),
            goal_habits: Vec::new(),
            next_id: 1,
        };
        proof {
            assert(r@.users =~= Seq::<UserView>::empty());
            assert(r@.habits =~= Seq::<HabitView>::empty());
            assert(r@.check_ins =~= Seq::<CheckInView>::empty());
            assert(r@.goals =~= Seq::<GoalView>::empty());
            assert(r@.goal_habits =~= Seq::<GoalHabitView>::empty());
        }
        r
    }

    /// Create a user record with a freshly minted canonical id. Cloud sync
    /// starts disabled.
    pub fn add_user(
        &mut self,
        email: String,
        name: Option<String>,
        avatar_url: Option<String>,
        provider: AuthProvider,
        provider_id: String,
        now: i64,
    ) -> (r: u64)
        requires
            store_wf(old(self)@),
            old(self)@.next_id < u64::MAX,
        ensures
            store_wf(final(self)@),
            r as int == old(self)@.next_id,
            final(self)@ == (StoreView {
                users: old(self)@.users.push(
                    UserView {
                        id: old(self)@.next_id,
                        email: email@,
                        name: name.deep_view(),
                        avatar_url: avatar_url.deep_view(),
                        provider: provider,
                        provider_id: provider_id@,
                        cloud_sync_enabled: false,
                        created_at: now as int,
                        updated_at: now as int,
                    },
                ),
                next_id: old(self)@.next_id + 1,
                ..old(self)@
            }),
    {
        let id = self.next_id;
        let user = User {
            id,
            email,
            name,
            avatar_url,
            provider,
            provider_id,
            cloud_sync_enabled: false,
            created_at: now,
            updated_at: now,
        };
        let ghost uv = user@;
        self.users.push(user);
        self.next_id = self.next_id + 1;
        proof {
            assert(self.users.deep_view() =~= old(self).users.deep_view().push(uv));
        }
        id
    }

    /// Index of the user record with the given id, if one exists.
    pub fn user_index(&self, user_id: u64) -> (r: Option<usize>)
        ensures
            match r {
                Some(i) => i < self.users.len() && spec_find_user_idx(self@.users, user_id as int)
                    == Some(i as int),
                None => spec_find_user_idx(self@.users, user_id as int) is None,
            },
    {
        let n = self.users.len();
        let mut i: usize = 0;
        while i < n
            invariant
                i <= n,
                n == self.users.len(),
                forall|j: int| 0 <= j < i ==> #[trigger] self@.users[j].id != user_id as int,
            decreases n - i,
        {
            if self.users[i].id == user_id {
                proof {
                    lemma_find_user_idx_at(self@.users, user_id as int, i as int);
                }
                return Some(i);
            }
            i = i + 1;
        }
        proof {
            lemma_find_user_idx_none(self@.users, user_id as int);
        }
        None
    }
}

} // verus!
