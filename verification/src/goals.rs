//! Goal allocations over date ranges.
//!
//! Allocations tie a percentage of an account to a goal between two dates
//! (ISO `YYYY-MM-DD` text, compared lexicographically, which agrees with
//! calendar order). The service answers which allocations are active on a
//! date and whether a new allocation would push an account past 100%.

use crate::strutil::{lex_le, spec_lex_le, str_eq};
use vstd::prelude::*;

verus! {

/// A savings goal. Rows are loaded by the caller from storage; the service
/// itself never performs I/O.
#[derive(Clone, Debug)]
pub struct Goal {
    pub id: String,
    pub title: String,
    pub start_date: Option<String>,
    pub due_date: Option<String>,
}

/// One account's percentage allocation to a goal over a date range.
#[derive(Clone, Debug)]
pub struct GoalsAllocation {
    pub id: String,
    pub goal_id: String,
    pub account_id: String,
    pub percent_allocation: i32,
    pub start_date: Option<String>,
    pub end_date: Option<String>,
}

/// The view of an optional date text.
pub open spec fn view_opt_str(o: Option<String>) -> Option<Seq<char>> {
    match o {
        Some(s) => Some(s@),
        None => None,
    }
}

/// The mathematical image of a goal.
pub ghost struct GoalData {
    pub id: Seq<char>,
    pub title: Seq<char>,
    pub start_date: Option<Seq<char>>,
    pub due_date: Option<Seq<char>>,
}

impl View for Goal {
    type V = GoalData;

    open spec fn view(&self) -> GoalData {
        GoalData {
            id: self.id@,
            title: self.title@,
            start_date: view_opt_str(self.start_date),
            due_date: view_opt_str(self.due_date),
        }
    }
}

/// The mathematical image of an allocation.
pub ghost struct AllocationData {
    pub id: Seq<char>,
    pub goal_id: Seq<char>,
    pub account_id: Seq<char>,
    pub percent_allocation: i32,
    pub start_date: Option<Seq<char>>,
    pub end_date: Option<Seq<char>>,
}

impl View for GoalsAllocation {
    type V = AllocationData;

    open spec fn view(&self) -> AllocationData {
        AllocationData {
            id: self.id@,
            goal_id: self.goal_id@,
            account_id: self.account_id@,
            percent_allocation: self.percent_allocation,
            start_date: view_opt_str(self.start_date),
            end_date: view_opt_str(self.end_date),
        }
    }
}

pub open spec fn deep_goals(s: Seq<Goal>) -> Seq<GoalData> {
    s.map_values(|g: Goal| g@)
}

pub open spec fn deep_allocs(s: Seq<GoalsAllocation>) -> Seq<AllocationData> {
    s.map_values(|a: GoalsAllocation| a@)
}

/// What the goal rules can reject.
#[derive(Clone, Debug, PartialEq)]
pub enum GoalError {
    /// The allocations active on an account over a period would exceed 100%.
    AllocationConflict { account_id: String, total_percent: i128 },
    /// A goal that progress is asked of has no start date.
    MissingStartDate,
    /// No goal with the given id.
    GoalNotFound(String),
    /// The goal has no allocation active on the queried date.
    NoActiveAllocations { goal_id: String, query_date: String },
}

/// Two closed date ranges share at least one day.
pub open spec fn spec_ranges_overlap(
    start1: Seq<char>,
    end1: Seq<char>,
    start2: Seq<char>,
    end2: Seq<char>,
) -> bool {
    spec_lex_le(start1, end2) && spec_lex_le(start2, end1)
}

/// Two closed date ranges overlap: each starts no later than the other ends.
pub fn ranges_overlap(start1: &str, end1: &str, start2: &str, end2: &str) -> (r: bool)
    ensures
        r == spec_ranges_overlap(start1@, end1@, start2@, end2@),
{
    lex_le(start1, end2) && lex_le(start2, end1)
}

/// `date` lies within the closed range `[start, end]`.
pub open spec fn spec_date_in_range(date: Seq<char>, start: Seq<char>, end: Seq<char>) -> bool {
    spec_lex_le(start, date) && spec_lex_le(date, end)
}

/// `date` lies within the closed range `[start, end]`.
pub fn date_in_range(date: &str, start: &str, end: &str) -> (r: bool)
    ensures
        r == spec_date_in_range(date@, start@, end@),
{
    lex_le(start, date) && lex_le(date, end)
}

/// The allocation has both dates and its range contains `query_date`.
pub open spec fn spec_active_on(a: AllocationData, query_date: Seq<char>) -> bool {
    match (a.start_date, a.end_date) {
        (Some(s), Some(e)) => spec_date_in_range(query_date, s, e),
        _ => false,
    }
}

/// An empty account filter selects every account.
pub open spec fn spec_account_matches(a: AllocationData, account_id: Seq<char>) -> bool {
    account_id.len() == 0 || a.account_id == account_id
}

/// The allocations of `account_id` (all accounts when empty) active on
/// `query_date`, in input order.
pub open spec fn spec_allocations_on_date(
    s: Seq<AllocationData>,
    account_id: Seq<char>,
    query_date: Seq<char>,
) -> Seq<AllocationData>
    decreases s.len(),
{
    if s.len() == 0 {
        Seq::empty()
    } else if spec_account_matches(s[0], account_id) && spec_active_on(s[0], query_date) {
        seq![s[0]] + spec_allocations_on_date(s.skip(1), account_id, query_date)
    } else {
        spec_allocations_on_date(s.skip(1), account_id, query_date)
    }
}

/// The allocations of one goal active on `query_date`, in input order.
pub open spec fn spec_goal_allocations_on_date(
    s: Seq<AllocationData>,
    goal_id: Seq<char>,
    query_date: Seq<char>,
) -> Seq<AllocationData>
    decreases s.len(),
{
    if s.len() == 0 {
        Seq::empty()
    } else if s[0].goal_id == goal_id && spec_active_on(s[0], query_date) {
        seq![s[0]] + spec_goal_allocations_on_date(s.skip(1), goal_id, query_date)
    } else {
        spec_goal_allocations_on_date(s.skip(1), goal_id, query_date)
    }
}

/// The allocations of one goal, in input order.
pub open spec fn spec_allocations_of_goal(
    s: Seq<AllocationData>,
    goal_id: Seq<char>,
) -> Seq<AllocationData>
    decreases s.len(),
{
    if s.len() == 0 {
        Seq::empty()
    } else if s[0].goal_id == goal_id {
        seq![s[0]] + spec_allocations_of_goal(s.skip(1), goal_id)
    } else {
        spec_allocations_of_goal(s.skip(1), goal_id)
    }
}

/// The allocation is counted against a new allocation on the same account
/// over `[new_start, new_end]`, unless it is the one being replaced.
pub open spec fn spec_counts_against(
    a: AllocationData,
    account_id: Seq<char>,
    new_start: Seq<char>,
    new_end: Seq<char>,
    exclude: Option<Seq<char>>,
) -> bool {
    &&& a.account_id == account_id
    &&& match (a.start_date, a.end_date) {
        (Some(s), Some(e)) => spec_ranges_overlap(s, e, new_start, new_end),
        _ => false,
    }
    &&& match exclude {
        Some(x) => a.id != x,
        None => true,
    }
}

/// Sum of the percentages that count against the new allocation.
pub open spec fn spec_conflicting_total(
    s: Seq<AllocationData>,
    account_id: Seq<char>,
    new_start: Seq<char>,
    new_end: Seq<char>,
    exclude: Option<Seq<char>>,
) -> int
    decreases s.len(),
{
    if s.len() == 0 {
        0
    } else {
        (if spec_counts_against(s[0], account_id, new_start, new_end, exclude) {
            s[0].percent_allocation as int
        } else {
            0
        }) + spec_conflicting_total(s.skip(1), account_id, new_start, new_end, exclude)
    }
}

/// The first goal with the given id.
pub open spec fn spec_find_goal(s: Seq<GoalData>, goal_id: Seq<char>) -> Option<GoalData>
    decreases s.len(),
{
    if s.len() == 0 {
        None
    } else if s[0].id == goal_id {
        Some(s[0])
    } else {
        spec_find_goal(s.skip(1), goal_id)
    }
}

/// An allocation with missing dates filled in from its goal.
pub open spec fn spec_backfill(a: AllocationData, goals: Seq<GoalData>) -> AllocationData {
    match spec_find_goal(goals, a.goal_id) {
        None => a,
        Some(g) => AllocationData {
            start_date: if a.start_date is None {
                g.start_date
            } else {
                a.start_date
            },
            end_date: if a.end_date is None {
                g.due_date
            } else {
                a.end_date
            },
            ..a
        },
    }
}

fn clone_opt_string(o: &Option<String>) -> (r: Option<String>)
    ensures
        view_opt_str(r) == view_opt_str(*o),
{
    match o {
        Some(s) => Some(s.clone()),
        None => None,
    }
}

/// A value-equal copy of an allocation.
pub fn clone_allocation(a: &GoalsAllocation) -> (r: GoalsAllocation)
    ensures
        r@ == a@,
{
    GoalsAllocation {
        id: a.id.clone(),
        goal_id: a.goal_id.clone(),
        account_id: a.account_id.clone(),
        percent_allocation: a.percent_allocation,
        start_date: clone_opt_string(&a.start_date),
        end_date: clone_opt_string(&a.end_date),
    }
}

/// A value-equal copy of a goal.
pub fn clone_goal(g: &Goal) -> (r: Goal)
    ensures
        r@ == g@,
{
    Goal {
        id: g.id.clone(),
        title: g.title.clone(),
        start_date: clone_opt_string(&g.start_date),
        due_date: clone_opt_string(&g.due_date),
    }
}

/// Date-range arithmetic over a snapshot of goals and their allocations for
/// goals not yet achieved. Storage is the caller's concern: it loads the
/// rows and persists what comes back.
pub struct GoalService {
    pub goals: Vec<Goal>,
    pub allocations: Vec<GoalsAllocation>,
}

impl GoalService {
    /// A service over the given snapshot.
    pub fn new(goals: Vec<Goal>, allocations: Vec<GoalsAllocation>) -> (r: GoalService)
        ensures
            r.goals@ == goals@,
            r.allocations@ == allocations@,
    {
        GoalService { goals, allocations }
    }

    /// The allocations of `account_id` (every account when it is empty)
    /// active on `query_date`.
    pub fn get_allocations_for_account_on_date(
        &self,
        account_id: &str,
        query_date: &str,
    ) -> (r: Vec<GoalsAllocation>)
        ensures
            deep_allocs(r@) == spec_allocations_on_date(
                deep_allocs(self.allocations@),
                account_id@,
                query_date@,
            ),
    {
        let ghost all = deep_allocs(self.allocations@);
        let mut out: Vec<GoalsAllocation> = Vec::new();
        let mut i: usize = 0;
        proof {
            assert(all.skip(0) =~= all);
            assert(deep_allocs(out@) =~= Seq::<AllocationData>::empty());
        }
        while i < self.allocations.len()
            invariant
                i <= self.allocations@.len(),
                all == deep_allocs(self.allocations@),
                deep_allocs(out@) + spec_allocations_on_date(
                    all.skip(i as int),
                    account_id@,
                    query_date@,
                ) == spec_allocations_on_date(all, account_id@, query_date@),
            decreases self.allocations@.len() - i,
        {
            let a = &self.allocations[i];
            let account_ok = account_id.unicode_len() == 0 || str_eq(a.account_id.as_str(),
                account_id);
            let active = match (&a.start_date, &a.end_date) {
                (Some(s), Some(e)) => date_in_range(query_date, s.as_str(), e.as_str()),
                _ => false,
            };
            proof {
                assert(all.skip(i as int)[0] == all[i as int]);
                assert(all[i as int] == self.allocations@[i as int]@);
                assert(all.skip(i as int).skip(1) =~= all.skip(i as int + 1));
            }
            if account_ok && active {
                let c = clone_allocation(a);
                proof {
                    assert(deep_allocs(out@.push(c)) =~= deep_allocs(out@).push(c@));
                    assert(deep_allocs(out@).push(all[i as int]) + spec_allocations_on_date(
                        all.skip(i as int + 1),
                        account_id@,
                        query_date@,
                    ) =~= deep_allocs(out@) + (seq![all[i as int]] + spec_allocations_on_date(
                        all.skip(i as int + 1),
                        account_id@,
                        query_date@,
                    )));
                }
                out.push(c);
            }
            i += 1;
        }
        proof {
            assert(all.skip(self.allocations@.len() as int) =~= Seq::<AllocationData>::empty());
            assert(deep_allocs(out@) + Seq::<AllocationData>::empty() =~= deep_allocs(out@));
        }
        out
    }

    /// Whether adding `new_percent_allocation` on `account_id` over
    /// `[new_start_date, new_end_date]` keeps every overlapping total at or
    /// under 100%. `exclude_allocation_id` names an allocation being
    /// replaced, which is not counted.
    pub fn validate_allocation_conflicts(
        &self,
        account_id: &str,
        new_start_date: &str,
        new_end_date: &str,
        new_percent_allocation: i32,
        exclude_allocation_id: Option<&str>,
    ) -> (r: Result<(), GoalError>)
        ensures
            r is Ok <==> new_percent_allocation as int + spec_conflicting_total(
                deep_allocs(self.allocations@),
                account_id@,
                new_start_date@,
                new_end_date@,
                spec_exclude_view(exclude_allocation_id),
            ) <= 100,
            r matches Err(e) ==> (e matches GoalError::AllocationConflict {
                account_id: a,
                total_percent: t,
            } && a@ == account_id@ && t as int == new_percent_allocation as int
                + spec_conflicting_total(
                deep_allocs(self.allocations@),
                account_id@,
                new_start_date@,
                new_end_date@,
                spec_exclude_view(exclude_allocation_id),
            )),
    {
        let ghost all = deep_allocs(self.allocations@);
        let ghost excl = spec_exclude_view(exclude_allocation_id);
        let mut total: i128 = new_percent_allocation as i128;
        let mut i: usize = 0;
        proof {
            assert(all.skip(0) =~= all);
        }
        while i < self.allocations.len()
            invariant
                i <= self.allocations@.len(),
                all == deep_allocs(self.allocations@),
                excl == spec_exclude_view(exclude_allocation_id),
                total as int + spec_conflicting_total(
                    all.skip(i as int),
                    account_id@,
                    new_start_date@,
                    new_end_date@,
                    excl,
                ) == new_percent_allocation as int + spec_conflicting_total(
                    all,
                    account_id@,
                    new_start_date@,
                    new_end_date@,
                    excl,
                ),
                -0x8000_0000i128 * (i as i128 + 1) <= total <= 0x8000_0000i128 * (i as i128 + 1),
            decreases self.allocations@.len() - i,
        {
            let a = &self.allocations[i];
            proof {
                assert(all.skip(i as int)[0] == all[i as int]);
                assert(all[i as int] == self.allocations@[i as int]@);
                assert(all.skip(i as int).skip(1) =~= all.skip(i as int + 1));
            }
            let counts = if !str_eq(a.account_id.as_str(), account_id) {
                false
            } else {
                let overlaps = match (&a.start_date, &a.end_date) {
                    (Some(s), Some(e)) => ranges_overlap(
                        s.as_str(),
                        e.as_str(),
                        new_start_date,
                        new_end_date,
                    ),
                    _ => false,
                };
                if !overlaps {
                    false
                } else {
                    match exclude_allocation_id {
                        Some(x) => !str_eq(a.id.as_str(), x),
                        None => true,
                    }
                }
            };
            if counts {
                total = total + a.percent_allocation as i128;
            }
            i += 1;
        }
        proof {
            assert(all.skip(self.allocations@.len() as int) =~= Seq::<AllocationData>::empty());
        }
        if total > 100 {
            Err(
                GoalError::AllocationConflict {
                    account_id: String::from_str(account_id),
                    total_percent: total,
                },
            )
        } else {
            Ok(())
        }
    }

    /// The allocations of `goal_id` active on `query_date`.
    pub fn get_goal_allocations_on_date(&self, goal_id: &str, query_date: &str) -> (r: Vec<
        GoalsAllocation,
    >)
        ensures
            deep_allocs(r@) == spec_goal_allocations_on_date(
                deep_allocs(self.allocations@),
                goal_id@,
                query_date@,
            ),
    {
        let ghost all = deep_allocs(self.allocations@);
        let mut out: Vec<GoalsAllocation> = Vec::new();
        let mut i: usize = 0;
        proof {
            assert(all.skip(0) =~= all);
            assert(deep_allocs(out@) =~= Seq::<AllocationData>::empty());
        }
        while i < self.allocations.len()
            invariant
                i <= self.allocations@.len(),
                all == deep_allocs(self.allocations@),
                deep_allocs(out@) + spec_goal_allocations_on_date(
                    all.skip(i as int),
                    goal_id@,
                    query_date@,
                ) == spec_goal_allocations_on_date(all, goal_id@, query_date@),
            decreases self.allocations@.len() - i,
        {
            let a = &self.allocations[i];
            let goal_ok = str_eq(a.goal_id.as_str(), goal_id);
            let active = match (&a.start_date, &a.end_date) {
                (Some(s), Some(e)) => date_in_range(query_date, s.as_str(), e.as_str()),
                _ => false,
            };
            proof {
                assert(all.skip(i as int)[0] == all[i as int]);
                assert(all[i as int] == self.allocations@[i as int]@);
                assert(all.skip(i as int).skip(1) =~= all.skip(i as int + 1));
            }
            if goal_ok && active {
                let c = clone_allocation(a);
                proof {
                    assert(deep_allocs(out@.push(c)) =~= deep_allocs(out@).push(c@));
                    assert(deep_allocs(out@).push(all[i as int]) + spec_goal_allocations_on_date(
                        all.skip(i as int + 1),
                        goal_id@,
                        query_date@,
                    ) =~= deep_allocs(out@) + (seq![all[i as int]]
                        + spec_goal_allocations_on_date(
                        all.skip(i as int + 1),
                        goal_id@,
                        query_date@,
                    )));
                }
                out.push(c);
            }
            i += 1;
        }
        proof {
            assert(all.skip(self.allocations@.len() as int) =~= Seq::<AllocationData>::empty());
            assert(deep_allocs(out@) + Seq::<AllocationData>::empty() =~= deep_allocs(out@));
        }
        out
    }

    /// The first goal with the given id.
    pub fn find_goal(&self, goal_id: &str) -> (r: Option<Goal>)
        ensures
            match r {
                Some(g) => spec_find_goal(deep_goals(self.goals@), goal_id@) == Some(g@),
                None => spec_find_goal(deep_goals(self.goals@), goal_id@) is None,
            },
    {
        let ghost all = deep_goals(self.goals@);
        let mut i: usize = 0;
        proof {
            assert(all.skip(0) =~= all);
        }
        while i < self.goals.len()
            invariant
                i <= self.goals@.len(),
                all == deep_goals(self.goals@),
                spec_find_goal(all.skip(i as int), goal_id@) == spec_find_goal(all, goal_id@),
            decreases self.goals@.len() - i,
        {
            proof {
                assert(all.skip(i as int)[0] == all[i as int]);
                assert(all[i as int] == self.goals@[i as int]@);
                assert(all.skip(i as int).skip(1) =~= all.skip(i as int + 1));
            }
            if str_eq(self.goals[i].id.as_str(), goal_id) {
                return Some(clone_goal(&self.goals[i]));
            }
            i += 1;
        }
        proof {
            assert(all.skip(self.goals@.len() as int) =~= Seq::<GoalData>::empty());
        }
        None
    }

    /// The goal and its allocations active on `query_date`, or why progress
    /// cannot be reported: the goal is unknown, or nothing is allocated to
    /// it on that date.
    pub fn progress_allocations(&self, goal_id: &str, query_date: &str) -> (r: Result<
        (Goal, Vec<GoalsAllocation>),
        GoalError,
    >)
        ensures
            match spec_find_goal(deep_goals(self.goals@), goal_id@) {
                None => r matches Err(e) && (e matches GoalError::GoalNotFound(g) && g@
                    == goal_id@),
                Some(gd) => {
                    let active = spec_goal_allocations_on_date(
                        deep_allocs(self.allocations@),
                        goal_id@,
                        query_date@,
                    );
                    if active.len() == 0 {
                        r matches Err(e) && (e matches GoalError::NoActiveAllocations {
                            goal_id: g,
                            query_date: q,
                        } && g@ == goal_id@ && q@ == query_date@)
                    } else {
                        r matches Ok(p) && p.0@ == gd && deep_allocs(p.1@) == active
                    }
                },
            },
    {
        let goal = match self.find_goal(goal_id) {
            Some(g) => g,
            None => {
                return Err(GoalError::GoalNotFound(String::from_str(goal_id)));
            },
        };
        let active = self.get_goal_allocations_on_date(goal_id, query_date);
        if active.len() == 0 {
            return Err(
                GoalError::NoActiveAllocations {
                    goal_id: String::from_str(goal_id),
                    query_date: String::from_str(query_date),
                },
            );
        }
        Ok((goal, active))
    }

    /// Allocations with missing dates filled in from their goals: a missing
    /// start date becomes the goal's start date, a missing end date the
    /// goal's due date.
    pub fn backfill_allocation_dates(&self, allocations: &Vec<GoalsAllocation>) -> (r: Vec<
        GoalsAllocation,
    >)
        ensures
            r@.len() == allocations@.len(),
            forall|j: int|
                0 <= j < allocations@.len() ==> r@[j]@ == spec_backfill(
                    allocations@[j]@,
                    deep_goals(self.goals@),
                ),
    {
        let mut out: Vec<GoalsAllocation> = Vec::new();
        let mut i: usize = 0;
        while i < allocations.len()
            invariant
                i <= allocations@.len(),
                out@.len() == i,
                forall|j: int|
                    0 <= j < i ==> out@[j]@ == spec_backfill(
                        allocations@[j]@,
                        deep_goals(self.goals@),
                    ),
            decreases allocations@.len() - i,
        {
            let mut a = clone_allocation(&allocations[i]);
            match self.find_goal(a.goal_id.as_str()) {
                Some(g) => {
                    if a.start_date.is_none() {
                        a.start_date = clone_opt_string(&g.start_date);
                    }
                    if a.end_date.is_none() {
                        a.end_date = clone_opt_string(&g.due_date);
                    }
                },
                None => {},
            }
            out.push(a);
            i += 1;
        }
        out
    }
}

/// The view of an optional excluded allocation id.
pub open spec fn spec_exclude_view(o: Option<&str>) -> Option<Seq<char>> {
    match o {
        Some(s) => Some(s@),
        None => None,
    }
}

/// The allocations that belong to one goal, in input order.
pub fn filter_allocations_by_goal(
    allocations: &Vec<GoalsAllocation>,
    goal_id: &str,
) -> (r: Vec<GoalsAllocation>)
    ensures
        deep_allocs(r@) == spec_allocations_of_goal(deep_allocs(allocations@), goal_id@),
{
    let ghost all = deep_allocs(allocations@);
    let mut out: Vec<GoalsAllocation> = Vec::new();
    let mut i: usize = 0;
    proof {
        assert(all.skip(0) =~= all);
        assert(deep_allocs(out@) =~= Seq::<AllocationData>::empty());
    }
    while i < allocations.len()
        invariant
            i <= allocations@.len(),
            all == deep_allocs(allocations@),
            deep_allocs(out@) + spec_allocations_of_goal(all.skip(i as int), goal_id@)
                == spec_allocations_of_goal(all, goal_id@),
        decreases allocations@.len() - i,
    {
        let a = &allocations[i];
        proof {
            assert(all.skip(i as int)[0] == all[i as int]);
            assert(all[i as int] == allocations@[i as int]@);
            assert(all.skip(i as int).skip(1) =~= all.skip(i as int + 1));
        }
        if str_eq(a.goal_id.as_str(), goal_id) {
            let c = clone_allocation(a);
            proof {
                assert(deep_allocs(out@.push(c)) =~= deep_allocs(out@).push(c@));
                assert(deep_allocs(out@).push(all[i as int]) + spec_allocations_of_goal(
                    all.skip(i as int + 1),
                    goal_id@,
                ) =~= deep_allocs(out@) + (seq![all[i as int]] + spec_allocations_of_goal(
                    all.skip(i as int + 1),
                    goal_id@,
                )));
            }
            out.push(c);
        }
        i += 1;
    }
    proof {
        assert(all.skip(allocations@.len() as int) =~= Seq::<AllocationData>::empty());
        assert(deep_allocs(out@) + Seq::<AllocationData>::empty() =~= deep_allocs(out@));
    }
    out
}

} // verus!
