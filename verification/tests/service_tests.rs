//! Behavior of the goal service over concrete snapshots, and of the
//! reference-data row builder.

use wealthvn_core::assets::NewVnAsset;
use wealthvn_core::goals::{Goal, GoalError, GoalService, GoalsAllocation, filter_allocations_by_goal};

fn row(
    id: &str,
    goal_id: &str,
    account_id: &str,
    percent: i32,
    start: Option<&str>,
    end: Option<&str>,
) -> GoalsAllocation {
    GoalsAllocation {
        id: id.to_string(),
        goal_id: goal_id.to_string(),
        account_id: account_id.to_string(),
        percent_allocation: percent,
        start_date: start.map(|s| s.to_string()),
        end_date: end.map(|s| s.to_string()),
    }
}

fn goal(id: &str, title: &str, start: Option<&str>, due: Option<&str>) -> Goal {
    Goal {
        id: id.to_string(),
        title: title.to_string(),
        start_date: start.map(|s| s.to_string()),
        due_date: due.map(|s| s.to_string()),
    }
}

#[test]
fn conflict_validation_accepts_at_most_100_percent() {
    let service = GoalService::new(
        vec![],
        vec![
            row("a1", "g1", "acc-1", 60, Some("2025-01-01"), Some("2025-06-30")),
            row("a2", "g1", "acc-2", 90, Some("2025-01-01"), Some("2025-06-30")),
        ],
    );
    // 60 (overlapping, same account) + 40 == 100: allowed.
    assert!(service
        .validate_allocation_conflicts("acc-1", "2025-03-01", "2025-04-01", 40, None)
        .is_ok());
    // 60 + 50 == 110: rejected, and the error carries the total.
    match service.validate_allocation_conflicts("acc-1", "2025-03-01", "2025-04-01", 50, None) {
        Err(GoalError::AllocationConflict {
            account_id,
            total_percent,
        }) => {
            assert_eq!(account_id, "acc-1");
            assert_eq!(total_percent, 110);
        }
        other => panic!("expected a conflict, got {:?}", other),
    }
    // Non-overlapping range on the same account: only the new 90 counts.
    assert!(service
        .validate_allocation_conflicts("acc-1", "2025-08-01", "2025-09-01", 90, None)
        .is_ok());
    // Replacing a1 excludes it from the sum.
    assert!(service
        .validate_allocation_conflicts("acc-1", "2025-03-01", "2025-04-01", 100, Some("a1"))
        .is_ok());
}

#[test]
fn allocations_for_account_filters_by_account_and_date() {
    let service = GoalService::new(
        vec![],
        vec![
            row("a1", "g1", "acc-1", 50, Some("2025-01-01"), Some("2025-06-30")),
            row("a2", "g1", "acc-2", 50, Some("2025-01-01"), Some("2025-06-30")),
            row("a3", "g2", "acc-1", 30, Some("2025-07-01"), Some("2025-12-31")),
            row("a4", "g2", "acc-1", 30, None, Some("2025-12-31")),
        ],
    );
    let active = service.get_allocations_for_account_on_date("acc-1", "2025-03-01");
    assert_eq!(active.len(), 1);
    assert_eq!(active[0].id, "a1");
    // The empty account id selects every account.
    let all_active = service.get_allocations_for_account_on_date("", "2025-03-01");
    assert_eq!(all_active.len(), 2);
    assert_eq!(all_active[0].id, "a1");
    assert_eq!(all_active[1].id, "a2");
}

#[test]
fn goal_allocations_on_date_requires_both_dates() {
    let service = GoalService::new(
        vec![],
        vec![
            row("a1", "g1", "acc-1", 50, Some("2025-01-01"), Some("2025-06-30")),
            row("a2", "g1", "acc-1", 50, None, None),
            row("a3", "g2", "acc-1", 50, Some("2025-01-01"), Some("2025-06-30")),
        ],
    );
    let active = service.get_goal_allocations_on_date("g1", "2025-01-01");
    assert_eq!(active.len(), 1);
    assert_eq!(active[0].id, "a1");
    assert!(service.get_goal_allocations_on_date("g1", "2025-07-01").is_empty());
}

#[test]
fn progress_allocations_reports_each_failure() {
    let service = GoalService::new(
        vec![goal("g1", "house", Some("2025-01-01"), Some("2025-12-31"))],
        vec![row("a1", "g1", "acc-1", 100, Some("2025-01-01"), Some("2025-06-30"))],
    );
    match service.progress_allocations("missing", "2025-02-01") {
        Err(GoalError::GoalNotFound(id)) => assert_eq!(id, "missing"),
        other => panic!("expected GoalNotFound, got {:?}", other),
    }
    match service.progress_allocations("g1", "2025-08-01") {
        Err(GoalError::NoActiveAllocations {
            goal_id,
            query_date,
        }) => {
            assert_eq!(goal_id, "g1");
            assert_eq!(query_date, "2025-08-01");
        }
        other => panic!("expected NoActiveAllocations, got {:?}", other),
    }
    let (g, active) = service.progress_allocations("g1", "2025-02-01").unwrap();
    assert_eq!(g.title, "house");
    assert_eq!(active.len(), 1);
    assert_eq!(active[0].id, "a1");
}

#[test]
fn backfill_fills_only_missing_dates_from_the_goal() {
    let service = GoalService::new(
        vec![goal("g1", "house", Some("2025-01-01"), Some("2025-12-31"))],
        vec![],
    );
    let rows = vec![
        row("a1", "g1", "acc-1", 50, None, None),
        row("a2", "g1", "acc-1", 50, Some("2025-03-01"), None),
        row("a3", "unknown", "acc-1", 50, None, None),
    ];
    let filled = service.backfill_allocation_dates(&rows);
    assert_eq!(filled[0].start_date.as_deref(), Some("2025-01-01"));
    assert_eq!(filled[0].end_date.as_deref(), Some("2025-12-31"));
    assert_eq!(filled[1].start_date.as_deref(), Some("2025-03-01"));
    assert_eq!(filled[1].end_date.as_deref(), Some("2025-12-31"));
    assert_eq!(filled[2].start_date, None);
    assert_eq!(filled[2].end_date, None);
}

#[test]
fn filter_by_goal_keeps_input_order() {
    let rows = vec![
        row("a1", "g1", "acc-1", 10, None, None),
        row("a2", "g2", "acc-1", 20, None, None),
        row("a3", "g1", "acc-2", 30, None, None),
    ];
    let mine = filter_allocations_by_goal(&rows, "g1");
    assert_eq!(mine.len(), 2);
    assert_eq!(mine[0].id, "a1");
    assert_eq!(mine[1].id, "a3");
}

#[test]
fn new_asset_rows_carry_the_local_currency_and_a_symbol_prefixed_id() {
    let row = NewVnAsset::new(
        "VNM".to_string(),
        "Vinamilk".to_string(),
        "STOCK".to_string(),
        "HOSE".to_string(),
    );
    assert_eq!(row.currency, "VND");
    assert_eq!(row.symbol, "VNM");
    assert!(row.id.starts_with("VNM-"));
    assert!(row.id.len() > "VNM".len());
}
