//! Behavior tests for the registry's laws and edge cases: gate order,
//! audit-trail shape, the automatic funding transition, pagination clamps,
//! statistics, and every abort kind.

use need_reports::Identity;
use need_reports::NeedReportsContract;
use need_reports::RegistryError;

const NOW: u64 = 1_700_000_000;

const ADMIN: Identity = Identity(1);
const CREATOR: Identity = Identity(2);
const STRANGER: Identity = Identity(3);

fn seeded_registry() -> NeedReportsContract {
    let mut registry = NeedReportsContract::new();
    registry.initialize(vec![ADMIN]).unwrap();
    registry
        .create_report(
            CREATOR,
            true,
            "Water Well".to_string(),
            "A well for the village".to_string(),
            "North Village".to_string(),
            "Infrastructure".to_string(),
            5000,
            vec!["https://images.example/well.jpg".to_string()],
            NOW,
        )
        .unwrap();
    registry
}

#[test]
fn identifiers_count_up_from_one_without_gaps() {
    let mut registry = NeedReportsContract::new();
    registry.initialize(vec![ADMIN]).unwrap();
    for expected in 1..=5u64 {
        let id = registry
            .create_report(
                CREATOR,
                true,
                format!("Report {}", expected),
                "d".to_string(),
                "l".to_string(),
                "c".to_string(),
                100,
                Vec::new(),
                NOW,
            )
            .unwrap();
        assert_eq!(id, expected);
    }
    let all = registry.get_all_reports(1, 5);
    assert_eq!(all.len(), 5);
    for (i, report) in all.iter().enumerate() {
        assert_eq!(report.id, i as u64 + 1);
    }
}

#[test]
fn fresh_report_state_after_creation() {
    let registry = seeded_registry();
    let report = registry.get_report(1).unwrap();
    assert_eq!(report.id, 1);
    assert_eq!(report.creator, CREATOR);
    assert_eq!(report.status, "pending");
    assert_eq!(report.amount_raised, 0);
    assert_eq!(report.created_at, report.updated_at);
    assert_eq!(report.verification_notes, "");
    assert_eq!(report.image_urls, vec!["https://images.example/well.jpg".to_string()]);
}

#[test]
fn unauthorized_update_aborts_and_changes_nothing() {
    let mut registry = seeded_registry();
    let before = registry.get_report(1).unwrap();
    let log_before = registry.get_change_log(1);
    let denied = registry.update_report(
        1,
        STRANGER,
        true,
        Some("Hijacked".to_string()),
        None,
        None,
        None,
        None,
        None,
        "no reason".to_string(),
        NOW + 5,
    );
    assert_eq!(denied, Err(RegistryError::AuthorizationFailure));
    let after = registry.get_report(1).unwrap();
    assert_eq!(after.title, before.title);
    assert_eq!(after.updated_at, before.updated_at);
    let log_after = registry.get_change_log(1);
    assert_eq!(log_after.len(), log_before.len());
}

#[test]
fn unauthenticated_calls_abort_before_any_state_change() {
    let mut registry = seeded_registry();
    let denied = registry.create_report(
        CREATOR,
        false,
        "t".to_string(),
        "d".to_string(),
        "l".to_string(),
        "c".to_string(),
        1,
        Vec::new(),
        NOW,
    );
    assert_eq!(denied, Err(RegistryError::AuthenticationFailure));
    let denied = registry.update_report(
        1,
        CREATOR,
        false,
        Some("t".to_string()),
        None,
        None,
        None,
        None,
        None,
        "r".to_string(),
        NOW,
    );
    assert_eq!(denied, Err(RegistryError::AuthenticationFailure));
    let denied = registry.update_status(
        1,
        ADMIN,
        false,
        "verified".to_string(),
        "n".to_string(),
        NOW,
    );
    assert_eq!(denied, Err(RegistryError::AuthenticationFailure));
    let denied = registry.update_amount_raised(1, 10, ADMIN, false, NOW);
    assert_eq!(denied, Err(RegistryError::AuthenticationFailure));
    let denied = registry.add_admin(ADMIN, false, STRANGER);
    assert_eq!(denied, Err(RegistryError::AuthenticationFailure));
    assert_eq!(registry.get_stats().total_reports, 1);
    assert_eq!(registry.get_change_log(1).len(), 1);
}

#[test]
fn update_logs_one_entry_per_supplied_field() {
    let mut registry = seeded_registry();
    let before = registry.get_change_log(1).len();
    let ok = registry
        .update_report(
            1,
            CREATOR,
            true,
            Some("Water Well".to_string()), // same value as stored: still logged
            Some("Deeper well".to_string()),
            None,
            None,
            Some(7000),
            None,
            "refined scope".to_string(),
            NOW + 10,
        )
        .unwrap();
    assert!(ok);
    let log = registry.get_change_log(1);
    assert_eq!(log.len(), before + 3);
    for entry in &log[before..] {
        assert_eq!(entry.reason, "refined scope");
        assert_eq!(entry.timestamp, NOW + 10);
        assert_eq!(entry.changed_by, CREATOR);
        assert_eq!(entry.report_id, 1);
    }
    assert_eq!(log[before].field_changed, "title");
    assert_eq!(log[before].old_value, "Water Well");
    assert_eq!(log[before].new_value, "Water Well");
    assert_eq!(log[before + 1].field_changed, "description");
    assert_eq!(log[before + 1].old_value, "[description_updated]");
    assert_eq!(log[before + 1].new_value, "[new_description]");
    assert_eq!(log[before + 2].field_changed, "amount_needed");
    assert_eq!(log[before + 2].old_value, "amount_updated");
    assert_eq!(log[before + 2].new_value, "new_amount");
}

#[test]
fn funding_transition_fires_only_from_verified() {
    let mut registry = seeded_registry();
    // Reaching the goal while still "pending" must not change the status.
    let ok = registry.update_amount_raised(1, 5000, ADMIN, true, NOW + 1).unwrap();
    assert!(ok);
    assert_eq!(registry.get_report(1).unwrap().status, "pending");

    registry
        .update_status(1, ADMIN, true, "verified".to_string(), "checked".to_string(), NOW + 2)
        .unwrap();
    // Below the goal: stays "verified".
    registry.update_amount_raised(1, 4999, ADMIN, true, NOW + 3).unwrap();
    assert_eq!(registry.get_report(1).unwrap().status, "verified");
    // Reaching the goal from "verified": becomes "funded".
    registry.update_amount_raised(1, 5000, ADMIN, true, NOW + 4).unwrap();
    let report = registry.get_report(1).unwrap();
    assert_eq!(report.status, "funded");
    assert_eq!(report.amount_raised, 5000);
    // The donation entries carry the fixed reason.
    let log = registry.get_change_log(1);
    let last = log.last().unwrap();
    assert_eq!(last.field_changed, "amount_raised");
    assert_eq!(last.old_value, "amount_updated");
    assert_eq!(last.new_value, "new_amount_raised");
    assert_eq!(last.reason, "Donation received");
}

#[test]
fn pagination_clamps_offset_and_limit() {
    let mut registry = NeedReportsContract::new();
    registry.initialize(vec![ADMIN]).unwrap();
    for n in 1..=4u64 {
        registry
            .create_report(
                CREATOR,
                true,
                format!("Report {}", n),
                "d".to_string(),
                "l".to_string(),
                "c".to_string(),
                100,
                Vec::new(),
                NOW,
            )
            .unwrap();
    }
    // Offset past the stored range: empty.
    assert!(registry.get_all_reports(5, 10).is_empty());
    // Offset 1, limit = total: everything, ascending.
    let all = registry.get_all_reports(1, 4);
    let ids: Vec<u64> = all.iter().map(|r| r.id).collect();
    assert_eq!(ids, vec![1, 2, 3, 4]);
    // Offset 0 is clamped up to 1.
    assert_eq!(registry.get_all_reports(0, 2).len(), 2);
    // A window in the middle.
    let page = registry.get_all_reports(2, 2);
    let ids: Vec<u64> = page.iter().map(|r| r.id).collect();
    assert_eq!(ids, vec![2, 3]);
    // Limit 0: empty.
    assert!(registry.get_all_reports(1, 0).is_empty());
    // Limit past the end is clamped down.
    assert_eq!(registry.get_all_reports(3, 100).len(), 2);
}

#[test]
fn stats_sum_amounts_and_count_statuses() {
    let mut registry = NeedReportsContract::new();
    registry.initialize(vec![ADMIN]).unwrap();
    for (title, amount) in [("Report 1", 1000u64), ("Report 2", 2000u64), ("Report 3", 600u64)] {
        registry
            .create_report(
                CREATOR,
                true,
                title.to_string(),
                "d".to_string(),
                "l".to_string(),
                "c".to_string(),
                amount,
                Vec::new(),
                NOW,
            )
            .unwrap();
    }
    registry
        .update_status(2, ADMIN, true, "verified".to_string(), "n".to_string(), NOW + 1)
        .unwrap();
    registry.update_amount_raised(2, 2500, ADMIN, true, NOW + 2).unwrap();
    registry
        .update_status(3, ADMIN, true, "rejected".to_string(), "n".to_string(), NOW + 3)
        .unwrap();
    let stats = registry.get_stats();
    assert_eq!(stats.total_reports, 3);
    assert_eq!(stats.pending_reports, 1);
    assert_eq!(stats.verified_reports, 0);
    assert_eq!(stats.funded_reports, 1);
    assert_eq!(stats.completed_reports, 0);
    assert_eq!(stats.total_amount_needed, 3600);
    assert_eq!(stats.total_amount_raised, 2500);
}

#[test]
fn change_log_keeps_creation_then_update_order() {
    let mut registry = seeded_registry();
    registry
        .update_report(
            1,
            CREATOR,
            true,
            Some("Better Water Well".to_string()),
            None,
            None,
            None,
            None,
            None,
            "clarity".to_string(),
            NOW + 1,
        )
        .unwrap();
    let log = registry.get_change_log(1);
    assert_eq!(log.len(), 2);
    assert_eq!(log[0].field_changed, "created");
    assert_eq!(log[0].old_value, "");
    assert_eq!(log[0].new_value, "Water Well");
    assert_eq!(log[0].reason, "Initial report creation");
    assert_eq!(log[1].field_changed, "title");
    assert_eq!(log[1].old_value, "Water Well");
    assert_eq!(log[1].new_value, "Better Water Well");
    assert_eq!(log[1].reason, "clarity");
}

#[test]
fn add_admin_is_idempotent() {
    let mut registry = NeedReportsContract::new();
    registry.initialize(vec![ADMIN]).unwrap();
    assert!(!registry.is_admin(STRANGER));
    assert_eq!(registry.add_admin(ADMIN, true, STRANGER), Ok(true));
    assert!(registry.is_admin(STRANGER));
    assert_eq!(registry.add_admin(ADMIN, true, STRANGER), Ok(false));
    assert!(registry.is_admin(STRANGER));
    // A non-admin may not grow the set.
    assert_eq!(
        registry.add_admin(CREATOR, true, Identity(7)),
        Err(RegistryError::AuthorizationFailure)
    );
    assert!(!registry.is_admin(Identity(7)));
}

#[test]
fn initialize_runs_exactly_once() {
    let mut registry = seeded_registry();
    let again = registry.initialize(vec![STRANGER]);
    assert_eq!(again, Err(RegistryError::AlreadyInitialized));
    // Counters and the admin set are untouched.
    assert_eq!(registry.get_stats().total_reports, 1);
    assert!(registry.is_admin(ADMIN));
    assert!(!registry.is_admin(STRANGER));
}

#[test]
fn creation_also_marks_the_registry_initialized() {
    // Creation allocates the sequence, so a later initialize must abort.
    let mut registry = NeedReportsContract::new();
    let id = registry
        .create_report(
            CREATOR,
            true,
            "t".to_string(),
            "d".to_string(),
            "l".to_string(),
            "c".to_string(),
            10,
            Vec::new(),
            NOW,
        )
        .unwrap();
    assert_eq!(id, 1);
    assert_eq!(registry.initialize(vec![ADMIN]), Err(RegistryError::AlreadyInitialized));
    assert!(!registry.is_admin(ADMIN));
}

#[test]
fn missing_reports_fail_softly() {
    let mut registry = seeded_registry();
    assert!(registry.get_report(2).is_none());
    assert!(registry.get_report(0).is_none());
    assert_eq!(
        registry.update_report(
            2,
            CREATOR,
            true,
            Some("t".to_string()),
            None,
            None,
            None,
            None,
            None,
            "r".to_string(),
            NOW,
        ),
        Ok(false)
    );
    assert_eq!(
        registry.update_status(2, ADMIN, true, "verified".to_string(), "n".to_string(), NOW),
        Ok(false)
    );
    assert_eq!(registry.update_amount_raised(2, 10, ADMIN, true, NOW), Ok(false));
    assert!(registry.get_change_log(2).is_empty());
    // For update_status the admin gate comes before the lookup: a non-admin
    // aborts even on a missing report.
    assert_eq!(
        registry.update_status(2, STRANGER, true, "verified".to_string(), "n".to_string(), NOW),
        Err(RegistryError::AuthorizationFailure)
    );
    // For update_report the lookup comes first: a stranger on a missing
    // report sees the soft failure.
    assert_eq!(
        registry.update_report(
            2,
            STRANGER,
            true,
            Some("t".to_string()),
            None,
            None,
            None,
            None,
            None,
            "r".to_string(),
            NOW,
        ),
        Ok(false)
    );
}

#[test]
fn empty_update_stamps_time_but_logs_nothing() {
    let mut registry = seeded_registry();
    let ok = registry
        .update_report(
            1,
            CREATOR,
            true,
            None,
            None,
            None,
            None,
            None,
            None,
            "nothing to say".to_string(),
            NOW + 9,
        )
        .unwrap();
    assert!(ok);
    let report = registry.get_report(1).unwrap();
    assert_eq!(report.updated_at, NOW + 9);
    assert_eq!(registry.get_change_log(1).len(), 1);
}

#[test]
fn admin_may_update_someone_elses_report() {
    let mut registry = seeded_registry();
    let ok = registry
        .update_report(
            1,
            ADMIN,
            true,
            None,
            None,
            Some("South Village".to_string()),
            None,
            None,
            None,
            "moved".to_string(),
            NOW + 1,
        )
        .unwrap();
    assert!(ok);
    let report = registry.get_report(1).unwrap();
    assert_eq!(report.location, "South Village");
    assert_eq!(report.updated_at, NOW + 1);
    let log = registry.get_change_log(1);
    assert_eq!(log.last().unwrap().field_changed, "location");
    assert_eq!(log.last().unwrap().old_value, "North Village");
    assert_eq!(log.last().unwrap().new_value, "South Village");
}

#[test]
fn status_strings_are_free_text() {
    let mut registry = seeded_registry();
    registry
        .update_status(1, ADMIN, true, "on-hold".to_string(), "audit".to_string(), NOW + 1)
        .unwrap();
    assert_eq!(registry.get_report(1).unwrap().status, "on-hold");
    let matching = registry.get_reports_by_status("on-hold".to_string());
    assert_eq!(matching.len(), 1);
    // Stats count only the four known statuses; the report still sums.
    let stats = registry.get_stats();
    assert_eq!(stats.total_reports, 1);
    assert_eq!(stats.pending_reports, 0);
    assert_eq!(stats.total_amount_needed, 5000);
    // Filtering is case-sensitive and exact.
    assert!(registry.get_reports_by_status("Pending".to_string()).is_empty());
    assert!(registry.get_reports_by_status("pending".to_string()).is_empty());
}
