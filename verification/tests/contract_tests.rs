//! The contract-level scenarios: one test per exposed operation family,
//! driving the registry exactly as a deployed instance would be driven.

use need_reports::Identity;
use need_reports::NeedReportsContract;

const NOW: u64 = 1_700_000_000;

#[test]
fn test_initialize_contract() {
    let mut registry = NeedReportsContract::new();

    let admin1 = Identity(10);
    let admin2 = Identity(11);
    let admins = vec![admin1, admin2];

    registry.initialize(admins).unwrap();

    // Test that admins are properly set
    assert!(registry.is_admin(admin1));
    assert!(registry.is_admin(admin2));

    let random_user = Identity(99);
    assert!(!registry.is_admin(random_user));
}

#[test]
fn test_create_report() {
    let mut registry = NeedReportsContract::new();

    let admin = Identity(10);
    registry.initialize(vec![admin]).unwrap();

    let creator = Identity(20);
    let title = "Emergency Medical Aid".to_string();
    let description = "Need medical supplies for earthquake victims".to_string();
    let location = "City Center".to_string();
    let category = "Medical".to_string();
    let amount_needed = 5000u64;
    let image_urls = vec!["https://firebase.com/image1.jpg".to_string()];

    let report_id = registry
        .create_report(
            creator,
            true,
            title.clone(),
            description,
            location,
            category,
            amount_needed,
            image_urls,
            NOW,
        )
        .unwrap();

    assert_eq!(report_id, 1);

    // Verify the report was created correctly
    let report = registry.get_report(report_id).unwrap();
    assert_eq!(report.creator, creator);
    assert_eq!(report.title, title);
    assert_eq!(report.amount_needed, amount_needed);
    assert_eq!(report.amount_raised, 0);
    assert_eq!(report.status, "pending");
}

#[test]
fn test_update_report() {
    let mut registry = NeedReportsContract::new();

    let admin = Identity(10);
    registry.initialize(vec![admin]).unwrap();

    let creator = Identity(20);
    let title = "Emergency Medical Aid".to_string();
    let description = "Need medical supplies".to_string();
    let location = "City Center".to_string();
    let category = "Medical".to_string();
    let amount_needed = 5000u64;
    let image_urls = vec!["https://firebase.com/image1.jpg".to_string()];

    let report_id = registry
        .create_report(
            creator,
            true,
            title,
            description,
            location,
            category,
            amount_needed,
            image_urls,
            NOW,
        )
        .unwrap();

    // Update the report
    let new_title = "Updated Emergency Medical Aid".to_string();
    let reason = "Adding more details".to_string();

    let success = registry
        .update_report(
            report_id,
            creator,
            true,
            Some(new_title.clone()),
            None,
            None,
            None,
            None,
            None,
            reason,
            NOW + 1,
        )
        .unwrap();

    assert!(success);

    // Verify the update
    let updated_report = registry.get_report(report_id).unwrap();
    assert_eq!(updated_report.title, new_title);

    // Check change log
    let change_log = registry.get_change_log(report_id);
    assert!(change_log.len() >= 2); // Creation + update
}

#[test]
fn test_update_status_admin_only() {
    let mut registry = NeedReportsContract::new();

    let admin = Identity(10);
    registry.initialize(vec![admin]).unwrap();

    let creator = Identity(20);
    let title = "Emergency Medical Aid".to_string();
    let description = "Need medical supplies".to_string();
    let location = "City Center".to_string();
    let category = "Medical".to_string();
    let amount_needed = 5000u64;
    let image_urls: Vec<String> = Vec::new();

    let report_id = registry
        .create_report(
            creator,
            true,
            title,
            description,
            location,
            category,
            amount_needed,
            image_urls,
            NOW,
        )
        .unwrap();

    // Admin updates status
    let new_status = "verified".to_string();
    let notes = "Verified by admin team".to_string();

    let success = registry
        .update_status(report_id, admin, true, new_status.clone(), notes.clone(), NOW + 1)
        .unwrap();
    assert!(success);

    // Verify status update
    let updated_report = registry.get_report(report_id).unwrap();
    assert_eq!(updated_report.status, new_status);
    assert_eq!(updated_report.verification_notes, notes);
}

#[test]
fn test_get_user_reports() {
    let mut registry = NeedReportsContract::new();

    let admin = Identity(10);
    registry.initialize(vec![admin]).unwrap();

    let creator1 = Identity(20);
    let creator2 = Identity(21);

    // Create reports for different users
    let image_urls: Vec<String> = Vec::new();

    registry
        .create_report(
            creator1,
            true,
            "Report 1 by User 1".to_string(),
            "Description 1".to_string(),
            "Location 1".to_string(),
            "Medical".to_string(),
            1000u64,
            image_urls.clone(),
            NOW,
        )
        .unwrap();

    registry
        .create_report(
            creator1,
            true,
            "Report 2 by User 1".to_string(),
            "Description 2".to_string(),
            "Location 2".to_string(),
            "Food".to_string(),
            2000u64,
            image_urls.clone(),
            NOW,
        )
        .unwrap();

    registry
        .create_report(
            creator2,
            true,
            "Report 1 by User 2".to_string(),
            "Description 3".to_string(),
            "Location 3".to_string(),
            "Shelter".to_string(),
            3000u64,
            image_urls,
            NOW,
        )
        .unwrap();

    // Get reports for creator1
    let user1_reports = registry.get_user_reports(creator1);
    assert_eq!(user1_reports.len(), 2);

    // Get reports for creator2
    let user2_reports = registry.get_user_reports(creator2);
    assert_eq!(user2_reports.len(), 1);
}

#[test]
fn test_get_reports_by_status() {
    let mut registry = NeedReportsContract::new();

    let admin = Identity(10);
    registry.initialize(vec![admin]).unwrap();

    let creator = Identity(20);
    let image_urls: Vec<String> = Vec::new();

    // Create reports
    let report1_id = registry
        .create_report(
            creator,
            true,
            "Report 1".to_string(),
            "Description 1".to_string(),
            "Location 1".to_string(),
            "Medical".to_string(),
            1000u64,
            image_urls.clone(),
            NOW,
        )
        .unwrap();

    let report2_id = registry
        .create_report(
            creator,
            true,
            "Report 2".to_string(),
            "Description 2".to_string(),
            "Location 2".to_string(),
            "Food".to_string(),
            2000u64,
            image_urls,
            NOW,
        )
        .unwrap();

    // Update one report to verified
    registry
        .update_status(
            report2_id,
            admin,
            true,
            "verified".to_string(),
            "Verified".to_string(),
            NOW + 1,
        )
        .unwrap();

    // Get pending reports
    let pending_reports = registry.get_reports_by_status("pending".to_string());
    assert_eq!(pending_reports.len(), 1);
    assert_eq!(pending_reports[0].id, report1_id);

    // Get verified reports
    let verified_reports = registry.get_reports_by_status("verified".to_string());
    assert_eq!(verified_reports.len(), 1);
    assert_eq!(verified_reports[0].id, report2_id);
}

#[test]
fn test_platform_stats() {
    let mut registry = NeedReportsContract::new();

    let admin = Identity(10);
    registry.initialize(vec![admin]).unwrap();

    let creator = Identity(20);
    let image_urls: Vec<String> = Vec::new();

    // Create reports with different amounts
    registry
        .create_report(
            creator,
            true,
            "Report 1".to_string(),
            "Description 1".to_string(),
            "Location 1".to_string(),
            "Medical".to_string(),
            1000u64,
            image_urls.clone(),
            NOW,
        )
        .unwrap();

    registry
        .create_report(
            creator,
            true,
            "Report 2".to_string(),
            "Description 2".to_string(),
            "Location 2".to_string(),
            "Food".to_string(),
            2000u64,
            image_urls,
            NOW,
        )
        .unwrap();

    let stats = registry.get_stats();
    assert_eq!(stats.total_reports, 2);
    assert_eq!(stats.pending_reports, 2);
    assert_eq!(stats.verified_reports, 0);
    assert_eq!(stats.total_amount_needed, 3000);
    assert_eq!(stats.total_amount_raised, 0);
}
