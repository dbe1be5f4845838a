use kafka_backup_operator::resources::{BackupHistoryEntry, BackupStatus, RetentionSpec};
use kafka_backup_operator::retention::{evaluate_retention, parse_duration};

const DAY_MS: i64 = 86_400_000;
const NOW_MS: i64 = 1_700_000_000_000;

fn make_entry(id: &str, days_ago: i64) -> BackupHistoryEntry {
    BackupHistoryEntry {
        id: id.to_string(),
        status: BackupStatus::Completed,
        start_time: NOW_MS - days_ago * DAY_MS,
        completion_time: None,
        size_bytes: None,
        topics_backed_up: None,
        partitions_backed_up: None,
    }
}

#[test]
fn test_prune_by_max_backups() {
    let history = vec![
        make_entry("backup-1", 5),
        make_entry("backup-2", 4),
        make_entry("backup-3", 3),
        make_entry("backup-4", 2),
        make_entry("backup-5", 1),
    ];

    let retention = RetentionSpec {
        max_backups: Some(3),
        max_age: None,
        prune_on_schedule: true,
    };

    let to_prune = evaluate_retention(&history, &retention, NOW_MS);
    assert_eq!(to_prune.len(), 2);
    assert!(to_prune.contains(&"backup-1".to_string()));
    assert!(to_prune.contains(&"backup-2".to_string()));
}

#[test]
fn test_prune_by_max_age() {
    let history = vec![
        make_entry("backup-old", 45),
        make_entry("backup-recent", 5),
        make_entry("backup-newest", 1),
    ];

    let retention = RetentionSpec {
        max_backups: None,
        max_age: Some("30d".to_string()),
        prune_on_schedule: true,
    };

    let to_prune = evaluate_retention(&history, &retention, NOW_MS);
    assert_eq!(to_prune.len(), 1);
    assert!(to_prune.contains(&"backup-old".to_string()));
}

#[test]
fn test_parse_duration() {
    assert_eq!(parse_duration("30d"), Some(30 * DAY_MS));
    assert_eq!(parse_duration("720h"), Some(720 * 3_600_000));
    assert_eq!(parse_duration("4w"), Some(4 * 604_800_000));
    assert_eq!(parse_duration(""), None);
    assert_eq!(parse_duration("invalid"), None);
}

#[test]
fn test_parse_duration_units_and_spaces() {
    assert_eq!(parse_duration("90s"), Some(90_000));
    assert_eq!(parse_duration("15m"), Some(900_000));
    assert_eq!(parse_duration(" 2h "), Some(7_200_000));
    assert_eq!(parse_duration("\u{A0}30d\u{2009}"), Some(30 * DAY_MS));
    assert_eq!(parse_duration("5x"), None);
    assert_eq!(parse_duration("d"), None);
}

#[test]
fn test_retention_age_boundary_is_retained() {
    // an entry exactly at now - max_age sits on the cutoff and stays
    let boundary = BackupHistoryEntry {
        id: "backup-boundary".to_string(),
        status: BackupStatus::Completed,
        start_time: NOW_MS - 30 * DAY_MS,
        completion_time: None,
        size_bytes: None,
        topics_backed_up: None,
        partitions_backed_up: None,
    };
    let just_over = BackupHistoryEntry {
        id: "backup-over".to_string(),
        status: BackupStatus::Completed,
        start_time: NOW_MS - 30 * DAY_MS - 1,
        completion_time: None,
        size_bytes: None,
        topics_backed_up: None,
        partitions_backed_up: None,
    };
    let retention = RetentionSpec {
        max_backups: None,
        max_age: Some("30d".to_string()),
        prune_on_schedule: false,
    };
    let to_prune = evaluate_retention(&vec![boundary, just_over], &retention, NOW_MS);
    assert_eq!(to_prune, vec!["backup-over".to_string()]);
}

#[test]
fn test_retention_empty_history() {
    let retention = RetentionSpec {
        max_backups: Some(3),
        max_age: Some("30d".to_string()),
        prune_on_schedule: true,
    };
    let to_prune = evaluate_retention(&vec![], &retention, NOW_MS);
    assert!(to_prune.is_empty());
}

#[test]
fn test_retention_rules_are_additive() {
    // count rule selects the oldest beyond two kept; age rule selects the
    // very old one as well; the union holds each id once
    let history = vec![
        make_entry("backup-ancient", 100),
        make_entry("backup-old", 40),
        make_entry("backup-new", 1),
    ];
    let retention = RetentionSpec {
        max_backups: Some(2),
        max_age: Some("30d".to_string()),
        prune_on_schedule: true,
    };
    let to_prune = evaluate_retention(&history, &retention, NOW_MS);
    assert_eq!(to_prune.len(), 2);
    assert!(to_prune.contains(&"backup-ancient".to_string()));
    assert!(to_prune.contains(&"backup-old".to_string()));
}
