use kafka_backup_operator::conditions::{
    error_conditions, find_condition, is_condition_true, new_condition, not_ready, ready,
    set_condition,
};

#[test]
fn test_set_condition_adds_new() {
    let mut conditions = vec![];
    let cond = ready("Test", "test message");
    set_condition(&mut conditions, cond);
    assert_eq!(conditions.len(), 1);
    assert_eq!(conditions[0].condition_type, "Ready");
    assert_eq!(conditions[0].status, "True");
}

#[test]
fn test_set_condition_updates_existing_same_status() {
    let mut conditions = vec![ready("OldReason", "old message")];
    let original_time = conditions[0].last_transition_time;
    let new_cond = ready("NewReason", "new message");
    set_condition(&mut conditions, new_cond);
    assert_eq!(conditions.len(), 1);
    assert_eq!(conditions[0].reason.as_deref(), Some("NewReason"));
    assert_eq!(conditions[0].message.as_deref(), Some("new message"));
    // Transition time should be preserved
    assert_eq!(conditions[0].last_transition_time, original_time);
}

#[test]
fn test_set_condition_updates_existing_different_status() {
    let mut conditions = vec![ready("OldReason", "old message")];
    let new_cond = not_ready("NewReason", "new message");
    set_condition(&mut conditions, new_cond);
    assert_eq!(conditions.len(), 1);
    assert_eq!(conditions[0].status, "False");
}

#[test]
fn test_find_condition() {
    let conditions = vec![
        ready("Test", "ready"),
        new_condition("Error", "False", "NoError", "no error"),
    ];
    let found = find_condition(&conditions, "Ready");
    assert!(found.is_some());
    assert_eq!(found.unwrap().status, "True");

    let not_found = find_condition(&conditions, "NonExistent");
    assert!(not_found.is_none());
}

#[test]
fn test_is_condition_true() {
    let conditions = vec![ready("Test", "test")];
    assert!(is_condition_true(&conditions, "Ready"));
    assert!(!is_condition_true(&conditions, "Error"));
}

#[test]
fn test_error_conditions_pair() {
    let conditions = error_conditions("ClusterNotFound", "no such cluster");
    assert_eq!(conditions.len(), 2);
    assert_eq!(conditions[0].condition_type, "Ready");
    assert_eq!(conditions[0].status, "False");
    assert_eq!(conditions[1].condition_type, "Error");
    assert_eq!(conditions[1].status, "True");
    assert_eq!(conditions[1].reason.as_deref(), Some("ClusterNotFound"));
    assert_eq!(conditions[1].message.as_deref(), Some("no such cluster"));
}
