use kafka_backup_operator::error::Error;
use kafka_backup_operator::reconcile::JobState;
use kafka_backup_operator::reconcile_backup::reconcile_backup;
use kafka_backup_operator::reconcile_restore::reconcile_restore;
use kafka_backup_operator::conditions::Condition;
use kafka_backup_operator::resources::{
    AuthenticationSpec, AuthenticationType, BackupHistoryEntry, BackupRef, BackupStatus,
    KafkaBackup, KafkaBackupSpec, KafkaBackupStatus, KafkaRestore, KafkaRestoreSpec,
    KafkaRestoreStatus, KafkaUserRef, ResourceMeta, RetentionSpec, S3StorageSpec, ScheduleSpec,
    SecretKeyRef, StorageSpec, StorageType, StrimziClusterRef, TopicSelection,
};
use kafka_backup_operator::strimzi::{
    auth_from_user_secret, resolve_auth_plan, AuthResolution, ResolvedAuth, ResolvedKafkaCluster,
};

fn meta(name: &str) -> ResourceMeta {
    ResourceMeta {
        name: name.to_string(),
        namespace: Some("kafka".to_string()),
        uid: Some("uid-1".to_string()),
        generation: Some(1),
        deletion_requested: false,
        finalizers: vec!["backup.strimzi.io/cleanup".to_string()],
        annotations: vec![],
    }
}

fn storage() -> StorageSpec {
    StorageSpec {
        storage_type: StorageType::S3,
        s3: Some(S3StorageSpec {
            bucket: "bucket".to_string(),
            region: Some("us-east-1".to_string()),
            prefix: None,
            endpoint: None,
            force_path_style: None,
            credentials_secret: Some(SecretKeyRef {
                name: "aws-creds".to_string(),
                key: "credentials".to_string(),
            }),
        }),
        azure: None,
        gcs: None,
    }
}

fn oneshot_backup() -> KafkaBackup {
    KafkaBackup {
        metadata: meta("test-backup"),
        spec: KafkaBackupSpec {
            strimzi_cluster_ref: StrimziClusterRef {
                name: "my-cluster".to_string(),
                namespace: None,
            },
            authentication: None,
            topics: None,
            consumer_groups: None,
            storage: storage(),
            backup: None,
            schedule: None,
            retention: None,
            resources: None,
            template: None,
            image: None,
        },
        status: None,
    }
}

fn cluster() -> ResolvedKafkaCluster {
    ResolvedKafkaCluster {
        name: "my-cluster".to_string(),
        namespace: "kafka".to_string(),
        bootstrap_servers: "my-cluster-kafka-bootstrap.kafka.svc:9093".to_string(),
        replicas: 3,
        tls_enabled: true,
        listener_name: "tls".to_string(),
    }
}

#[test]
fn test_idempotent_job_creation() {
    let backup = oneshot_backup();
    let cl: Result<ResolvedKafkaCluster, Error> = Ok(cluster());
    let auth: Result<ResolvedAuth, Error> = Ok(ResolvedAuth::NoAuth);

    // first pass: nothing is running, so one Job is requested
    let plan1 = reconcile_backup(&backup, &cl, &None, &auth, &vec![], 0);
    let job1 = plan1.job.expect("first pass must request a job");
    assert_eq!(job1.name, "test-backup-19700101-000000");

    // second pass while that Job is still active: no new Job
    let running = JobState {
        name: job1.name.clone(),
        active: 1,
        succeeded: 0,
        failed: 0,
        start_time: Some(0),
    };
    let plan2 = reconcile_backup(&backup, &cl, &None, &auth, &vec![running], 60_000);
    assert!(plan2.job.is_none());
    assert!(plan2.outcome.is_ok());
}

#[test]
fn test_backup_cleanup_on_deletion() {
    let mut backup = oneshot_backup();
    backup.metadata.deletion_requested = true;
    let cl: Result<ResolvedKafkaCluster, Error> = Ok(cluster());
    let auth: Result<ResolvedAuth, Error> = Ok(ResolvedAuth::NoAuth);

    let plan = reconcile_backup(&backup, &cl, &None, &auth, &vec![], 0);
    let cleanup = plan.cleanup.expect("deletion must plan cleanup");
    assert_eq!(cleanup.cronjob_name, "test-backup-scheduled");
    assert_eq!(cleanup.config_map_name, "test-backup-config");
    assert_eq!(
        cleanup.job_selector,
        "app.kubernetes.io/managed-by=kafka-backup-operator,kafkabackup.com/backup=test-backup"
    );
    assert!(plan.job.is_none());
    assert!(plan.config_map.is_none());
    assert!(plan.status_update.is_none());
}

#[test]
fn test_backup_error_status_on_cluster_failure() {
    let backup = oneshot_backup();
    let cl: Result<ResolvedKafkaCluster, Error> = Err(Error::StrimziClusterNotFound {
        name: "my-cluster".to_string(),
        namespace: "kafka".to_string(),
    });
    let auth: Result<ResolvedAuth, Error> = Ok(ResolvedAuth::NoAuth);

    let plan = reconcile_backup(&backup, &cl, &None, &auth, &vec![], 0);
    assert!(plan.outcome.is_err());
    let update = plan.status_update.as_ref().expect("error status write");
    assert_eq!(update.conditions.len(), 2);
    assert_eq!(update.conditions[0].condition_type, "Ready");
    assert_eq!(update.conditions[0].status, "False");
    assert_eq!(update.conditions[1].condition_type, "Error");
    assert_eq!(update.conditions[1].status, "True");
    assert_eq!(
        update.conditions[1].reason.as_deref(),
        Some("StrimziClusterNotFound")
    );
    assert_eq!(
        update.conditions[1].message.as_deref(),
        Some("Strimzi cluster 'my-cluster' not found in namespace 'kafka'")
    );
}

#[test]
fn test_trigger_annotation_fires_and_clears() {
    let mut backup = oneshot_backup();
    backup.spec.schedule = Some(ScheduleSpec {
        cron: "0 2 * * *".to_string(),
        timezone: None,
        suspend: false,
    });
    backup.metadata.annotations = vec![(
        "backup.strimzi.io/trigger".to_string(),
        "now".to_string(),
    )];
    let cl: Result<ResolvedKafkaCluster, Error> = Ok(cluster());
    let auth: Result<ResolvedAuth, Error> = Ok(ResolvedAuth::NoAuth);

    let plan = reconcile_backup(&backup, &cl, &None, &auth, &vec![], 0);
    assert!(plan.job.is_some());
    assert!(plan.clear_trigger);
    assert!(plan.cronjob.is_some());
}

#[test]
fn test_backup_job_completion_updates_status() {
    let backup = oneshot_backup();
    let cl: Result<ResolvedKafkaCluster, Error> = Ok(cluster());
    let auth: Result<ResolvedAuth, Error> = Ok(ResolvedAuth::NoAuth);
    let done = JobState {
        name: "test-backup-20260101-000000".to_string(),
        active: 0,
        succeeded: 1,
        failed: 0,
        start_time: Some(1_700_000_000_000),
    };

    let plan = reconcile_backup(&backup, &cl, &None, &auth, &vec![done], 1_700_000_100_000);
    // the job finished, so no pod is active and a fresh one-shot job is
    // also requested; the one status write reflects the completion last
    let st = plan.status_update.as_ref().expect("status write");
    let lb = st.last_backup.as_ref().expect("last backup summary");
    assert_eq!(lb.id, "test-backup-20260101-000000");
    assert_eq!(lb.start_time, 1_700_000_000_000);
    assert_eq!(lb.completion_time, Some(1_700_000_100_000));
    assert_eq!(st.backup_history.len(), 1);
    assert_eq!(st.backup_history[0].id, "test-backup-20260101-000000");
    assert_eq!(st.conditions[0].condition_type, "Ready");
    assert_eq!(st.conditions[0].status, "True");
    assert_eq!(st.conditions[0].reason.as_deref(), Some("BackupCompleted"));
}

#[test]
fn test_scheduled_backup_end_to_end() {
    // a backup with S3 storage, SCRAM authentication via a referenced
    // user, topic patterns and a daily schedule
    let mut backup = oneshot_backup();
    backup.spec.topics = Some(TopicSelection {
        include_patterns: vec!["orders.*".to_string()],
        exclude_patterns: vec!["__.*".to_string()],
    });
    backup.spec.schedule = Some(ScheduleSpec {
        cron: "0 2 * * *".to_string(),
        timezone: None,
        suspend: false,
    });
    backup.spec.authentication = Some(AuthenticationSpec {
        auth_type: AuthenticationType::ScramSha512,
        kafka_user_ref: Some(KafkaUserRef {
            name: "backup-user".to_string(),
        }),
        certificate_and_key: None,
        password_secret: None,
        username: None,
    });

    // resolving authentication defers to the KafkaUser's secret
    let resolution = resolve_auth_plan(&backup.spec.authentication).unwrap();
    let auth = match resolution {
        AuthResolution::LookupUserSecret { user_name } => auth_from_user_secret(
            AuthenticationType::ScramSha512,
            &user_name,
            "backup-user".to_string(),
        ),
        AuthResolution::Resolved(_) => panic!("expected a user lookup"),
    };

    let cl: Result<ResolvedKafkaCluster, Error> = Ok(cluster());
    let auth_ok: Result<ResolvedAuth, Error> = Ok(auth);
    let plan = reconcile_backup(&backup, &cl, &None, &auth_ok, &vec![], 0);

    // one upserted config map with the expected document
    let cm = plan.config_map.expect("config map");
    assert_eq!(cm.name, "test-backup-config");
    assert!(cm.content.contains("mode: backup"));
    assert!(cm.content.contains("type: scram-sha-512"));
    assert!(cm.content.contains("username: backup-user"));
    assert!(cm.content.contains("orders.*"));

    // one upserted cron job bound to the schedule, overlap forbidden
    let cj = plan.cronjob.expect("cron job");
    assert_eq!(cj.schedule, "0 2 * * *");
    assert_eq!(cj.concurrency_policy, "Forbid");

    // no one-shot job without a manual trigger
    assert!(plan.job.is_none());
    assert!(plan.outcome.is_ok());
}

fn sample_restore() -> KafkaRestore {
    KafkaRestore {
        metadata: meta("pitr-restore"),
        spec: KafkaRestoreSpec {
            strimzi_cluster_ref: StrimziClusterRef {
                name: "dr-cluster".to_string(),
                namespace: None,
            },
            authentication: None,
            backup_ref: BackupRef {
                name: "daily-backup".to_string(),
                backup_id: None,
            },
            point_in_time: None,
            topic_mapping: vec![],
            consumer_groups: None,
            restore: None,
            resources: None,
            template: None,
            image: None,
        },
        status: None,
    }
}

fn source_backup() -> KafkaBackup {
    let mut b = oneshot_backup();
    b.metadata.name = "daily-backup".to_string();
    b
}

#[test]
fn test_restore_fire_once() {
    let mut restore = sample_restore();
    restore.status = Some(KafkaRestoreStatus {
        conditions: vec![Condition {
            condition_type: "RestoreComplete".to_string(),
            status: "True".to_string(),
            reason: Some("RestoreCompleted".to_string()),
            message: Some("Restore completed successfully".to_string()),
            last_transition_time: Some(1_700_000_000_000),
        }],
        restore: None,
        observed_generation: Some(1),
    });

    let cl: Result<ResolvedKafkaCluster, Error> = Ok(cluster());
    let auth: Result<ResolvedAuth, Error> = Ok(ResolvedAuth::NoAuth);
    let plan = reconcile_restore(
        &restore,
        &Some(source_backup()),
        &cl,
        &None,
        &auth,
        &vec![],
        0,
    );

    assert!(plan.job.is_none());
    assert!(plan.config_map.is_none());
    assert!(plan.status_update.is_none());
    assert!(plan.outcome.is_ok());
}

#[test]
fn test_restore_backup_not_found() {
    let restore = sample_restore();
    let cl: Result<ResolvedKafkaCluster, Error> = Ok(cluster());
    let auth: Result<ResolvedAuth, Error> = Ok(ResolvedAuth::NoAuth);
    let plan = reconcile_restore(&restore, &None, &cl, &None, &auth, &vec![], 0);

    match plan.outcome {
        Err(Error::BackupNotFound { name }) => assert_eq!(name, "daily-backup"),
        _ => panic!("expected a backup-not-found failure"),
    }
    assert!(plan.job.is_none());
    assert!(plan.config_map.is_none());
    // the failure surfaces on the status before the pass returns
    let st = plan.status_update.as_ref().expect("error status write");
    assert_eq!(st.conditions[0].condition_type, "Ready");
    assert_eq!(st.conditions[0].status, "False");
    assert_eq!(st.conditions[1].condition_type, "Error");
    assert_eq!(st.conditions[1].status, "True");
    assert_eq!(st.conditions[1].reason.as_deref(), Some("BackupNotFound"));
}

#[test]
fn test_restore_creates_single_job() {
    let restore = sample_restore();
    let cl: Result<ResolvedKafkaCluster, Error> = Ok(cluster());
    let auth: Result<ResolvedAuth, Error> = Ok(ResolvedAuth::NoAuth);
    let plan = reconcile_restore(
        &restore,
        &Some(source_backup()),
        &cl,
        &None,
        &auth,
        &vec![],
        0,
    );

    let job = plan.job.expect("restore job");
    assert_eq!(job.name, "pitr-restore-19700101-000000");
    assert!(plan.config_map.is_some());
    let st = plan.status_update.as_ref().expect("status write");
    assert_eq!(st.conditions[0].reason.as_deref(), Some("RestoreRunning"));

    // a second pass while that job runs requests nothing new
    let running = JobState {
        name: job.name.clone(),
        active: 1,
        succeeded: 0,
        failed: 0,
        start_time: Some(0),
    };
    let plan2 = reconcile_restore(
        &restore,
        &Some(source_backup()),
        &cl,
        &None,
        &auth,
        &vec![running],
        60_000,
    );
    assert!(plan2.job.is_none());
}

#[test]
fn test_restore_completion_sets_terminal_condition() {
    let restore = sample_restore();
    let cl: Result<ResolvedKafkaCluster, Error> = Ok(cluster());
    let auth: Result<ResolvedAuth, Error> = Ok(ResolvedAuth::NoAuth);
    let done = JobState {
        name: "pitr-restore-20260101-000000".to_string(),
        active: 0,
        succeeded: 1,
        failed: 0,
        start_time: Some(1_700_000_000_000),
    };
    let plan = reconcile_restore(
        &restore,
        &Some(source_backup()),
        &cl,
        &None,
        &auth,
        &vec![done],
        1_700_000_100_000,
    );

    let st = plan.status_update.as_ref().expect("status write");
    assert_eq!(st.conditions.len(), 2);
    assert_eq!(st.conditions[0].condition_type, "Ready");
    assert_eq!(st.conditions[0].status, "True");
    assert_eq!(st.conditions[1].condition_type, "RestoreComplete");
    assert_eq!(st.conditions[1].status, "True");
    let info = st.restore.as_ref().expect("restore summary");
    assert_eq!(info.completion_time, Some(1_700_000_100_000));
}

#[test]
fn test_backup_completed_job_not_reprocessed() {
    let mut backup = oneshot_backup();
    // a suspended schedule keeps both the cron path and the one-shot path off
    backup.spec.schedule = Some(ScheduleSpec {
        cron: "0 2 * * *".to_string(),
        timezone: None,
        suspend: true,
    });
    backup.status = Some(KafkaBackupStatus {
        conditions: vec![],
        last_backup: None,
        backup_history: vec![BackupHistoryEntry {
            id: "test-backup-20260101-000000".to_string(),
            status: BackupStatus::Completed,
            start_time: 1_700_000_000_000,
            completion_time: Some(1_700_000_050_000),
            size_bytes: None,
            topics_backed_up: None,
            partitions_backed_up: None,
        }],
        observed_generation: Some(1),
        next_scheduled_backup: None,
    });
    let cl: Result<ResolvedKafkaCluster, Error> = Ok(cluster());
    let auth: Result<ResolvedAuth, Error> = Ok(ResolvedAuth::NoAuth);
    let done = JobState {
        name: "test-backup-20260101-000000".to_string(),
        active: 0,
        succeeded: 1,
        failed: 0,
        start_time: Some(1_700_000_000_000),
    };

    let plan = reconcile_backup(&backup, &cl, &None, &auth, &vec![done], 1_700_000_200_000);
    // the Job is already reflected in the history: nothing is appended and
    // the carried summary stays untouched
    let st = plan.status_update.as_ref().expect("status write");
    assert_eq!(st.backup_history.len(), 1);
    assert_eq!(
        st.backup_history[0].completion_time,
        Some(1_700_000_050_000)
    );
    assert!(st.last_backup.is_none());
    assert!(plan.job.is_none());
}

#[test]
fn test_backup_retention_prunes_history() {
    let entry = |id: &str, start: i64| BackupHistoryEntry {
        id: id.to_string(),
        status: BackupStatus::Completed,
        start_time: start,
        completion_time: Some(start),
        size_bytes: None,
        topics_backed_up: None,
        partitions_backed_up: None,
    };
    let mut backup = oneshot_backup();
    backup.spec.schedule = Some(ScheduleSpec {
        cron: "0 2 * * *".to_string(),
        timezone: None,
        suspend: true,
    });
    backup.spec.retention = Some(RetentionSpec {
        max_backups: Some(1),
        max_age: None,
        prune_on_schedule: true,
    });
    backup.status = Some(KafkaBackupStatus {
        conditions: vec![],
        last_backup: None,
        backup_history: vec![entry("backup-old", 1_000), entry("backup-new", 2_000)],
        observed_generation: Some(1),
        next_scheduled_backup: None,
    });
    let cl: Result<ResolvedKafkaCluster, Error> = Ok(cluster());
    let auth: Result<ResolvedAuth, Error> = Ok(ResolvedAuth::NoAuth);

    let plan = reconcile_backup(&backup, &cl, &None, &auth, &vec![], 10_000);
    assert_eq!(plan.prune_ids, vec!["backup-old".to_string()]);
    let st = plan.status_update.as_ref().expect("status write");
    assert_eq!(st.backup_history.len(), 1);
    assert_eq!(st.backup_history[0].id, "backup-new");
}

#[test]
fn test_backup_condition_transition_time_carried() {
    let mut backup = oneshot_backup();
    backup.status = Some(KafkaBackupStatus {
        conditions: vec![Condition {
            condition_type: "Ready".to_string(),
            status: "False".to_string(),
            reason: Some("BackupRunning".to_string()),
            message: Some("Backup job is running".to_string()),
            last_transition_time: Some(5),
        }],
        last_backup: None,
        backup_history: vec![],
        observed_generation: Some(1),
        next_scheduled_backup: None,
    });
    let cl: Result<ResolvedKafkaCluster, Error> = Ok(cluster());
    let auth: Result<ResolvedAuth, Error> = Ok(ResolvedAuth::NoAuth);

    // the new pass re-sets Ready=False/BackupRunning: same type and
    // status, so the transition time must not move
    let plan = reconcile_backup(&backup, &cl, &None, &auth, &vec![], 99_000);
    assert!(plan.job.is_some());
    let st = plan.status_update.as_ref().expect("status write");
    assert_eq!(st.conditions.len(), 1);
    assert_eq!(st.conditions[0].status, "False");
    assert_eq!(st.conditions[0].last_transition_time, Some(5));
}
