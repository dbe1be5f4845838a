use kafka_backup_operator::config::build_backup_config_yaml;
use kafka_backup_operator::jobs::{build_backup_job, VolumeSpec};
use kafka_backup_operator::resources::{
    AuthenticationSpec, AuthenticationType, BackupOptionsSpec, KafkaBackup, KafkaBackupSpec,
    KafkaUserRef, ResourceMeta, RetentionSpec, S3StorageSpec, ScheduleSpec, SecretKeyRef,
    StorageSpec, StorageType, StrimziClusterRef, TopicSelection,
};
use kafka_backup_operator::strimzi::{ResolvedAuth, ResolvedKafkaCluster};

fn sample_backup() -> KafkaBackup {
    let spec = KafkaBackupSpec {
        strimzi_cluster_ref: StrimziClusterRef {
            name: "production-cluster".to_string(),
            namespace: None,
        },
        authentication: None,
        topics: Some(TopicSelection {
            include_patterns: vec!["orders.*".to_string(), "payments.*".to_string()],
            exclude_patterns: vec!["__.*".to_string()],
        }),
        consumer_groups: None,
        storage: StorageSpec {
            storage_type: StorageType::S3,
            s3: Some(S3StorageSpec {
                bucket: "my-kafka-backups".to_string(),
                region: Some("eu-west-1".to_string()),
                prefix: Some("strimzi/production-cluster/".to_string()),
                endpoint: None,
                force_path_style: None,
                credentials_secret: Some(SecretKeyRef {
                    name: "backup-s3-credentials".to_string(),
                    key: "aws-credentials".to_string(),
                }),
            }),
            azure: None,
            gcs: None,
        },
        backup: Some(BackupOptionsSpec {
            compression: Some("zstd".to_string()),
            encryption: None,
            segment_size: Some(268435456),
            parallelism: Some(4),
        }),
        schedule: Some(ScheduleSpec {
            cron: "0 2 * * *".to_string(),
            timezone: Some("UTC".to_string()),
            suspend: false,
        }),
        retention: Some(RetentionSpec {
            max_backups: Some(30),
            max_age: Some("30d".to_string()),
            prune_on_schedule: true,
        }),
        resources: None,
        template: None,
        image: None,
    };
    KafkaBackup {
        metadata: ResourceMeta {
            name: "daily-backup".to_string(),
            namespace: Some("kafka".to_string()),
            uid: Some("test-uid-12345".to_string()),
            generation: None,
            deletion_requested: false,
            finalizers: vec![],
            annotations: vec![],
        },
        spec,
        status: None,
    }
}

fn sample_cluster() -> ResolvedKafkaCluster {
    ResolvedKafkaCluster {
        name: "production-cluster".to_string(),
        namespace: "kafka".to_string(),
        bootstrap_servers: "production-cluster-kafka-bootstrap.kafka.svc:9093".to_string(),
        replicas: 3,
        tls_enabled: true,
        listener_name: "tls".to_string(),
    }
}

#[test]
fn test_backup_config_generation() {
    let backup = sample_backup();
    let cluster = sample_cluster();

    let yaml = build_backup_config_yaml(&backup, &cluster, &None, &ResolvedAuth::NoAuth).unwrap();

    assert!(yaml.contains("mode: backup"));
    assert!(yaml.contains("bootstrap_servers: production-cluster-kafka-bootstrap.kafka.svc:9093"));
    assert!(yaml.contains("compression: zstd"));
    assert!(yaml.contains("orders.*"));
    assert!(yaml.contains("payments.*"));
    assert!(yaml.contains("bucket: my-kafka-backups"));
}

fn label_of(labels: &[(String, String)], key: &str) -> Option<String> {
    labels.iter().find(|(k, _)| k == key).map(|(_, v)| v.clone())
}

#[test]
fn test_backup_job_creation() {
    let backup = sample_backup();
    let cluster = sample_cluster();

    let job = build_backup_job(
        &backup,
        "daily-backup-20260213-020000",
        "daily-backup-config",
        &cluster,
        &ResolvedAuth::NoAuth,
    )
    .unwrap();

    assert_eq!(job.name, "daily-backup-20260213-020000");
    assert_eq!(job.namespace, "kafka");

    assert_eq!(
        label_of(&job.labels, "strimzi.io/cluster"),
        Some("production-cluster".to_string())
    );
    assert_eq!(
        label_of(&job.labels, "app.kubernetes.io/part-of"),
        Some("kafka-backup".to_string())
    );

    assert_eq!(job.owner.kind, "KafkaBackup");
    assert_eq!(job.owner.name, "daily-backup");

    assert_eq!(job.pod.container_name, "backup");
    assert!(job.pod.args.contains(&"/config/backup.yaml".to_string()));
}

#[test]
fn test_backup_with_tls_auth() {
    let mut backup = sample_backup();
    backup.spec.authentication = Some(AuthenticationSpec {
        auth_type: AuthenticationType::Tls,
        kafka_user_ref: Some(KafkaUserRef {
            name: "backup-user".to_string(),
        }),
        certificate_and_key: None,
        password_secret: None,
        username: None,
    });

    let cluster = sample_cluster();
    let auth = ResolvedAuth::Tls {
        secret_name: "backup-user".to_string(),
    };

    let yaml = build_backup_config_yaml(&backup, &cluster, &None, &auth).unwrap();
    assert!(yaml.contains("type: tls"));
    assert!(yaml.contains("cert_path: /certs/user/user.crt"));

    let job = build_backup_job(&backup, "test-job", "test-config", &cluster, &auth).unwrap();

    let volumes: &Vec<VolumeSpec> = &job.pod.volumes;
    assert!(volumes.iter().any(|v| v.name == "user-certs"));
}

#[test]
fn test_build_backup_job_basic() {
    let spec = KafkaBackupSpec {
        strimzi_cluster_ref: StrimziClusterRef {
            name: "my-cluster".to_string(),
            namespace: None,
        },
        authentication: None,
        topics: None,
        consumer_groups: None,
        storage: StorageSpec {
            storage_type: StorageType::S3,
            s3: Some(S3StorageSpec {
                bucket: "test-bucket".to_string(),
                region: Some("us-east-1".to_string()),
                prefix: None,
                endpoint: None,
                force_path_style: None,
                credentials_secret: Some(SecretKeyRef {
                    name: "aws-creds".to_string(),
                    key: "credentials".to_string(),
                }),
            }),
            azure: None,
            gcs: None,
        },
        backup: None,
        schedule: None,
        retention: None,
        resources: None,
        template: None,
        image: None,
    };

    let backup = KafkaBackup {
        metadata: ResourceMeta {
            name: "test-backup".to_string(),
            namespace: Some("kafka".to_string()),
            uid: Some("test-uid".to_string()),
            generation: None,
            deletion_requested: false,
            finalizers: vec![],
            annotations: vec![],
        },
        spec,
        status: None,
    };

    let cluster = ResolvedKafkaCluster {
        name: "my-cluster".to_string(),
        namespace: "kafka".to_string(),
        bootstrap_servers: "my-cluster-kafka-bootstrap:9093".to_string(),
        replicas: 3,
        tls_enabled: true,
        listener_name: "tls".to_string(),
    };

    let job = build_backup_job(
        &backup,
        "test-backup-20240101",
        "test-backup-config",
        &cluster,
        &ResolvedAuth::NoAuth,
    )
    .unwrap();

    assert_eq!(job.name, "test-backup-20240101");
    assert_eq!(job.namespace, "kafka");

    assert_eq!(
        label_of(&job.labels, "strimzi.io/cluster"),
        Some("my-cluster".to_string())
    );
    assert_eq!(
        label_of(&job.labels, "kafkabackup.com/type"),
        Some("backup".to_string())
    );

    assert_eq!(job.pod.container_name, "backup");
    assert_eq!(job.pod.image, "ghcr.io/osodevops/kafka-backup:latest");
    assert_eq!(job.pod.restart_policy, "Never");

    // Should have config + cluster-ca + storage-credentials volumes
    assert!(job.pod.volumes.iter().any(|v| v.name == "config"));
    assert!(job.pod.volumes.iter().any(|v| v.name == "cluster-ca"));
    assert!(job.pod.volumes.iter().any(|v| v.name == "storage-credentials"));
}
