use kafka_backup_operator::config::{build_backup_config_yaml, build_storage_config};
use kafka_backup_operator::error::Error;
use kafka_backup_operator::resources::{
    BackupOptionsSpec, KafkaBackup, KafkaBackupSpec, ResourceMeta, S3StorageSpec, SecretKeyRef,
    StorageSpec, StorageType, StrimziClusterRef, TopicSelection,
};
use kafka_backup_operator::strimzi::{ResolvedAuth, ResolvedKafkaCluster};

fn meta(name: &str, namespace: &str) -> ResourceMeta {
    ResourceMeta {
        name: name.to_string(),
        namespace: Some(namespace.to_string()),
        uid: None,
        generation: None,
        deletion_requested: false,
        finalizers: vec![],
        annotations: vec![],
    }
}

fn test_backup() -> KafkaBackup {
    let spec = KafkaBackupSpec {
        strimzi_cluster_ref: StrimziClusterRef {
            name: "my-cluster".to_string(),
            namespace: None,
        },
        authentication: None,
        topics: Some(TopicSelection {
            include_patterns: vec!["orders.*".to_string()],
            exclude_patterns: vec!["__.*".to_string()],
        }),
        storage: StorageSpec {
            storage_type: StorageType::S3,
            s3: Some(S3StorageSpec {
                bucket: "test-bucket".to_string(),
                region: Some("us-east-1".to_string()),
                prefix: None,
                endpoint: None,
                force_path_style: None,
                credentials_secret: None,
            }),
            azure: None,
            gcs: None,
        },
        backup: Some(BackupOptionsSpec {
            compression: Some("zstd".to_string()),
            encryption: None,
            segment_size: Some(268435456),
            parallelism: Some(4),
        }),
        schedule: None,
        retention: None,
        resources: None,
        template: None,
        image: None,
        consumer_groups: None,
    };
    KafkaBackup {
        metadata: meta("test-backup", "kafka"),
        spec,
        status: None,
    }
}

fn test_cluster() -> ResolvedKafkaCluster {
    ResolvedKafkaCluster {
        name: "my-cluster".to_string(),
        namespace: "kafka".to_string(),
        bootstrap_servers: "my-cluster-kafka-bootstrap.kafka.svc:9093".to_string(),
        replicas: 3,
        tls_enabled: true,
        listener_name: "tls".to_string(),
    }
}

#[test]
fn test_build_backup_config() {
    let backup = test_backup();
    let cluster = test_cluster();

    let yaml = build_backup_config_yaml(&backup, &cluster, &None, &ResolvedAuth::NoAuth).unwrap();
    assert!(yaml.contains("mode: backup"));
    assert!(yaml.contains("bootstrap_servers:"));
    assert!(yaml.contains("orders.*"));
}

#[test]
fn test_build_backup_config_options_and_numbers() {
    let backup = test_backup();
    let cluster = test_cluster();

    let yaml = build_backup_config_yaml(&backup, &cluster, &None, &ResolvedAuth::NoAuth).unwrap();
    assert!(yaml.contains("compression: zstd"));
    assert!(yaml.contains("segment_max_bytes: 268435456"));
    assert!(yaml.contains("max_concurrent_partitions: 4"));
    assert!(yaml.contains("tls:\n    enabled: true"));
    assert!(yaml.contains("ca_cert_path: /certs/cluster-ca/ca.crt"));
    assert!(yaml.contains("exclude:\n  - __.*"));
}

#[test]
fn test_build_s3_config() {
    let storage = StorageSpec {
        storage_type: StorageType::S3,
        s3: Some(S3StorageSpec {
            bucket: "my-bucket".to_string(),
            region: Some("us-east-1".to_string()),
            prefix: Some("backups/".to_string()),
            endpoint: None,
            force_path_style: None,
            credentials_secret: Some(SecretKeyRef {
                name: "aws-creds".to_string(),
                key: "credentials".to_string(),
            }),
        }),
        azure: None,
        gcs: None,
    };

    let config = build_storage_config(&storage).unwrap();
    let get = |key: &str| {
        config
            .iter()
            .find(|(k, _)| k == key)
            .map(|(_, v)| v.clone())
    };
    assert_eq!(get("type"), Some("s3".to_string()));
    assert_eq!(get("bucket"), Some("my-bucket".to_string()));
    assert_eq!(get("region"), Some("us-east-1".to_string()));
}

#[test]
fn test_build_storage_config_missing_backend() {
    let storage = StorageSpec {
        storage_type: StorageType::S3,
        s3: None,
        azure: None,
        gcs: None,
    };
    match build_storage_config(&storage) {
        Err(Error::InvalidConfig(m)) => {
            assert_eq!(m, "Storage type is S3 but s3 config is missing");
        }
        other => panic!("expected InvalidConfig, got {:?}", other.is_ok()),
    }
}
