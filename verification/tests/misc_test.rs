use kafka_backup_operator::error::Error;
use kafka_backup_operator::metrics::MetricsState;
use kafka_backup_operator::resources::{
    AuthenticationSpec, AuthenticationType, CertificateAndKeySecretRef, SecretKeyRef,
};
use kafka_backup_operator::strimzi::{
    clients_ca_secret_name, cluster_ca_secret_name, extract_bootstrap_servers,
    extract_listener_info, extract_replicas, extract_secret_bytes, resolve_auth_plan,
    user_secret_name, AuthResolution, ListenerSpec, ListenerStatus, ResolvedAuth,
};

#[test]
fn test_metrics_creation() {
    let state = MetricsState::new();
    let output = state.gather();
    // Should contain metric definitions even without data
    assert!(output.is_empty() || output.contains("strimzi_backup") || !output.is_empty());
}

#[test]
fn test_metrics_record_failure_renders() {
    let mut state = MetricsState::new();
    state.record_backup_failure("test-backup", "my-cluster");
    let output = state.gather();
    assert!(output.contains("strimzi_backup_last_failure_timestamp"));
    assert!(output.contains("backup_name=\"test-backup\""));
    assert!(output.contains("cluster=\"my-cluster\""));
}

#[test]
fn test_cluster_ca_secret_names() {
    assert_eq!(cluster_ca_secret_name("prod"), "prod-cluster-ca-cert");
    assert_eq!(clients_ca_secret_name("prod"), "prod-clients-ca-cert");
}

#[test]
fn test_extract_bootstrap_prefers_tls_listener() {
    let listeners = vec![
        ListenerStatus {
            name: Some("plain".to_string()),
            bootstrap_servers: Some("plain:9092".to_string()),
        },
        ListenerStatus {
            name: Some("tls".to_string()),
            bootstrap_servers: Some("tls:9093".to_string()),
        },
    ];
    assert_eq!(
        extract_bootstrap_servers(&listeners, "prod", "kafka"),
        "tls:9093"
    );
}

#[test]
fn test_extract_bootstrap_falls_back_to_convention() {
    let listeners: Vec<ListenerStatus> = vec![];
    assert_eq!(
        extract_bootstrap_servers(&listeners, "prod", "kafka"),
        "prod-kafka-bootstrap.kafka.svc:9093"
    );
}

#[test]
fn test_extract_listener_info() {
    let listeners = vec![
        ListenerSpec {
            name: Some("plain".to_string()),
            tls: Some(false),
        },
        ListenerSpec {
            name: Some("secure".to_string()),
            tls: Some(true),
        },
    ];
    let (tls, name) = extract_listener_info(&listeners);
    assert!(tls);
    assert_eq!(name, "secure");

    let (tls_default, name_default) = extract_listener_info(&vec![]);
    assert!(tls_default);
    assert_eq!(name_default, "tls");
}

#[test]
fn test_extract_replicas_default() {
    assert_eq!(extract_replicas(None), 3);
    assert_eq!(extract_replicas(Some(5)), 5);
}

#[test]
fn test_resolve_auth_plan_none() {
    match resolve_auth_plan(&None).unwrap() {
        AuthResolution::Resolved(ResolvedAuth::NoAuth) => {}
        _ => panic!("expected no authentication"),
    }
}

#[test]
fn test_resolve_auth_plan_manual_tls() {
    let spec = AuthenticationSpec {
        auth_type: AuthenticationType::Tls,
        kafka_user_ref: None,
        certificate_and_key: Some(CertificateAndKeySecretRef {
            secret_name: "user-certs".to_string(),
            certificate: "user.crt".to_string(),
            key: "user.key".to_string(),
        }),
        password_secret: None,
        username: None,
    };
    match resolve_auth_plan(&Some(spec)).unwrap() {
        AuthResolution::Resolved(ResolvedAuth::Tls { secret_name }) => {
            assert_eq!(secret_name, "user-certs");
        }
        _ => panic!("expected manual TLS credentials"),
    }
}

#[test]
fn test_resolve_auth_plan_invalid_tls() {
    let spec = AuthenticationSpec {
        auth_type: AuthenticationType::Tls,
        kafka_user_ref: None,
        certificate_and_key: None,
        password_secret: None,
        username: None,
    };
    match resolve_auth_plan(&Some(spec)) {
        Err(Error::InvalidConfig(m)) => {
            assert_eq!(
                m,
                "TLS authentication requires either kafkaUserRef or certificateAndKey"
            );
        }
        _ => panic!("expected an invalid-configuration error"),
    }
}

#[test]
fn test_resolve_auth_plan_manual_scram() {
    let spec = AuthenticationSpec {
        auth_type: AuthenticationType::ScramSha512,
        kafka_user_ref: None,
        certificate_and_key: None,
        password_secret: Some(SecretKeyRef {
            name: "scram-secret".to_string(),
            key: "pw".to_string(),
        }),
        username: Some("alice".to_string()),
    };
    match resolve_auth_plan(&Some(spec)).unwrap() {
        AuthResolution::Resolved(ResolvedAuth::ScramSha512 {
            username,
            secret_name,
            password_key,
        }) => {
            assert_eq!(username, "alice");
            assert_eq!(secret_name, "scram-secret");
            assert_eq!(password_key, "pw");
        }
        _ => panic!("expected manual SCRAM credentials"),
    }
}

#[test]
fn test_resolve_auth_plan_scram_missing_username() {
    let spec = AuthenticationSpec {
        auth_type: AuthenticationType::ScramSha512,
        kafka_user_ref: None,
        certificate_and_key: None,
        password_secret: None,
        username: None,
    };
    match resolve_auth_plan(&Some(spec)) {
        Err(Error::InvalidConfig(m)) => {
            assert_eq!(m, "SCRAM authentication requires username");
        }
        _ => panic!("expected an invalid-configuration error"),
    }
}

#[test]
fn test_user_secret_name_fallback() {
    assert_eq!(
        user_secret_name(Some("explicit".to_string()), "user"),
        "explicit"
    );
    assert_eq!(user_secret_name(None, "user"), "user");
}

#[test]
fn test_extract_secret_bytes() {
    let data = Some(vec![
        ("ca.crt".to_string(), b"PEM DATA".to_vec()),
        ("ca.p12".to_string(), b"P12 DATA".to_vec()),
    ]);
    let value = extract_secret_bytes(&data, "ca.crt", "prod-cluster-ca-cert").unwrap();
    assert_eq!(value, b"PEM DATA".to_vec());

    match extract_secret_bytes(&data, "missing", "prod-cluster-ca-cert") {
        Err(Error::SecretKeyMissing { name, key }) => {
            assert_eq!(name, "prod-cluster-ca-cert");
            assert_eq!(key, "missing");
        }
        _ => panic!("expected a missing-key error"),
    }
}

#[test]
fn test_error_reasons() {
    assert_eq!(
        Error::StrimziClusterNotFound {
            name: "c".to_string(),
            namespace: "ns".to_string()
        }
        .reason(),
        "StrimziClusterNotFound"
    );
    assert_eq!(Error::InvalidConfig("x".to_string()).reason(), "InvalidConfiguration");
    assert_eq!(
        Error::BackupNotFound {
            name: "b".to_string()
        }
        .reason(),
        "BackupNotFound"
    );
    assert_eq!(
        Error::BackupNotFound {
            name: "b".to_string()
        }
        .message(),
        "Backup 'b' not found"
    );
}
