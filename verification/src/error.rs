//! Error taxonomy shared by both reconcilers.

use vstd::prelude::*;
use vstd::string::StringExecFns;

verus! {

/// Everything that can go wrong during one reconciliation pass.
///
/// Payloads that the surrounding process receives from foreign APIs are
/// carried as plain rendered strings, so every variant is ordinary data.
#[derive(Debug)]
pub enum Error {
    /// Transport or API failure talking to the object store.
    Kube(String),
    /// A generated artifact could not be serialized.
    Serialization(String),
    /// The configuration document could not be rendered.
    Yaml(String),
    /// The referenced Kafka cluster resource does not exist.
    StrimziClusterNotFound { name: String, namespace: String },
    /// A referenced secret does not exist.
    SecretNotFound { name: String, namespace: String },
    /// A referenced secret exists but lacks the wanted key.
    SecretKeyMissing { name: String, key: String },
    /// The referenced KafkaUser resource does not exist.
    KafkaUserNotFound { name: String, namespace: String },
    /// The resource spec holds a value the operator cannot act on.
    InvalidConfig(String),
    /// The restore references a backup resource that does not exist.
    BackupNotFound { name: String },
    /// Creating a Job was refused.
    JobCreationFailed(String),
    /// A finalizer patch was refused.
    Finalizer(String),
    /// The object lacks a mandatory metadata key.
    MissingObjectKey(String),
}

impl Error {
    /// Machine-readable reason, used verbatim in status conditions.
    pub open spec fn reason_view(&self) -> Seq<char> {
        match self {
            Error::Kube(_) => "KubernetesError"@,
            Error::Serialization(_) => "SerializationError"@,
            Error::Yaml(_) => "SerializationError"@,
            Error::StrimziClusterNotFound { .. } => "StrimziClusterNotFound"@,
            Error::SecretNotFound { .. } => "SecretNotFound"@,
            Error::SecretKeyMissing { .. } => "SecretKeyMissing"@,
            Error::KafkaUserNotFound { .. } => "KafkaUserNotFound"@,
            Error::InvalidConfig(_) => "InvalidConfiguration"@,
            Error::BackupNotFound { .. } => "BackupNotFound"@,
            Error::JobCreationFailed(_) => "JobCreationFailed"@,
            Error::Finalizer(_) => "FinalizerError"@,
            Error::MissingObjectKey(_) => "MissingObjectKey"@,
        }
    }

    pub fn reason(&self) -> (r: &'static str)
        ensures
            r@ == self.reason_view(),
    {
        match self {
            Error::Kube(_) => "KubernetesError",
            Error::Serialization(_) => "SerializationError",
            Error::Yaml(_) => "SerializationError",
            Error::StrimziClusterNotFound { .. } => "StrimziClusterNotFound",
            Error::SecretNotFound { .. } => "SecretNotFound",
            Error::SecretKeyMissing { .. } => "SecretKeyMissing",
            Error::KafkaUserNotFound { .. } => "KafkaUserNotFound",
            Error::InvalidConfig(_) => "InvalidConfiguration",
            Error::BackupNotFound { .. } => "BackupNotFound",
            Error::JobCreationFailed(_) => "JobCreationFailed",
            Error::Finalizer(_) => "FinalizerError",
            Error::MissingObjectKey(_) => "MissingObjectKey",
        }
    }

    /// Human-readable message, used verbatim in status conditions.
    pub open spec fn message_view(&self) -> Seq<char> {
        match self {
            Error::Kube(m) => "Kubernetes API error: "@ + m@,
            Error::Serialization(m) => "Serialization error: "@ + m@,
            Error::Yaml(m) => "YAML serialization error: "@ + m@,
            Error::StrimziClusterNotFound { name, namespace } => "Strimzi cluster '"@ + name@
                + "' not found in namespace '"@ + namespace@ + "'"@,
            Error::SecretNotFound { name, namespace } => "Secret '"@ + name@
                + "' not found in namespace '"@ + namespace@ + "'"@,
            Error::SecretKeyMissing { name, key } => "Secret '"@ + name@ + "' missing key '"@
                + key@ + "'"@,
            Error::KafkaUserNotFound { name, namespace } => "KafkaUser '"@ + name@
                + "' not found in namespace '"@ + namespace@ + "'"@,
            Error::InvalidConfig(m) => "Invalid configuration: "@ + m@,
            Error::BackupNotFound { name } => "Backup '"@ + name@ + "' not found"@,
            Error::JobCreationFailed(m) => "Job creation failed: "@ + m@,
            Error::Finalizer(m) => "Finalizer error: "@ + m@,
            Error::MissingObjectKey(k) => "Missing object key: "@ + k@,
        }
    }

    pub fn message(&self) -> (r: String)
        ensures
            r@ == self.message_view(),
    {
        match self {
            Error::Kube(m) => {
                let mut out = "Kubernetes API error: ".to_owned();
                out.append(m.as_str());
                out
            },
            Error::Serialization(m) => {
                let mut out = "Serialization error: ".to_owned();
                out.append(m.as_str());
                out
            },
            Error::Yaml(m) => {
                let mut out = "YAML serialization error: ".to_owned();
                out.append(m.as_str());
                out
            },
            Error::StrimziClusterNotFound { name, namespace } => {
                let mut out = "Strimzi cluster '".to_owned();
                out.append(name.as_str());
                out.append("' not found in namespace '");
                out.append(namespace.as_str());
                out.append("'");
                out
            },
            Error::SecretNotFound { name, namespace } => {
                let mut out = "Secret '".to_owned();
                out.append(name.as_str());
                out.append("' not found in namespace '");
                out.append(namespace.as_str());
                out.append("'");
                out
            },
            Error::SecretKeyMissing { name, key } => {
                let mut out = "Secret '".to_owned();
                out.append(name.as_str());
                out.append("' missing key '");
                out.append(key.as_str());
                out.append("'");
                out
            },
            Error::KafkaUserNotFound { name, namespace } => {
                let mut out = "KafkaUser '".to_owned();
                out.append(name.as_str());
                out.append("' not found in namespace '");
                out.append(namespace.as_str());
                out.append("'");
                out
            },
            Error::InvalidConfig(m) => {
                let mut out = "Invalid configuration: ".to_owned();
                out.append(m.as_str());
                out
            },
            Error::BackupNotFound { name } => {
                let mut out = "Backup '".to_owned();
                out.append(name.as_str());
                out.append("' not found");
                out
            },
            Error::JobCreationFailed(m) => {
                let mut out = "Job creation failed: ".to_owned();
                out.append(m.as_str());
                out
            },
            Error::Finalizer(m) => {
                let mut out = "Finalizer error: ".to_owned();
                out.append(m.as_str());
                out
            },
            Error::MissingObjectKey(k) => {
                let mut out = "Missing object key: ".to_owned();
                out.append(k.as_str());
                out
            },
        }
    }
}

impl Clone for Error {
    fn clone(&self) -> (r: Self)
        ensures
            r == *self,
    {
        match self {
            Error::Kube(m) => Error::Kube(m.clone()),
            Error::Serialization(m) => Error::Serialization(m.clone()),
            Error::Yaml(m) => Error::Yaml(m.clone()),
            Error::StrimziClusterNotFound { name, namespace } => Error::StrimziClusterNotFound {
                name: name.clone(),
                namespace: namespace.clone(),
            },
            Error::SecretNotFound { name, namespace } => Error::SecretNotFound {
                name: name.clone(),
                namespace: namespace.clone(),
            },
            Error::SecretKeyMissing { name, key } => Error::SecretKeyMissing {
                name: name.clone(),
                key: key.clone(),
            },
            Error::KafkaUserNotFound { name, namespace } => Error::KafkaUserNotFound {
                name: name.clone(),
                namespace: namespace.clone(),
            },
            Error::InvalidConfig(m) => Error::InvalidConfig(m.clone()),
            Error::BackupNotFound { name } => Error::BackupNotFound { name: name.clone() },
            Error::JobCreationFailed(m) => Error::JobCreationFailed(m.clone()),
            Error::Finalizer(m) => Error::Finalizer(m.clone()),
            Error::MissingObjectKey(k) => Error::MissingObjectKey(k.clone()),
        }
    }
}

} // verus!
