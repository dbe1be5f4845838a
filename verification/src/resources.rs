//! Plain-data models of the two custom resources and their shared spec and
//! status fragments.  Times are epoch milliseconds; maps are ordered lists
//! of pairs; everything is a value the verifier can look inside.

use vstd::prelude::*;
use crate::conditions::Condition;

verus! {

// --- shared spec fragments ---

/// Reference to a Strimzi Kafka cluster resource.
pub struct StrimziClusterRef {
    /// Name of the Kafka resource.
    pub name: String,
    /// Namespace of the Kafka resource; defaults to the owner's namespace.
    pub namespace: Option<String>,
}

#[derive(Clone, Copy, PartialEq, Eq, Structural, Debug)]
pub enum AuthenticationType {
    Tls,
    ScramSha512,
}

/// Reference to a KafkaUser resource.
pub struct KafkaUserRef {
    pub name: String,
}

/// Reference to a TLS certificate and key held in a secret.
pub struct CertificateAndKeySecretRef {
    pub secret_name: String,
    pub certificate: String,
    pub key: String,
}

/// Reference to one key of a secret.
pub struct SecretKeyRef {
    pub name: String,
    pub key: String,
}

/// Authentication configuration for connecting to Kafka.
pub struct AuthenticationSpec {
    pub auth_type: AuthenticationType,
    pub kafka_user_ref: Option<KafkaUserRef>,
    pub certificate_and_key: Option<CertificateAndKeySecretRef>,
    pub password_secret: Option<SecretKeyRef>,
    pub username: Option<String>,
}

/// Topic selection patterns: what to back up and what to leave out.
pub struct TopicSelection {
    pub include_patterns: Vec<String>,
    pub exclude_patterns: Vec<String>,
}

/// Consumer group selection patterns.
pub struct ConsumerGroupSelection {
    pub include_patterns: Vec<String>,
    pub exclude_patterns: Vec<String>,
}

#[derive(Clone, Copy, PartialEq, Eq, Structural, Debug)]
pub enum StorageType {
    S3,
    Azure,
    Gcs,
}

pub struct S3StorageSpec {
    pub bucket: String,
    pub region: Option<String>,
    pub prefix: Option<String>,
    pub endpoint: Option<String>,
    pub force_path_style: Option<bool>,
    pub credentials_secret: Option<SecretKeyRef>,
}

pub struct AzureStorageSpec {
    pub container: String,
    pub storage_account: String,
    pub prefix: Option<String>,
    pub credentials_secret: Option<SecretKeyRef>,
}

pub struct GcsStorageSpec {
    pub bucket: String,
    pub prefix: Option<String>,
    pub credentials_secret: Option<SecretKeyRef>,
}

/// Storage destination configuration.
pub struct StorageSpec {
    pub storage_type: StorageType,
    pub s3: Option<S3StorageSpec>,
    pub azure: Option<AzureStorageSpec>,
    pub gcs: Option<GcsStorageSpec>,
}

/// Extra labels and annotations for generated pods.
pub struct PodMetadata {
    pub labels: Vec<(String, String)>,
    pub annotations: Vec<(String, String)>,
}

/// Pod-level template overrides the reconciler itself reads.  Free-form
/// pass-through fields (affinity, tolerations, security contexts) are
/// applied outside the library on the rendered objects.
pub struct PodOverrides {
    pub metadata: Option<PodMetadata>,
}

/// Template for customizing generated pods.
pub struct PodTemplateSpec {
    pub pod: Option<PodOverrides>,
}

/// CPU/memory requests and limits, as quantity strings.
pub struct ResourceRequirementsSpec {
    pub requests: Vec<(String, String)>,
    pub limits: Vec<(String, String)>,
}

// --- backup spec and status ---

/// Backup tuning options.
pub struct BackupOptionsSpec {
    pub compression: Option<String>,
    pub encryption: Option<EncryptionSpec>,
    pub segment_size: Option<i64>,
    pub parallelism: Option<i32>,
}

pub struct EncryptionSpec {
    pub enabled: bool,
    pub key_secret: Option<SecretKeyRef>,
}

/// Cron schedule for periodic backups.
pub struct ScheduleSpec {
    pub cron: String,
    pub timezone: Option<String>,
    pub suspend: bool,
}

/// Retention policy for pruning old backups.
pub struct RetentionSpec {
    pub max_backups: Option<i32>,
    pub max_age: Option<String>,
    pub prune_on_schedule: bool,
}

/// The spec of a backup resource.
pub struct KafkaBackupSpec {
    pub strimzi_cluster_ref: StrimziClusterRef,
    pub authentication: Option<AuthenticationSpec>,
    pub topics: Option<TopicSelection>,
    pub consumer_groups: Option<ConsumerGroupSelection>,
    pub storage: StorageSpec,
    pub backup: Option<BackupOptionsSpec>,
    pub schedule: Option<ScheduleSpec>,
    pub retention: Option<RetentionSpec>,
    pub resources: Option<ResourceRequirementsSpec>,
    pub template: Option<PodTemplateSpec>,
    pub image: Option<String>,
}

#[derive(Clone, Copy, PartialEq, Eq, Structural, Debug)]
pub enum BackupStatus {
    Running,
    Completed,
    Failed,
}

/// One entry of the bounded backup history.
pub struct BackupHistoryEntry {
    pub id: String,
    pub status: BackupStatus,
    /// Epoch milliseconds.
    pub start_time: i64,
    pub completion_time: Option<i64>,
    pub size_bytes: Option<i64>,
    pub topics_backed_up: Option<i32>,
    pub partitions_backed_up: Option<i32>,
}

/// The mathematical value of a history entry.
#[verifier::ext_equal]
pub struct HistoryEntryView {
    pub id: Seq<char>,
    pub status: BackupStatus,
    pub start_time: i64,
    pub completion_time: Option<i64>,
    pub size_bytes: Option<i64>,
    pub topics_backed_up: Option<i32>,
    pub partitions_backed_up: Option<i32>,
}

impl DeepView for BackupHistoryEntry {
    type V = HistoryEntryView;

    open spec fn deep_view(&self) -> HistoryEntryView {
        HistoryEntryView {
            id: self.id@,
            status: self.status,
            start_time: self.start_time,
            completion_time: self.completion_time,
            size_bytes: self.size_bytes,
            topics_backed_up: self.topics_backed_up,
            partitions_backed_up: self.partitions_backed_up,
        }
    }
}

/// Summary of the most recent backup.
pub struct LastBackupInfo {
    pub id: String,
    pub start_time: i64,
    pub completion_time: Option<i64>,
    pub status: BackupStatus,
    pub size_bytes: Option<i64>,
    pub topics_backed_up: Option<i32>,
    pub partitions_backed_up: Option<i32>,
    pub oldest_timestamp: Option<i64>,
    pub newest_timestamp: Option<i64>,
}

/// The mathematical value of a last-backup summary.
#[verifier::ext_equal]
pub struct LastBackupInfoView {
    pub id: Seq<char>,
    pub start_time: i64,
    pub completion_time: Option<i64>,
    pub status: BackupStatus,
    pub size_bytes: Option<i64>,
    pub topics_backed_up: Option<i32>,
    pub partitions_backed_up: Option<i32>,
    pub oldest_timestamp: Option<i64>,
    pub newest_timestamp: Option<i64>,
}

impl DeepView for LastBackupInfo {
    type V = LastBackupInfoView;

    open spec fn deep_view(&self) -> LastBackupInfoView {
        LastBackupInfoView {
            id: self.id@,
            start_time: self.start_time,
            completion_time: self.completion_time,
            status: self.status,
            size_bytes: self.size_bytes,
            topics_backed_up: self.topics_backed_up,
            partitions_backed_up: self.partitions_backed_up,
            oldest_timestamp: self.oldest_timestamp,
            newest_timestamp: self.newest_timestamp,
        }
    }
}

/// The status subresource of a backup resource.
pub struct KafkaBackupStatus {
    pub conditions: Vec<Condition>,
    pub last_backup: Option<LastBackupInfo>,
    pub backup_history: Vec<BackupHistoryEntry>,
    pub observed_generation: Option<i64>,
    pub next_scheduled_backup: Option<String>,
}

// --- restore spec and status ---

/// Reference to the source backup resource and optional snapshot.
pub struct BackupRef {
    pub name: String,
    pub backup_id: Option<String>,
}

/// Point-in-time recovery target: an absolute timestamp or an offset from
/// the end of the backup.
pub struct PointInTimeSpec {
    pub timestamp: Option<String>,
    pub offset_from_end: Option<String>,
}

/// Renames one topic during restore.
pub struct TopicMappingEntry {
    pub source_topic: String,
    pub target_topic: String,
}

/// Consumer group restore configuration.
pub struct ConsumerGroupRestoreSpec {
    pub restore: bool,
    pub mapping: Vec<ConsumerGroupMapping>,
}

/// Renames one consumer group during restore.
pub struct ConsumerGroupMapping {
    pub source_group: String,
    pub target_group: String,
}

#[derive(Clone, Copy, PartialEq, Eq, Structural, Debug)]
pub enum TopicCreationPolicy {
    Auto,
    Manual,
}

#[derive(Clone, Copy, PartialEq, Eq, Structural, Debug)]
pub enum ExistingTopicPolicy {
    Fail,
    Append,
    Overwrite,
}

/// Restore behaviour options.
pub struct RestoreOptionsSpec {
    pub topic_creation: Option<TopicCreationPolicy>,
    pub existing_topic_policy: Option<ExistingTopicPolicy>,
    pub parallelism: Option<i32>,
}

/// The spec of a restore resource.
pub struct KafkaRestoreSpec {
    pub strimzi_cluster_ref: StrimziClusterRef,
    pub authentication: Option<AuthenticationSpec>,
    pub backup_ref: BackupRef,
    pub point_in_time: Option<PointInTimeSpec>,
    pub topic_mapping: Vec<TopicMappingEntry>,
    pub consumer_groups: Option<ConsumerGroupRestoreSpec>,
    pub restore: Option<RestoreOptionsSpec>,
    pub resources: Option<ResourceRequirementsSpec>,
    pub template: Option<PodTemplateSpec>,
    pub image: Option<String>,
}

#[derive(Clone, Copy, PartialEq, Eq, Structural, Debug)]
pub enum RestoreStatus {
    Running,
    Completed,
    Failed,
}

/// Details of the single restore operation.
pub struct RestoreInfo {
    pub start_time: i64,
    pub completion_time: Option<i64>,
    pub status: RestoreStatus,
    pub restored_topics: Option<i32>,
    pub restored_partitions: Option<i32>,
    pub restored_bytes: Option<i64>,
    pub point_in_time_target: Option<i64>,
    pub actual_point_in_time: Option<i64>,
}

/// The mathematical value of a restore summary.  Every field is already a
/// plain value, so the view is the record itself.
#[verifier::ext_equal]
pub struct RestoreInfoView {
    pub start_time: i64,
    pub completion_time: Option<i64>,
    pub status: RestoreStatus,
    pub restored_topics: Option<i32>,
    pub restored_partitions: Option<i32>,
    pub restored_bytes: Option<i64>,
    pub point_in_time_target: Option<i64>,
    pub actual_point_in_time: Option<i64>,
}

impl DeepView for RestoreInfo {
    type V = RestoreInfoView;

    open spec fn deep_view(&self) -> RestoreInfoView {
        RestoreInfoView {
            start_time: self.start_time,
            completion_time: self.completion_time,
            status: self.status,
            restored_topics: self.restored_topics,
            restored_partitions: self.restored_partitions,
            restored_bytes: self.restored_bytes,
            point_in_time_target: self.point_in_time_target,
            actual_point_in_time: self.actual_point_in_time,
        }
    }
}

/// The status subresource of a restore resource.
pub struct KafkaRestoreStatus {
    pub conditions: Vec<Condition>,
    pub restore: Option<RestoreInfo>,
    pub observed_generation: Option<i64>,
}

// --- resource objects ---

/// The metadata fields of a resource that the reconciler reads or writes.
pub struct ResourceMeta {
    pub name: String,
    pub namespace: Option<String>,
    pub uid: Option<String>,
    pub generation: Option<i64>,
    /// Whether a deletion timestamp is present.
    pub deletion_requested: bool,
    pub finalizers: Vec<String>,
    pub annotations: Vec<(String, String)>,
}

/// A snapshot of a backup resource, as one reconciliation pass sees it.
pub struct KafkaBackup {
    pub metadata: ResourceMeta,
    pub spec: KafkaBackupSpec,
    pub status: Option<KafkaBackupStatus>,
}

/// A snapshot of a restore resource, as one reconciliation pass sees it.
pub struct KafkaRestore {
    pub metadata: ResourceMeta,
    pub spec: KafkaRestoreSpec,
    pub status: Option<KafkaRestoreStatus>,
}

} // verus!
