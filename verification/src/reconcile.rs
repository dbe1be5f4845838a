//! Pieces shared by both reconciliation planners: the operator's global
//! names, the observed state of owned Jobs, and the requeue policy.

use vstd::prelude::*;
use crate::resources::ResourceMeta;
use crate::text::{concat_str, str_eq};

verus! {

/// The finalizer this operator owns on its resources.
pub fn finalizer_name() -> (r: &'static str)
    ensures
        r@ == "backup.strimzi.io/cleanup"@,
{
    "backup.strimzi.io/cleanup"
}

/// The annotation that requests an immediate one-shot run.
pub fn trigger_annotation_key() -> (r: &'static str)
    ensures
        r@ == "backup.strimzi.io/trigger"@,
{
    "backup.strimzi.io/trigger"
}

/// The annotation value that fires the trigger.
pub fn trigger_value_now() -> (r: &'static str)
    ensures
        r@ == "now"@,
{
    "now"
}

/// How long the controller waits before the next pass: a fixed ceiling
/// after a successful pass, a short retry after a failed one.
pub fn requeue_after_secs(success: bool) -> (r: u64)
    ensures
        r == (if success {
            300u64
        } else {
            30u64
        }),
{
    if success {
        300
    } else {
        30
    }
}

/// The observed state of one owned Job, as listed from the cluster.
pub struct JobState {
    pub name: String,
    /// Number of actively running pods.
    pub active: i32,
    /// Number of pods that reached success.
    pub succeeded: i32,
    /// Number of pods that failed.
    pub failed: i32,
    /// Epoch milliseconds of the Job's start, when reported.
    pub start_time: Option<i64>,
}

/// Whether any listed Job still has active pods.
pub open spec fn any_job_active(jobs: Seq<JobState>) -> bool {
    exists|i: int| 0 <= i < jobs.len() && jobs[i].active > 0
}

/// Whether a Job has reached a terminal state the reconciler reports.
pub open spec fn job_terminal(j: JobState) -> bool {
    j.succeeded > 0 || j.failed > 0
}

/// The terminal Jobs among the first `k`, in listing order.
pub open spec fn terminal_jobs(jobs: Seq<JobState>, k: int) -> Seq<JobState>
    decreases k,
{
    if k <= 0 {
        Seq::empty()
    } else {
        terminal_jobs(jobs, k - 1) + (if job_terminal(jobs[k - 1]) {
            seq![jobs[k - 1]]
        } else {
            Seq::empty()
        })
    }
}

/// Check whether a Job owned by this resource is still running.
pub fn is_job_running(jobs: &Vec<JobState>) -> (r: bool)
    ensures
        r == any_job_active(jobs@),
{
    let n = jobs.len();
    let mut i: usize = 0;
    while i < n
        invariant
            n == jobs@.len(),
            0 <= i <= n,
            forall|j: int| 0 <= j < i ==> jobs@[j].active <= 0,
        decreases n - i,
    {
        if jobs[i].active > 0 {
            return true;
        }
        i += 1;
    }
    false
}

/// Whether the finalizer list holds the given name.
pub open spec fn has_finalizer(finalizers: Seq<String>, name: Seq<char>) -> bool {
    exists|i: int| 0 <= i < finalizers.len() && finalizers[i]@ == name
}

/// Whether the resource still needs this operator's finalizer.
pub fn needs_finalizer(meta: &ResourceMeta) -> (r: bool)
    ensures
        r == !has_finalizer(meta.finalizers@, "backup.strimzi.io/cleanup"@),
{
    let n = meta.finalizers.len();
    let mut i: usize = 0;
    while i < n
        invariant
            n == meta.finalizers@.len(),
            0 <= i <= n,
            forall|j: int| 0 <= j < i ==> meta.finalizers@[j]@ != "backup.strimzi.io/cleanup"@,
        decreases n - i,
    {
        if str_eq(meta.finalizers[i].as_str(), finalizer_name()) {
            return false;
        }
        i += 1;
    }
    true
}

/// The value stored under `key`, if the annotation list holds it.
pub open spec fn annotation_value(
    annotations: Seq<(String, String)>,
    key: Seq<char>,
) -> Option<Seq<char>>
    decreases annotations.len(),
{
    if annotations.len() == 0 {
        None
    } else if annotations[0].0@ == key {
        Some(annotations[0].1@)
    } else {
        annotation_value(annotations.drop_first(), key)
    }
}

/// Whether the trigger annotation currently requests an immediate run.
pub open spec fn is_triggered_view(annotations: Seq<(String, String)>) -> bool {
    annotation_value(annotations, "backup.strimzi.io/trigger"@) == Some("now"@)
}

/// Check the trigger annotation.
pub fn is_triggered(meta: &ResourceMeta) -> (r: bool)
    ensures
        r == is_triggered_view(meta.annotations@),
{
    let n = meta.annotations.len();
    let mut i: usize = 0;
    proof {
        assert(meta.annotations@.skip(0) =~= meta.annotations@);
    }
    while i < n
        invariant
            n == meta.annotations@.len(),
            0 <= i <= n,
            annotation_value(meta.annotations@, "backup.strimzi.io/trigger"@)
                == annotation_value(meta.annotations@.skip(i as int), "backup.strimzi.io/trigger"@),
        decreases n - i,
    {
        proof {
            assert(meta.annotations@.skip(i as int)[0] == meta.annotations@[i as int]);
            assert(meta.annotations@.skip(i as int).drop_first() =~= meta.annotations@.skip(
                i + 1,
            ));
        }
        if str_eq(meta.annotations[i].0.as_str(), trigger_annotation_key()) {
            return str_eq(meta.annotations[i].1.as_str(), trigger_value_now());
        }
        i += 1;
    }
    proof {
        assert(meta.annotations@.skip(n as int).len() == 0);
    }
    false
}

/// The label selector the backup reconciler lists its Jobs with, built
/// from the same labels the generated Jobs carry.
pub fn backup_jobs_selector(backup_name: &str) -> (r: String)
    ensures
        r@ == "kafkabackup.com/backup="@ + backup_name@ + ",kafkabackup.com/type=backup"@,
{
    let out = concat_str("kafkabackup.com/backup=", backup_name);
    concat_str(out.as_str(), ",kafkabackup.com/type=backup")
}

/// The label selector the restore reconciler lists its Jobs with, built
/// from the same labels the generated Jobs carry.
pub fn restore_jobs_selector(restore_name: &str) -> (r: String)
    ensures
        r@ == "kafkabackup.com/restore="@ + restore_name@ + ",kafkabackup.com/type=restore"@,
{
    let out = concat_str("kafkabackup.com/restore=", restore_name);
    concat_str(out.as_str(), ",kafkabackup.com/type=restore")
}

/// A configuration artifact the pass wants upserted: the config map's name
/// and the document it carries.
pub struct ConfigArtifact {
    pub name: String,
    pub content: String,
}

} // verus!
