//! The backup reconciliation planner: one pass, as a pure function from
//! the resource snapshot and freshly resolved external state to the side
//! effects and the single status write the pass wants performed.
//!
//! Status writes are cumulative: the pass starts from the status the
//! resource already carries, routes every condition change through the
//! condition state machine (so transition times move only when a status
//! actually changes), appends newly completed Jobs to the bounded history
//! exactly once, and applies the retention policy to the result.

use vstd::prelude::*;
use crate::clock::compact_utc_of;
use crate::clock::format_compact_utc;
use crate::conditions::{
    cond_view, new_condition_at, not_ready_at, ready_at, set_cond, set_condition, Condition,
    ConditionView,
};
use crate::config::{backup_config_view, build_backup_config_yaml, storage_missing_msg, storage_pairs};
use crate::error::Error;
use crate::jobs::{build_backup_cronjob, build_backup_job, CronJobBlueprint, JobBlueprint};
use crate::reconcile::{
    any_job_active, has_finalizer, is_job_running, is_triggered, is_triggered_view, job_terminal,
    needs_finalizer, terminal_jobs, ConfigArtifact, JobState,
};
use crate::resources::{
    BackupHistoryEntry, BackupStatus, HistoryEntryView, KafkaBackup, KafkaBackupStatus,
    LastBackupInfo, LastBackupInfoView,
};
use crate::retention::{evaluate_retention, should_prune, vec_contains_str};
use crate::strimzi::{ResolvedAuth, ResolvedKafkaCluster, ResolvedTlsCerts};
use crate::text::concat_str;

verus! {

/// The generation a status update reports as observed.
pub open spec fn backup_generation(b: KafkaBackup) -> i64 {
    match b.metadata.generation {
        Some(g) => g,
        None => 0i64,
    }
}

/// Whether the pass takes the scheduled (CronJob) path.
pub open spec fn cron_path(b: KafkaBackup) -> bool {
    b.spec.schedule matches Some(s) && !s.suspend
}

/// Whether the pass takes the one-shot (Job) path: no schedule, or a
/// manual trigger.
pub open spec fn oneshot_path(b: KafkaBackup) -> bool {
    b.spec.schedule is None || is_triggered_view(b.metadata.annotations@)
}

// --- the status the pass starts from ---

/// The conditions the resource's status already carries.
pub open spec fn base_conditions(b: KafkaBackup) -> Seq<ConditionView> {
    match b.status {
        Some(st) => st.conditions.deep_view(),
        None => Seq::empty(),
    }
}

/// The history the resource's status already carries.
pub open spec fn base_history(b: KafkaBackup) -> Seq<HistoryEntryView> {
    match b.status {
        Some(st) => st.backup_history.deep_view(),
        None => Seq::empty(),
    }
}

/// The last-backup summary the resource's status already carries.
pub open spec fn base_last_backup(b: KafkaBackup) -> Option<LastBackupInfoView> {
    match b.status {
        Some(st) => st.last_backup.deep_view(),
        None => None,
    }
}

/// The next-scheduled text the resource's status already carries.
pub open spec fn base_next_scheduled(b: KafkaBackup) -> Option<Seq<char>> {
    match b.status {
        Some(st) => st.next_scheduled_backup.deep_view(),
        None => None,
    }
}

// --- the conditions each event contributes ---

pub open spec fn scheduled_cond(cron: Seq<char>, now: i64) -> ConditionView {
    cond_view("Ready"@, "True"@, "BackupScheduled"@, "Next backup scheduled: "@ + cron, now)
}

pub open spec fn running_cond(now: i64) -> ConditionView {
    cond_view("Ready"@, "False"@, "BackupRunning"@, "Backup job is running"@, now)
}

pub open spec fn completed_cond(now: i64) -> ConditionView {
    cond_view("Ready"@, "True"@, "BackupCompleted"@, "Backup completed successfully"@, now)
}

/// The message reported for a failed Job.
pub open spec fn failed_job_msg(j: JobState) -> Seq<char> {
    "Job creation failed: "@ + ("Job "@ + j.name@ + " failed"@)
}

/// A condition list after a failure lands on it: `Ready=False` then
/// `Error=True`, both set through the state machine.
pub open spec fn error_conds_applied(
    base: Seq<ConditionView>,
    reason: Seq<char>,
    message: Seq<char>,
    now: i64,
) -> Seq<ConditionView> {
    set_cond(
        set_cond(base, cond_view("Ready"@, "False"@, reason, message, now)),
        cond_view("Error"@, "True"@, reason, message, now),
    )
}

// --- the completion fold ---

/// What the status accumulates while the pass walks the Job listing.
pub struct StatusFold {
    pub conditions: Seq<ConditionView>,
    pub history: Seq<HistoryEntryView>,
    pub last_backup: Option<LastBackupInfoView>,
}

/// Whether the history already reflects a snapshot id.
pub open spec fn history_has(h: Seq<HistoryEntryView>, id: Seq<char>) -> bool {
    exists|i: int| 0 <= i < h.len() && h[i].id == id
}

/// The history entry a succeeded Job contributes.
pub open spec fn completed_entry(j: JobState, now: i64) -> HistoryEntryView {
    HistoryEntryView {
        id: j.name@,
        status: BackupStatus::Completed,
        start_time: match j.start_time {
            Some(t) => t,
            None => now,
        },
        completion_time: Some(now),
        size_bytes: None,
        topics_backed_up: None,
        partitions_backed_up: None,
    }
}

/// The last-backup summary a succeeded Job contributes.
pub open spec fn completed_summary(j: JobState, now: i64) -> LastBackupInfoView {
    LastBackupInfoView {
        id: j.name@,
        start_time: match j.start_time {
            Some(t) => t,
            None => now,
        },
        completion_time: Some(now),
        status: BackupStatus::Completed,
        size_bytes: None,
        topics_backed_up: None,
        partitions_backed_up: None,
        oldest_timestamp: None,
        newest_timestamp: None,
    }
}

/// The status after the first `k` listed Jobs are taken in.  A succeeded
/// Job whose id the history already holds is left alone — a terminal Job
/// is reflected at most once; a new success appends its history entry,
/// becomes the last-backup summary and sets the completed condition; a
/// failure sets the error condition pair.
pub open spec fn completion_fold(jobs: Seq<JobState>, k: int, acc: StatusFold, now: i64) -> StatusFold
    decreases k,
{
    if k <= 0 {
        acc
    } else {
        let prev = completion_fold(jobs, k - 1, acc, now);
        let j = jobs[k - 1];
        if j.succeeded > 0 {
            if history_has(prev.history, j.name@) {
                prev
            } else {
                StatusFold {
                    conditions: set_cond(prev.conditions, completed_cond(now)),
                    history: prev.history.push(completed_entry(j, now)),
                    last_backup: Some(completed_summary(j, now)),
                }
            }
        } else if j.failed > 0 {
            StatusFold {
                conditions: error_conds_applied(
                    prev.conditions,
                    "JobCreationFailed"@,
                    failed_job_msg(j),
                    now,
                ),
                ..prev
            }
        } else {
            prev
        }
    }
}

/// The history with the pruned ids removed, keeping order.
pub open spec fn remove_pruned(
    h: Seq<HistoryEntryView>,
    ids: Seq<Seq<char>>,
    k: int,
) -> Seq<HistoryEntryView>
    decreases k,
{
    if k <= 0 {
        Seq::empty()
    } else {
        remove_pruned(h, ids, k - 1) + (if ids.contains(h[k - 1].id) {
            Seq::empty()
        } else {
            seq![h[k - 1]]
        })
    }
}

proof fn lemma_remove_none(h: Seq<HistoryEntryView>, ids: Seq<Seq<char>>, k: int)
    requires
        0 <= k <= h.len(),
        ids.len() == 0,
    ensures
        remove_pruned(h, ids, k) =~= h.take(k),
    decreases k,
{
    if k > 0 {
        lemma_remove_none(h, ids, k - 1);
    }
}

// --- small copies of status fragments ---

/// Copy a condition list.
#[verifier::loop_isolation(false)]
pub fn clone_conditions(v: &Vec<Condition>) -> (r: Vec<Condition>)
    ensures
        r.deep_view() == v.deep_view(),
{
    let mut out: Vec<Condition> = Vec::new();
    let n = v.len();
    let mut i: usize = 0;
    while i < n
        invariant
            n == v@.len(),
            0 <= i <= n,
            out.deep_view() =~= v.deep_view().take(i as int),
        decreases n - i,
    {
        out.push(v[i].clone());
        proof {
            assert(out.deep_view() =~= v.deep_view().take(i + 1));
        }
        i += 1;
    }
    proof {
        assert(v.deep_view().take(n as int) =~= v.deep_view());
    }
    out
}

fn clone_entry(e: &BackupHistoryEntry) -> (r: BackupHistoryEntry)
    ensures
        r.deep_view() == e.deep_view(),
{
    BackupHistoryEntry {
        id: e.id.clone(),
        status: e.status,
        start_time: e.start_time,
        completion_time: e.completion_time,
        size_bytes: e.size_bytes,
        topics_backed_up: e.topics_backed_up,
        partitions_backed_up: e.partitions_backed_up,
    }
}

#[verifier::loop_isolation(false)]
fn clone_history(v: &Vec<BackupHistoryEntry>) -> (r: Vec<BackupHistoryEntry>)
    ensures
        r.deep_view() == v.deep_view(),
{
    let mut out: Vec<BackupHistoryEntry> = Vec::new();
    let n = v.len();
    let mut i: usize = 0;
    while i < n
        invariant
            n == v@.len(),
            0 <= i <= n,
            out.deep_view() =~= v.deep_view().take(i as int),
        decreases n - i,
    {
        out.push(clone_entry(&v[i]));
        proof {
            assert(out.deep_view() =~= v.deep_view().take(i + 1));
        }
        i += 1;
    }
    proof {
        assert(v.deep_view().take(n as int) =~= v.deep_view());
    }
    out
}

fn clone_last_backup(o: &Option<LastBackupInfo>) -> (r: Option<LastBackupInfo>)
    ensures
        r.deep_view() == o.deep_view(),
{
    match o {
        Some(lb) => Some(
            LastBackupInfo {
                id: lb.id.clone(),
                start_time: lb.start_time,
                completion_time: lb.completion_time,
                status: lb.status,
                size_bytes: lb.size_bytes,
                topics_backed_up: lb.topics_backed_up,
                partitions_backed_up: lb.partitions_backed_up,
                oldest_timestamp: lb.oldest_timestamp,
                newest_timestamp: lb.newest_timestamp,
            },
        ),
        None => None,
    }
}

fn clone_opt_string(o: &Option<String>) -> (r: Option<String>)
    ensures
        r.deep_view() == o.deep_view(),
{
    match o {
        Some(s) => Some(s.clone()),
        None => None,
    }
}

fn backup_base_conditions(b: &KafkaBackup) -> (r: Vec<Condition>)
    ensures
        r.deep_view() == base_conditions(*b),
{
    match &b.status {
        Some(st) => clone_conditions(&st.conditions),
        None => Vec::new(),
    }
}

fn backup_base_history(b: &KafkaBackup) -> (r: Vec<BackupHistoryEntry>)
    ensures
        r.deep_view() == base_history(*b),
{
    match &b.status {
        Some(st) => clone_history(&st.backup_history),
        None => Vec::new(),
    }
}

fn backup_base_last(b: &KafkaBackup) -> (r: Option<LastBackupInfo>)
    ensures
        r.deep_view() == base_last_backup(*b),
{
    match &b.status {
        Some(st) => clone_last_backup(&st.last_backup),
        None => None,
    }
}

fn backup_base_next_scheduled(b: &KafkaBackup) -> (r: Option<String>)
    ensures
        r.deep_view() == base_next_scheduled(*b),
{
    match &b.status {
        Some(st) => clone_opt_string(&st.next_scheduled_backup),
        None => None,
    }
}

/// Whether the history vector already reflects a snapshot id.
#[verifier::loop_isolation(false)]
pub fn history_contains(h: &Vec<BackupHistoryEntry>, id: &str) -> (r: bool)
    ensures
        r == history_has(h.deep_view(), id@),
{
    let n = h.len();
    let mut i: usize = 0;
    while i < n
        invariant
            n == h@.len(),
            0 <= i <= n,
            forall|j: int| 0 <= j < i ==> h.deep_view()[j].id != id@,
        decreases n - i,
    {
        if crate::text::str_eq(h[i].id.as_str(), id) {
            assert(h.deep_view()[i as int].id == id@);
            return true;
        }
        i += 1;
    }
    false
}

/// Apply the error condition pair for a failed pass through the condition
/// state machine.
pub fn apply_error_conditions(conditions: &mut Vec<Condition>, error: &Error, now_millis: i64)
    ensures
        final(conditions).deep_view() == error_conds_applied(
            old(conditions).deep_view(),
            error.reason_view(),
            error.message_view(),
            now_millis,
        ),
{
    let message = error.message();
    set_condition(conditions, not_ready_at(error.reason(), message.as_str(), now_millis));
    set_condition(
        conditions,
        new_condition_at("Error", "True", error.reason(), message.as_str(), now_millis),
    );
}

/// A status write for a failed pass: the error condition pair lands on the
/// carried conditions, every other status field is carried unchanged.
pub open spec fn is_error_status(
    s: KafkaBackupStatus,
    b: KafkaBackup,
    generation: i64,
    reason: Seq<char>,
    message: Seq<char>,
    now: i64,
) -> bool {
    s.conditions.deep_view() == error_conds_applied(base_conditions(b), reason, message, now)
        && s.backup_history.deep_view() == base_history(b) && s.last_backup.deep_view()
        == base_last_backup(b) && s.next_scheduled_backup.deep_view() == base_next_scheduled(b)
        && s.observed_generation == Some(generation)
}

/// Build the status write for a failed pass.
pub fn status_error(backup: &KafkaBackup, generation: i64, error: &Error, now_millis: i64) -> (s:
    KafkaBackupStatus)
    ensures
        is_error_status(
            s,
            *backup,
            generation,
            error.reason_view(),
            error.message_view(),
            now_millis,
        ),
{
    let mut conditions = backup_base_conditions(backup);
    apply_error_conditions(&mut conditions, error, now_millis);
    KafkaBackupStatus {
        conditions,
        last_backup: backup_base_last(backup),
        backup_history: backup_base_history(backup),
        observed_generation: Some(generation),
        next_scheduled_backup: backup_base_next_scheduled(backup),
    }
}

/// Take the terminal Jobs of one listing into the accumulating status:
/// each new success appends its history entry once, refreshes the
/// last-backup summary and sets the completed condition; each failure sets
/// the error condition pair; a success already in the history changes
/// nothing.  Returns whether any terminal Job was seen.
#[verifier::loop_isolation(false)]
pub fn check_job_completion(
    jobs: &Vec<JobState>,
    conditions: &mut Vec<Condition>,
    history: &mut Vec<BackupHistoryEntry>,
    last_backup: &mut Option<LastBackupInfo>,
    now_millis: i64,
) -> (terminal_seen: bool)
    ensures
        ({
            let fold = completion_fold(
                jobs@,
                jobs@.len() as int,
                StatusFold {
                    conditions: old(conditions).deep_view(),
                    history: old(history).deep_view(),
                    last_backup: old(last_backup).deep_view(),
                },
                now_millis,
            );
            final(conditions).deep_view() == fold.conditions && final(history).deep_view()
                == fold.history && final(last_backup).deep_view() == fold.last_backup
        }),
        terminal_seen == (terminal_jobs(jobs@, jobs@.len() as int).len() > 0),
{
    let ghost acc0 = StatusFold {
        conditions: old(conditions).deep_view(),
        history: old(history).deep_view(),
        last_backup: old(last_backup).deep_view(),
    };
    let n = jobs.len();
    let mut terminal_seen = false;
    let mut k: usize = 0;
    while k < n
        invariant
            n == jobs@.len(),
            0 <= k <= n,
            ({
                let fold = completion_fold(jobs@, k as int, acc0, now_millis);
                conditions.deep_view() == fold.conditions && history.deep_view() == fold.history
                    && last_backup.deep_view() == fold.last_backup
            }),
            terminal_seen == (terminal_jobs(jobs@, k as int).len() > 0),
        decreases n - k,
    {
        if jobs[k].succeeded > 0 {
            if !history_contains(history, jobs[k].name.as_str()) {
                set_condition(
                    conditions,
                    ready_at("BackupCompleted", "Backup completed successfully", now_millis),
                );
                let start_time: i64 = match jobs[k].start_time {
                    Some(t) => t,
                    None => now_millis,
                };
                history.push(
                    BackupHistoryEntry {
                        id: jobs[k].name.clone(),
                        status: BackupStatus::Completed,
                        start_time,
                        completion_time: Some(now_millis),
                        size_bytes: None,
                        topics_backed_up: None,
                        partitions_backed_up: None,
                    },
                );
                *last_backup = Some(
                    LastBackupInfo {
                        id: jobs[k].name.clone(),
                        start_time,
                        completion_time: Some(now_millis),
                        status: BackupStatus::Completed,
                        size_bytes: None,
                        topics_backed_up: None,
                        partitions_backed_up: None,
                        oldest_timestamp: None,
                        newest_timestamp: None,
                    },
                );
                proof {
                    assert(history.deep_view() =~= completion_fold(
                        jobs@,
                        k as int,
                        acc0,
                        now_millis,
                    ).history.push(completed_entry(jobs@[k as int], now_millis)));
                }
            }
            terminal_seen = true;
        } else if jobs[k].failed > 0 {
            let mut m = concat_str("Job ", jobs[k].name.as_str());
            m.append(" failed");
            let err = Error::JobCreationFailed(m);
            apply_error_conditions(conditions, &err, now_millis);
            terminal_seen = true;
        }
        proof {
            assert(terminal_jobs(jobs@, k + 1) =~= terminal_jobs(jobs@, k as int) + (
            if job_terminal(jobs@[k as int]) {
                seq![jobs@[k as int]]
            } else {
                Seq::empty()
            }));
        }
        k += 1;
    }
    terminal_seen
}

/// What the pass wants deleted before the finalizer comes off.
pub struct CleanupPlan {
    /// Label selector of the owned Jobs to delete.
    pub job_selector: String,
    /// Name of the owned CronJob to delete.
    pub cronjob_name: String,
    /// Name of the owned config map to delete.
    pub config_map_name: String,
}

/// Everything one backup reconciliation pass decides.  The surrounding
/// process performs the parts in order: cleanup (then remove the
/// finalizer and stop), the finalizer patch, the config-map upsert, the
/// CronJob upsert, the Job creation, the trigger-annotation removal, the
/// status patch, and the deletion of the pruned snapshots.
pub struct BackupPlan {
    pub cleanup: Option<CleanupPlan>,
    pub add_finalizer: bool,
    pub config_map: Option<ConfigArtifact>,
    pub cronjob: Option<CronJobBlueprint>,
    pub job: Option<JobBlueprint>,
    pub clear_trigger: bool,
    /// The one cumulative status write of this pass, when anything moved.
    pub status_update: Option<KafkaBackupStatus>,
    /// Snapshot ids due for deletion under the retention policy; their
    /// history entries are already absent from `status_update`.
    pub prune_ids: Vec<String>,
    pub outcome: Result<(), Error>,
}

/// A plan that performs no side effect beyond what its explicit fields
/// say.
pub open spec fn no_artifacts(plan: BackupPlan) -> bool {
    plan.config_map is None && plan.cronjob is None && plan.job is None && !plan.clear_trigger
}

/// An error plan: no artifacts, no pruning, the one status write carries
/// the error condition pair.
pub open spec fn error_plan(
    plan: BackupPlan,
    b: KafkaBackup,
    reason: Seq<char>,
    message: Seq<char>,
    now: i64,
) -> bool {
    no_artifacts(plan) && plan.prune_ids@.len() == 0 && (plan.status_update matches Some(st)
        && is_error_status(st, b, backup_generation(b), reason, message, now))
}

/// The artifacts a nominal pass requests: the configuration document,
/// the CronJob exactly on the scheduled path, the Job exactly when the
/// one-shot path fires with no Job still active, and the trigger cleared
/// exactly when it fired.
pub open spec fn nominal_artifacts(
    plan: BackupPlan,
    b: KafkaBackup,
    cl: ResolvedKafkaCluster,
    a: ResolvedAuth,
    p: Seq<(Seq<char>, Seq<char>)>,
    jobs: Seq<JobState>,
    now: i64,
) -> bool {
    let created = oneshot_path(b) && !any_job_active(jobs);
    (plan.config_map matches Some(cm) && cm.name@ == b.metadata.name@ + "-config"@ && cm.content@
        == backup_config_view(b, cl, a, p)) && (plan.cronjob is Some <==> cron_path(b)) && (
    cron_path(b) ==> (plan.cronjob matches Some(cj) && cj.name@ == b.metadata.name@
        + "-scheduled"@ && cj.schedule@ == b.spec.schedule.unwrap().cron@ && cj.suspend
        == b.spec.schedule.unwrap().suspend && cj.concurrency_policy@ == "Forbid"@
        && cj.owner.name@ == b.metadata.name@)) && (plan.job is Some <==> created) && (created
        ==> (plan.job matches Some(j) && j.name@ == b.metadata.name@ + "-"@ + compact_utc_of(now)
        && j.owner.name@ == b.metadata.name@ && j.pod.args.deep_view() == seq![
        "backup"@,
        "--config"@,
        "/config/backup.yaml"@,
    ])) && plan.clear_trigger == is_triggered_view(b.metadata.annotations@)
}

/// The conditions, history and summary a nominal pass accumulates.
pub open spec fn nominal_fold(b: KafkaBackup, jobs: Seq<JobState>, now: i64) -> StatusFold {
    let created = oneshot_path(b) && !any_job_active(jobs);
    let c1 = if cron_path(b) {
        set_cond(base_conditions(b), scheduled_cond(b.spec.schedule.unwrap().cron@, now))
    } else {
        base_conditions(b)
    };
    let c2 = if created {
        set_cond(c1, running_cond(now))
    } else {
        c1
    };
    completion_fold(
        jobs,
        jobs.len() as int,
        StatusFold {
            conditions: c2,
            history: base_history(b),
            last_backup: base_last_backup(b),
        },
        now,
    )
}

/// The prune selection of a nominal pass: exactly the retention policy's
/// choice over the accumulated history, nothing without a policy.
pub open spec fn nominal_prune(plan: BackupPlan, b: KafkaBackup, jobs: Seq<JobState>, now: i64) -> bool {
    let fold = nominal_fold(b, jobs, now);
    match b.spec.retention {
        Some(ret) => (forall|id: Seq<char>|
            #[trigger] plan.prune_ids.deep_view().contains(id) <==> exists|i: int|
                0 <= i < fold.history.len() && #[trigger] fold.history[i].id == id
                    && should_prune(fold.history, i, ret, now)),
        None => plan.prune_ids@.len() == 0,
    }
}

/// The one status write of a nominal pass: present exactly when the pass
/// moved anything, carrying the folded conditions, the pruned history,
/// the folded summary and the schedule text.
pub open spec fn nominal_status(plan: BackupPlan, b: KafkaBackup, jobs: Seq<JobState>, now: i64) -> bool {
    let fold = nominal_fold(b, jobs, now);
    let created = oneshot_path(b) && !any_job_active(jobs);
    let write_needed = cron_path(b) || created || terminal_jobs(jobs, jobs.len() as int).len() > 0
        || plan.prune_ids@.len() > 0;
    (plan.status_update is Some <==> write_needed) && (plan.status_update matches Some(st) ==> (
    st.conditions.deep_view() == fold.conditions && st.backup_history.deep_view() == remove_pruned(
        fold.history,
        plan.prune_ids.deep_view(),
        fold.history.len() as int,
    ) && st.last_backup.deep_view() == fold.last_backup && st.observed_generation == Some(
        backup_generation(b),
    ) && st.next_scheduled_backup.deep_view() == (if cron_path(b) {
        Some(b.spec.schedule.unwrap().cron@)
    } else {
        base_next_scheduled(b)
    })))
}

/// Plan one backup reconciliation pass.
///
/// A deletion runs cleanup and nothing else.  Every resolution or
/// validation failure surfaces as a `Ready=False` plus `Error=True`
/// condition write before the pass fails.  Otherwise the pass upserts the
/// configuration document, takes the scheduled path and/or the one-shot
/// path, folds every newly terminal Job into the carried status exactly
/// once, and applies the retention policy.  A Job is only requested when
/// no owned Job is still active, so repeated passes never duplicate work.
#[verifier::rlimit(100)]
#[verifier::spinoff_prover]
pub fn reconcile_backup(
    backup: &KafkaBackup,
    cluster: &Result<ResolvedKafkaCluster, Error>,
    tls_certs: &Option<ResolvedTlsCerts>,
    auth: &Result<ResolvedAuth, Error>,
    jobs: &Vec<JobState>,
    now_millis: i64,
) -> (plan: BackupPlan)
    ensures
        plan.cleanup is Some <==> backup.metadata.deletion_requested,
        backup.metadata.deletion_requested ==> (plan.cleanup matches Some(c)
            && c.job_selector@ == "app.kubernetes.io/managed-by=kafka-backup-operator,kafkabackup.com/backup="@
            + backup.metadata.name@ && c.cronjob_name@ == backup.metadata.name@ + "-scheduled"@
            && c.config_map_name@ == backup.metadata.name@ + "-config"@ && !plan.add_finalizer
            && no_artifacts(plan) && plan.status_update is None && plan.prune_ids@.len() == 0
            && plan.outcome is Ok),
        !backup.metadata.deletion_requested ==> plan.add_finalizer == !has_finalizer(
            backup.metadata.finalizers@,
            "backup.strimzi.io/cleanup"@,
        ),
        !backup.metadata.deletion_requested ==> (any_job_active(jobs@) ==> plan.job is None),
        !backup.metadata.deletion_requested ==> match cluster {
            Err(e) => error_plan(plan, *backup, e.reason_view(), e.message_view(), now_millis) && (
            plan.outcome matches Err(e2) && e2 == e),
            Ok(cl) => match auth {
                Err(e) => error_plan(plan, *backup, e.reason_view(), e.message_view(), now_millis)
                    && (plan.outcome matches Err(e2) && e2 == e),
                Ok(a) => match storage_pairs(backup.spec.storage) {
                    None => error_plan(
                        plan,
                        *backup,
                        "InvalidConfiguration"@,
                        "Invalid configuration: "@ + storage_missing_msg(
                            backup.spec.storage.storage_type,
                        ),
                        now_millis,
                    ) && (plan.outcome matches Err(Error::InvalidConfig(m)) && m@
                        == storage_missing_msg(backup.spec.storage.storage_type)),
                    Some(p) => nominal_artifacts(plan, *backup, *cl, *a, p, jobs@, now_millis)
                        && nominal_prune(plan, *backup, jobs@, now_millis) && nominal_status(
                        plan,
                        *backup,
                        jobs@,
                        now_millis,
                    ) && plan.outcome is Ok,
                },
            },
        },
{
    let name = backup.metadata.name.clone();
    if backup.metadata.deletion_requested {
        let selector = concat_str(
            "app.kubernetes.io/managed-by=kafka-backup-operator,kafkabackup.com/backup=",
            name.as_str(),
        );
        return BackupPlan {
            cleanup: Some(
                CleanupPlan {
                    job_selector: selector,
                    cronjob_name: concat_str(name.as_str(), "-scheduled"),
                    config_map_name: concat_str(name.as_str(), "-config"),
                },
            ),
            add_finalizer: false,
            config_map: None,
            cronjob: None,
            job: None,
            clear_trigger: false,
            status_update: None,
            prune_ids: Vec::new(),
            outcome: Ok(()),
        };
    }
    let add_finalizer = needs_finalizer(&backup.metadata);
    let generation: i64 = match backup.metadata.generation {
        Some(g) => g,
        None => 0,
    };
    let cl = match cluster {
        Ok(c) => c,
        Err(e) => {
            return BackupPlan {
                cleanup: None,
                add_finalizer,
                config_map: None,
                cronjob: None,
                job: None,
                clear_trigger: false,
                status_update: Some(status_error(backup, generation, e, now_millis)),
                prune_ids: Vec::new(),
                outcome: Err(e.clone()),
            };
        },
    };
    let resolved_auth = match auth {
        Ok(a) => a,
        Err(e) => {
            return BackupPlan {
                cleanup: None,
                add_finalizer,
                config_map: None,
                cronjob: None,
                job: None,
                clear_trigger: false,
                status_update: Some(status_error(backup, generation, e, now_millis)),
                prune_ids: Vec::new(),
                outcome: Err(e.clone()),
            };
        },
    };
    let config_yaml = match build_backup_config_yaml(backup, cl, tls_certs, resolved_auth) {
        Ok(y) => y,
        Err(e) => {
            return BackupPlan {
                cleanup: None,
                add_finalizer,
                config_map: None,
                cronjob: None,
                job: None,
                clear_trigger: false,
                status_update: Some(status_error(backup, generation, &e, now_millis)),
                prune_ids: Vec::new(),
                outcome: Err(e),
            };
        },
    };
    let config_map_name = concat_str(name.as_str(), "-config");
    let config_map = ConfigArtifact { name: config_map_name, content: config_yaml };

    // fold the pass's events into the carried status
    let mut conditions = backup_base_conditions(backup);
    let mut next_scheduled = backup_base_next_scheduled(backup);

    let mut cronjob: Option<CronJobBlueprint> = None;
    let sched_active: bool = match &backup.spec.schedule {
        Some(s) => !s.suspend,
        None => false,
    };
    if sched_active {
        match build_backup_cronjob(backup, config_map.name.as_str(), cl, resolved_auth) {
            Ok(cj) => {
                cronjob = Some(cj);
            },
            Err(e) => {
                // the builder's contract rules this arm out
                return BackupPlan {
                    cleanup: None,
                    add_finalizer,
                    config_map: None,
                    cronjob: None,
                    job: None,
                    clear_trigger: false,
                    status_update: None,
                    prune_ids: Vec::new(),
                    outcome: Err(e),
                };
            },
        }
        match &backup.spec.schedule {
            Some(s) => {
                let message = concat_str("Next backup scheduled: ", s.cron.as_str());
                set_condition(
                    &mut conditions,
                    ready_at("BackupScheduled", message.as_str(), now_millis),
                );
                next_scheduled = Some(s.cron.clone());
            },
            None => {},
        }
    }

    let triggered = is_triggered(&backup.metadata);
    let mut job: Option<JobBlueprint> = None;
    let mut clear_trigger = false;
    let schedule_absent = backup.spec.schedule.is_none();
    if schedule_absent || triggered {
        if !is_job_running(jobs) {
            let suffix = format_compact_utc(now_millis);
            let mut job_name = concat_str(name.as_str(), "-");
            job_name = concat_str(job_name.as_str(), suffix.as_str());
            match build_backup_job(
                backup,
                job_name.as_str(),
                config_map.name.as_str(),
                cl,
                resolved_auth,
            ) {
                Ok(j) => {
                    job = Some(j);
                },
                Err(e) => {
                    // the builder's contract rules this arm out
                    return BackupPlan {
                        cleanup: None,
                        add_finalizer,
                        config_map: None,
                        cronjob: None,
                        job: None,
                        clear_trigger: false,
                        status_update: None,
                        prune_ids: Vec::new(),
                        outcome: Err(e),
                    };
                },
            }
            set_condition(
                &mut conditions,
                not_ready_at("BackupRunning", "Backup job is running", now_millis),
            );
        }
        clear_trigger = triggered;
    }

    let mut history = backup_base_history(backup);
    let mut last_backup = backup_base_last(backup);
    let terminal_seen = check_job_completion(
        jobs,
        &mut conditions,
        &mut history,
        &mut last_backup,
        now_millis,
    );

    // retention: select the snapshots due for pruning and drop their
    // entries from the history to be written
    let ghost pre_prune = history.deep_view();
    let mut prune_ids: Vec<String> = Vec::new();
    match &backup.spec.retention {
        Some(retention) => {
            prune_ids = evaluate_retention(&history, retention, now_millis);
            let mut kept: Vec<BackupHistoryEntry> = Vec::new();
            let n = history.len();
            let mut k: usize = 0;
            while k < n
                invariant
                    n == history@.len(),
                    history.deep_view() == pre_prune,
                    0 <= k <= n,
                    kept.deep_view() =~= remove_pruned(
                        pre_prune,
                        prune_ids.deep_view(),
                        k as int,
                    ),
                decreases n - k,
            {
                if !vec_contains_str(&prune_ids, &history[k].id) {
                    kept.push(clone_entry(&history[k]));
                }
                proof {
                    assert(kept.deep_view() =~= remove_pruned(
                        pre_prune,
                        prune_ids.deep_view(),
                        k + 1,
                    ));
                }
                k += 1;
            }
            history = kept;
        },
        None => {
            proof {
                lemma_remove_none(pre_prune, prune_ids.deep_view(), pre_prune.len() as int);
                assert(pre_prune.take(pre_prune.len() as int) =~= pre_prune);
            }
        },
    }

    let write_needed = sched_active || job.is_some() || terminal_seen || prune_ids.len() > 0;
    let status_update: Option<KafkaBackupStatus> = if write_needed {
        Some(
            KafkaBackupStatus {
                conditions,
                last_backup,
                backup_history: history,
                observed_generation: Some(generation),
                next_scheduled_backup: next_scheduled,
            },
        )
    } else {
        None
    };

    BackupPlan {
        cleanup: None,
        add_finalizer,
        config_map: Some(config_map),
        cronjob,
        job,
        clear_trigger,
        status_update,
        prune_ids,
        outcome: Ok(()),
    }
}

} // verus!
