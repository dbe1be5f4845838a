//! The restore reconciliation planner.  Restores are fire-once: a resource
//! whose status already carries `RestoreComplete=True` plans nothing.
//!
//! As in the backup planner, the pass accumulates one status write: it
//! starts from the carried status, routes every condition change through
//! the condition state machine, and fails with an error condition pair on
//! every resolution or validation failure.

use vstd::prelude::*;
use crate::clock::compact_utc_of;
use crate::clock::format_compact_utc;
use crate::conditions::{
    cond_is_true, cond_view, new_condition_at, not_ready_at, ready_at, set_cond, set_condition,
    Condition, ConditionView,
};
use crate::config::{build_restore_config_yaml, pitr_timestamp_ok, restore_config_view, storage_missing_msg, storage_pairs};
use crate::error::Error;
use crate::jobs::{build_restore_job, JobBlueprint};
use crate::reconcile::{
    any_job_active, has_finalizer, is_job_running, job_terminal, needs_finalizer, terminal_jobs,
    ConfigArtifact, JobState,
};
use crate::reconcile_backup::{clone_conditions, error_conds_applied};
use crate::resources::{KafkaBackup, KafkaRestore, KafkaRestoreStatus, RestoreInfo, RestoreInfoView, RestoreStatus};
use crate::strimzi::{ResolvedAuth, ResolvedKafkaCluster, ResolvedTlsCerts};
use crate::text::concat_str;

verus! {

/// The generation a status update reports as observed.
pub open spec fn restore_generation(r: KafkaRestore) -> i64 {
    match r.metadata.generation {
        Some(g) => g,
        None => 0i64,
    }
}

/// Whether the resource's status already reports a completed restore.
pub open spec fn restore_already_complete(r: KafkaRestore) -> bool {
    match r.status {
        Some(st) => cond_is_true(st.conditions.deep_view(), "RestoreComplete"@),
        None => false,
    }
}

/// Check the fire-once guard on a status condition list.
pub fn is_restore_complete(conditions: &Vec<Condition>) -> (r: bool)
    ensures
        r == cond_is_true(conditions.deep_view(), "RestoreComplete"@),
{
    crate::conditions::is_condition_true(conditions, "RestoreComplete")
}

/// The conditions the resource's status already carries.
pub open spec fn restore_base_conditions(r: KafkaRestore) -> Seq<ConditionView> {
    match r.status {
        Some(st) => st.conditions.deep_view(),
        None => Seq::empty(),
    }
}

/// The restore summary the resource's status already carries.
pub open spec fn restore_base_info(r: KafkaRestore) -> Option<RestoreInfoView> {
    match r.status {
        Some(st) => st.restore.deep_view(),
        None => None,
    }
}

// --- the conditions each event contributes ---

pub open spec fn restore_running_cond(now: i64) -> ConditionView {
    cond_view("Ready"@, "False"@, "RestoreRunning"@, "Restore job is running"@, now)
}

pub open spec fn restore_completed_cond(now: i64) -> ConditionView {
    cond_view("Ready"@, "True"@, "RestoreCompleted"@, "Restore completed successfully"@, now)
}

/// The dedicated terminal condition the fire-once guard checks.
pub open spec fn restore_complete_cond(now: i64) -> ConditionView {
    cond_view(
        "RestoreComplete"@,
        "True"@,
        "RestoreCompleted"@,
        "Restore completed successfully"@,
        now,
    )
}

/// The message reported for a failed Job.
pub open spec fn restore_failed_msg(j: JobState) -> Seq<char> {
    "Job creation failed: "@ + ("Restore job "@ + j.name@ + " failed"@)
}

/// The restore summary a succeeded Job contributes.
pub open spec fn restore_summary(j: JobState, now: i64) -> RestoreInfoView {
    RestoreInfoView {
        start_time: match j.start_time {
            Some(t) => t,
            None => now,
        },
        completion_time: Some(now),
        status: RestoreStatus::Completed,
        restored_topics: None,
        restored_partitions: None,
        restored_bytes: None,
        point_in_time_target: None,
        actual_point_in_time: None,
    }
}

/// What the status accumulates while the pass walks the Job listing.
pub struct RestoreFold {
    pub conditions: Seq<ConditionView>,
    pub info: Option<RestoreInfoView>,
}

/// The status after the first `k` listed Jobs are taken in: a success
/// sets the readiness and the terminal `RestoreComplete` conditions and
/// records the summary; a failure sets the error condition pair.
pub open spec fn restore_completion_fold(
    jobs: Seq<JobState>,
    k: int,
    acc: RestoreFold,
    now: i64,
) -> RestoreFold
    decreases k,
{
    if k <= 0 {
        acc
    } else {
        let prev = restore_completion_fold(jobs, k - 1, acc, now);
        let j = jobs[k - 1];
        if j.succeeded > 0 {
            RestoreFold {
                conditions: set_cond(
                    set_cond(prev.conditions, restore_completed_cond(now)),
                    restore_complete_cond(now),
                ),
                info: Some(restore_summary(j, now)),
            }
        } else if j.failed > 0 {
            RestoreFold {
                conditions: error_conds_applied(
                    prev.conditions,
                    "JobCreationFailed"@,
                    restore_failed_msg(j),
                    now,
                ),
                ..prev
            }
        } else {
            prev
        }
    }
}

// --- small copies of status fragments ---

fn clone_restore_info(o: &Option<RestoreInfo>) -> (r: Option<RestoreInfo>)
    ensures
        r.deep_view() == o.deep_view(),
{
    match o {
        Some(info) => Some(
            RestoreInfo {
                start_time: info.start_time,
                completion_time: info.completion_time,
                status: info.status,
                restored_topics: info.restored_topics,
                restored_partitions: info.restored_partitions,
                restored_bytes: info.restored_bytes,
                point_in_time_target: info.point_in_time_target,
                actual_point_in_time: info.actual_point_in_time,
            },
        ),
        None => None,
    }
}

fn restore_base_conditions_vec(r: &KafkaRestore) -> (out: Vec<Condition>)
    ensures
        out.deep_view() == restore_base_conditions(*r),
{
    match &r.status {
        Some(st) => clone_conditions(&st.conditions),
        None => Vec::new(),
    }
}

fn restore_base_info_val(r: &KafkaRestore) -> (out: Option<RestoreInfo>)
    ensures
        out.deep_view() == restore_base_info(*r),
{
    match &r.status {
        Some(st) => clone_restore_info(&st.restore),
        None => None,
    }
}

/// A status write for a failed pass: the error condition pair lands on the
/// carried conditions, the restore summary is carried unchanged.
pub open spec fn is_restore_error_status(
    s: KafkaRestoreStatus,
    r: KafkaRestore,
    generation: i64,
    reason: Seq<char>,
    message: Seq<char>,
    now: i64,
) -> bool {
    s.conditions.deep_view() == error_conds_applied(
        restore_base_conditions(r),
        reason,
        message,
        now,
    ) && s.restore.deep_view() == restore_base_info(r) && s.observed_generation == Some(generation)
}

/// Build the status write for a failed pass.
pub fn restore_status_error(
    restore: &KafkaRestore,
    generation: i64,
    error: &Error,
    now_millis: i64,
) -> (s: KafkaRestoreStatus)
    ensures
        is_restore_error_status(
            s,
            *restore,
            generation,
            error.reason_view(),
            error.message_view(),
            now_millis,
        ),
{
    let mut conditions = restore_base_conditions_vec(restore);
    crate::reconcile_backup::apply_error_conditions(&mut conditions, error, now_millis);
    KafkaRestoreStatus {
        conditions,
        restore: restore_base_info_val(restore),
        observed_generation: Some(generation),
    }
}

/// Take the terminal Jobs of one listing into the accumulating status.
/// Returns whether any terminal Job was seen.
#[verifier::loop_isolation(false)]
pub fn check_job_completion(
    jobs: &Vec<JobState>,
    conditions: &mut Vec<Condition>,
    info: &mut Option<RestoreInfo>,
    now_millis: i64,
) -> (terminal_seen: bool)
    ensures
        ({
            let fold = restore_completion_fold(
                jobs@,
                jobs@.len() as int,
                RestoreFold {
                    conditions: old(conditions).deep_view(),
                    info: old(info).deep_view(),
                },
                now_millis,
            );
            final(conditions).deep_view() == fold.conditions && final(info).deep_view()
                == fold.info
        }),
        terminal_seen == (terminal_jobs(jobs@, jobs@.len() as int).len() > 0),
{
    let ghost acc0 = RestoreFold {
        conditions: old(conditions).deep_view(),
        info: old(info).deep_view(),
    };
    let n = jobs.len();
    let mut terminal_seen = false;
    let mut k: usize = 0;
    while k < n
        invariant
            n == jobs@.len(),
            0 <= k <= n,
            ({
                let fold = restore_completion_fold(jobs@, k as int, acc0, now_millis);
                conditions.deep_view() == fold.conditions && info.deep_view() == fold.info
            }),
            terminal_seen == (terminal_jobs(jobs@, k as int).len() > 0),
        decreases n - k,
    {
        if jobs[k].succeeded > 0 {
            set_condition(
                conditions,
                ready_at("RestoreCompleted", "Restore completed successfully", now_millis),
            );
            set_condition(
                conditions,
                new_condition_at(
                    "RestoreComplete",
                    "True",
                    "RestoreCompleted",
                    "Restore completed successfully",
                    now_millis,
                ),
            );
            let start_time: i64 = match jobs[k].start_time {
                Some(t) => t,
                None => now_millis,
            };
            *info = Some(
                RestoreInfo {
                    start_time,
                    completion_time: Some(now_millis),
                    status: RestoreStatus::Completed,
                    restored_topics: None,
                    restored_partitions: None,
                    restored_bytes: None,
                    point_in_time_target: None,
                    actual_point_in_time: None,
                },
            );
            terminal_seen = true;
        } else if jobs[k].failed > 0 {
            let mut m = concat_str("Restore job ", jobs[k].name.as_str());
            m.append(" failed");
            let err = Error::JobCreationFailed(m);
            crate::reconcile_backup::apply_error_conditions(conditions, &err, now_millis);
            terminal_seen = true;
        }
        proof {
            assert(terminal_jobs(jobs@, k + 1) =~= terminal_jobs(jobs@, k as int) + (
            if job_terminal(jobs@[k as int]) {
                seq![jobs@[k as int]]
            } else {
                Seq::empty()
            }));
        }
        k += 1;
    }
    terminal_seen
}

/// What the pass wants deleted before the finalizer comes off.
pub struct RestoreCleanupPlan {
    /// Label selector of the owned Jobs to delete.
    pub job_selector: String,
    /// Name of the owned config map to delete.
    pub config_map_name: String,
}

/// Everything one restore reconciliation pass decides.
pub struct RestorePlan {
    pub cleanup: Option<RestoreCleanupPlan>,
    pub add_finalizer: bool,
    pub config_map: Option<ConfigArtifact>,
    pub job: Option<JobBlueprint>,
    /// The one cumulative status write of this pass, when anything moved.
    pub status_update: Option<KafkaRestoreStatus>,
    pub outcome: Result<(), Error>,
}

/// A plan that requests no artifact.
pub open spec fn no_restore_artifacts(plan: RestorePlan) -> bool {
    plan.config_map is None && plan.job is None
}

/// An error plan: no artifacts, the one status write carries the error
/// condition pair.
pub open spec fn restore_error_plan(
    plan: RestorePlan,
    r: KafkaRestore,
    reason: Seq<char>,
    message: Seq<char>,
    now: i64,
) -> bool {
    no_restore_artifacts(plan) && (plan.status_update matches Some(st)
        && is_restore_error_status(st, r, restore_generation(r), reason, message, now))
}

/// The conditions and summary a nominal pass accumulates.
pub open spec fn restore_nominal_fold(r: KafkaRestore, jobs: Seq<JobState>, now: i64) -> RestoreFold {
    let created = !any_job_active(jobs);
    let c1 = if created {
        set_cond(restore_base_conditions(r), restore_running_cond(now))
    } else {
        restore_base_conditions(r)
    };
    restore_completion_fold(
        jobs,
        jobs.len() as int,
        RestoreFold { conditions: c1, info: restore_base_info(r) },
        now,
    )
}

/// The artifacts a nominal pass requests.
pub open spec fn restore_nominal_artifacts(
    plan: RestorePlan,
    r: KafkaRestore,
    cl: ResolvedKafkaCluster,
    a: ResolvedAuth,
    p: Seq<(Seq<char>, Seq<char>)>,
    jobs: Seq<JobState>,
    now: i64,
) -> bool {
    let created = !any_job_active(jobs);
    (plan.config_map matches Some(cm) && cm.name@ == r.metadata.name@ + "-config"@ && cm.content@
        == restore_config_view(r, cl, a, p)) && (plan.job is Some <==> created) && (created ==> (
    plan.job matches Some(j) && j.name@ == r.metadata.name@ + "-"@ + compact_utc_of(now)
        && j.owner.name@ == r.metadata.name@ && j.pod.args.deep_view() == seq![
        "restore"@,
        "--config"@,
        "/config/restore.yaml"@,
    ]))
}

/// The one status write of a nominal pass.
pub open spec fn restore_nominal_status(
    plan: RestorePlan,
    r: KafkaRestore,
    jobs: Seq<JobState>,
    now: i64,
) -> bool {
    let fold = restore_nominal_fold(r, jobs, now);
    let created = !any_job_active(jobs);
    let write_needed = created || terminal_jobs(jobs, jobs.len() as int).len() > 0;
    (plan.status_update is Some <==> write_needed) && (plan.status_update matches Some(st) ==> (
    st.conditions.deep_view() == fold.conditions && st.restore.deep_view() == fold.info
        && st.observed_generation == Some(restore_generation(r))))
}

/// Plan one restore reconciliation pass.
///
/// A deletion runs cleanup and nothing else.  A status that already
/// carries `RestoreComplete=True` makes the pass a no-op beyond the
/// finalizer: restores never re-run.  Every resolution or validation
/// failure — a missing source backup, a missing cluster, bad credentials,
/// a missing storage sub-configuration, an unparseable point-in-time
/// timestamp — surfaces as a `Ready=False` plus `Error=True` condition
/// write before the pass fails.  Otherwise the pass upserts the
/// configuration document and creates at most one Job, only while no
/// owned Job is active.
#[verifier::rlimit(100)]
#[verifier::spinoff_prover]
pub fn reconcile_restore(
    restore: &KafkaRestore,
    source_backup: &Option<KafkaBackup>,
    cluster: &Result<ResolvedKafkaCluster, Error>,
    tls_certs: &Option<ResolvedTlsCerts>,
    auth: &Result<ResolvedAuth, Error>,
    jobs: &Vec<JobState>,
    now_millis: i64,
) -> (plan: RestorePlan)
    ensures
        plan.cleanup is Some <==> restore.metadata.deletion_requested,
        restore.metadata.deletion_requested ==> (plan.cleanup matches Some(c) && c.job_selector@
            == "app.kubernetes.io/managed-by=kafka-backup-operator,kafkabackup.com/restore="@
            + restore.metadata.name@ && c.config_map_name@ == restore.metadata.name@ + "-config"@
            && !plan.add_finalizer && no_restore_artifacts(plan) && plan.status_update is None
            && plan.outcome is Ok),
        !restore.metadata.deletion_requested ==> plan.add_finalizer == !has_finalizer(
            restore.metadata.finalizers@,
            "backup.strimzi.io/cleanup"@,
        ),
        !restore.metadata.deletion_requested && restore_already_complete(*restore) ==> (
        no_restore_artifacts(plan) && plan.status_update is None && plan.outcome is Ok),
        !restore.metadata.deletion_requested ==> (any_job_active(jobs@) ==> plan.job is None),
        !restore.metadata.deletion_requested && !restore_already_complete(*restore) ==> match source_backup {
            None => restore_error_plan(
                plan,
                *restore,
                "BackupNotFound"@,
                "Backup '"@ + restore.spec.backup_ref.name@ + "' not found"@,
                now_millis,
            ) && (plan.outcome matches Err(Error::BackupNotFound { name }) && name@
                == restore.spec.backup_ref.name@),
            Some(backup) => match cluster {
                Err(e) => restore_error_plan(
                    plan,
                    *restore,
                    e.reason_view(),
                    e.message_view(),
                    now_millis,
                ) && (plan.outcome matches Err(e2) && e2 == e),
                Ok(cl) => match auth {
                    Err(e) => restore_error_plan(
                        plan,
                        *restore,
                        e.reason_view(),
                        e.message_view(),
                        now_millis,
                    ) && (plan.outcome matches Err(e2) && e2 == e),
                    Ok(a) => match storage_pairs(backup.spec.storage) {
                        None => restore_error_plan(
                            plan,
                            *restore,
                            "InvalidConfiguration"@,
                            "Invalid configuration: "@ + storage_missing_msg(
                                backup.spec.storage.storage_type,
                            ),
                            now_millis,
                        ) && (plan.outcome matches Err(Error::InvalidConfig(m)) && m@
                            == storage_missing_msg(backup.spec.storage.storage_type)),
                        Some(p) => {
                            if !pitr_timestamp_ok(*restore) {
                                restore_error_plan(
                                    plan,
                                    *restore,
                                    "InvalidConfiguration"@,
                                    "Invalid configuration: "@ + ("Invalid timestamp format: "@
                                        + restore.spec.point_in_time.unwrap().timestamp.unwrap()@),
                                    now_millis,
                                ) && (plan.outcome matches Err(Error::InvalidConfig(m)) && m@
                                    == "Invalid timestamp format: "@
                                    + restore.spec.point_in_time.unwrap().timestamp.unwrap()@)
                            } else {
                                restore_nominal_artifacts(
                                    plan,
                                    *restore,
                                    *cl,
                                    *a,
                                    p,
                                    jobs@,
                                    now_millis,
                                ) && restore_nominal_status(plan, *restore, jobs@, now_millis)
                                    && plan.outcome is Ok
                            }
                        },
                    },
                },
            },
        },
{
    let name = restore.metadata.name.clone();
    if restore.metadata.deletion_requested {
        let selector = concat_str(
            "app.kubernetes.io/managed-by=kafka-backup-operator,kafkabackup.com/restore=",
            name.as_str(),
        );
        return RestorePlan {
            cleanup: Some(
                RestoreCleanupPlan {
                    job_selector: selector,
                    config_map_name: concat_str(name.as_str(), "-config"),
                },
            ),
            add_finalizer: false,
            config_map: None,
            job: None,
            status_update: None,
            outcome: Ok(()),
        };
    }
    let add_finalizer = needs_finalizer(&restore.metadata);
    let generation: i64 = match restore.metadata.generation {
        Some(g) => g,
        None => 0,
    };

    // fire-once: a completed restore plans nothing further
    let complete = match &restore.status {
        Some(status) => is_restore_complete(&status.conditions),
        None => false,
    };
    if complete {
        return RestorePlan {
            cleanup: None,
            add_finalizer,
            config_map: None,
            job: None,
            status_update: None,
            outcome: Ok(()),
        };
    }

    let backup = match source_backup {
        Some(b) => b,
        None => {
            let err = Error::BackupNotFound { name: restore.spec.backup_ref.name.clone() };
            return RestorePlan {
                cleanup: None,
                add_finalizer,
                config_map: None,
                job: None,
                status_update: Some(
                    restore_status_error(restore, generation, &err, now_millis),
                ),
                outcome: Err(err),
            };
        },
    };
    let cl = match cluster {
        Ok(c) => c,
        Err(e) => {
            return RestorePlan {
                cleanup: None,
                add_finalizer,
                config_map: None,
                job: None,
                status_update: Some(restore_status_error(restore, generation, e, now_millis)),
                outcome: Err(e.clone()),
            };
        },
    };
    let resolved_auth = match auth {
        Ok(a) => a,
        Err(e) => {
            return RestorePlan {
                cleanup: None,
                add_finalizer,
                config_map: None,
                job: None,
                status_update: Some(restore_status_error(restore, generation, e, now_millis)),
                outcome: Err(e.clone()),
            };
        },
    };
    let config_yaml = match build_restore_config_yaml(
        restore,
        backup,
        cl,
        tls_certs,
        resolved_auth,
    ) {
        Ok(y) => y,
        Err(e) => {
            return RestorePlan {
                cleanup: None,
                add_finalizer,
                config_map: None,
                job: None,
                status_update: Some(restore_status_error(restore, generation, &e, now_millis)),
                outcome: Err(e),
            };
        },
    };
    let config_map = ConfigArtifact {
        name: concat_str(name.as_str(), "-config"),
        content: config_yaml,
    };

    let mut conditions = restore_base_conditions_vec(restore);
    let mut job: Option<JobBlueprint> = None;
    if !is_job_running(jobs) {
        let suffix = format_compact_utc(now_millis);
        let mut job_name = concat_str(name.as_str(), "-");
        job_name = concat_str(job_name.as_str(), suffix.as_str());
        match build_restore_job(
            restore,
            job_name.as_str(),
            config_map.name.as_str(),
            cl,
            resolved_auth,
            backup,
        ) {
            Ok(j) => {
                job = Some(j);
            },
            Err(e) => {
                // the builder's contract rules this arm out
                return RestorePlan {
                    cleanup: None,
                    add_finalizer,
                    config_map: None,
                    job: None,
                    status_update: None,
                    outcome: Err(e),
                };
            },
        }
        set_condition(
            &mut conditions,
            not_ready_at("RestoreRunning", "Restore job is running", now_millis),
        );
    }

    let mut info = restore_base_info_val(restore);
    let terminal_seen = check_job_completion(jobs, &mut conditions, &mut info, now_millis);

    let write_needed = job.is_some() || terminal_seen;
    let status_update: Option<KafkaRestoreStatus> = if write_needed {
        Some(
            KafkaRestoreStatus {
                conditions,
                restore: info,
                observed_generation: Some(generation),
            },
        )
    } else {
        None
    };

    RestorePlan {
        cleanup: None,
        add_finalizer,
        config_map: Some(config_map),
        job,
        status_update,
        outcome: Ok(()),
    }
}

} // verus!
