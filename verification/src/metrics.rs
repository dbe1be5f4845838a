//! An integer-valued metrics registry rendering the Prometheus text
//! exposition format.  Counters and gauges carry two labels (the resource
//! name and the cluster); families without samples render nothing, as an
//! empty registry exposes an empty page.

use vstd::prelude::*;
use vstd::string::StringExecFns;
use crate::clock::now_epoch_millis;
use crate::text::{dec_rep, i64_to_string, str_eq};

verus! {

/// One metric family: its metadata and its labelled integer samples.
pub struct MetricFamily {
    pub name: String,
    pub help: String,
    /// `counter`, `gauge` or `histogram`.
    pub kind: String,
    /// The two label names every sample carries.
    pub label_names: (String, String),
    /// Samples: the two label values and the current value.
    pub samples: Vec<(String, String, i64)>,
}

/// The operator's metrics registry.
pub struct MetricsState {
    pub families: Vec<MetricFamily>,
}

/// The fixed family table: name, help, kind, and the two label names.
pub open spec fn family_table() -> Seq<(Seq<char>, Seq<char>, Seq<char>, Seq<char>, Seq<char>)> {
    seq![
        (
            "strimzi_backup_records_total"@,
            "Total number of records backed up"@,
            "counter"@,
            "backup_name"@,
            "cluster"@,
        ),
        (
            "strimzi_backup_bytes_total"@,
            "Total number of bytes backed up"@,
            "counter"@,
            "backup_name"@,
            "cluster"@,
        ),
        (
            "strimzi_backup_duration_seconds"@,
            "Duration of backup operations in seconds"@,
            "histogram"@,
            "backup_name"@,
            "cluster"@,
        ),
        (
            "strimzi_backup_last_success_timestamp"@,
            "Timestamp of last successful backup (unix epoch)"@,
            "gauge"@,
            "backup_name"@,
            "cluster"@,
        ),
        (
            "strimzi_backup_last_failure_timestamp"@,
            "Timestamp of last failed backup (unix epoch)"@,
            "gauge"@,
            "backup_name"@,
            "cluster"@,
        ),
        (
            "strimzi_restore_records_total"@,
            "Total number of records restored"@,
            "counter"@,
            "restore_name"@,
            "cluster"@,
        ),
        (
            "strimzi_restore_bytes_total"@,
            "Total number of bytes restored"@,
            "counter"@,
            "restore_name"@,
            "cluster"@,
        ),
        (
            "strimzi_restore_duration_seconds"@,
            "Duration of restore operations in seconds"@,
            "histogram"@,
            "restore_name"@,
            "cluster"@,
        ),
        (
            "strimzi_backup_storage_bytes"@,
            "Total storage used by backups in bytes"@,
            "gauge"@,
            "backup_name"@,
            "cluster"@,
        ),
        (
            "strimzi_backup_lag_seconds"@,
            "Time since last successful backup in seconds"@,
            "gauge"@,
            "backup_name"@,
            "cluster"@,
        ),
    ]
}

/// A registry whose families match the fixed table.
pub open spec fn wf(state: MetricsState) -> bool {
    state.families@.len() == family_table().len() && forall|k: int|
        0 <= k < family_table().len() ==> {
            let f = #[trigger] state.families@[k];
            f.name@ == family_table()[k].0 && f.help@ == family_table()[k].1 && f.kind@
                == family_table()[k].2 && f.label_names.0@ == family_table()[k].3
                && f.label_names.1@ == family_table()[k].4
        }
}

/// All families empty: nothing recorded yet.
pub open spec fn all_empty(state: MetricsState) -> bool {
    forall|k: int|
        0 <= k < state.families@.len() ==> (#[trigger] state.families@[k]).samples@.len() == 0
}

impl MetricsState {
    /// Create the registry with every family registered and no samples.
    pub fn new() -> (r: MetricsState)
        ensures
            wf(r),
            all_empty(r),
    {
        let mut families: Vec<MetricFamily> = Vec::new();
        families.push(
            MetricFamily {
                name: "strimzi_backup_records_total".to_owned(),
                help: "Total number of records backed up".to_owned(),
                kind: "counter".to_owned(),
                label_names: ("backup_name".to_owned(), "cluster".to_owned()),
                samples: Vec::new(),
            },
        );
        families.push(
            MetricFamily {
                name: "strimzi_backup_bytes_total".to_owned(),
                help: "Total number of bytes backed up".to_owned(),
                kind: "counter".to_owned(),
                label_names: ("backup_name".to_owned(), "cluster".to_owned()),
                samples: Vec::new(),
            },
        );
        families.push(
            MetricFamily {
                name: "strimzi_backup_duration_seconds".to_owned(),
                help: "Duration of backup operations in seconds".to_owned(),
                kind: "histogram".to_owned(),
                label_names: ("backup_name".to_owned(), "cluster".to_owned()),
                samples: Vec::new(),
            },
        );
        families.push(
            MetricFamily {
                name: "strimzi_backup_last_success_timestamp".to_owned(),
                help: "Timestamp of last successful backup (unix epoch)".to_owned(),
                kind: "gauge".to_owned(),
                label_names: ("backup_name".to_owned(), "cluster".to_owned()),
                samples: Vec::new(),
            },
        );
        families.push(
            MetricFamily {
                name: "strimzi_backup_last_failure_timestamp".to_owned(),
                help: "Timestamp of last failed backup (unix epoch)".to_owned(),
                kind: "gauge".to_owned(),
                label_names: ("backup_name".to_owned(), "cluster".to_owned()),
                samples: Vec::new(),
            },
        );
        families.push(
            MetricFamily {
                name: "strimzi_restore_records_total".to_owned(),
                help: "Total number of records restored".to_owned(),
                kind: "counter".to_owned(),
                label_names: ("restore_name".to_owned(), "cluster".to_owned()),
                samples: Vec::new(),
            },
        );
        families.push(
            MetricFamily {
                name: "strimzi_restore_bytes_total".to_owned(),
                help: "Total number of bytes restored".to_owned(),
                kind: "counter".to_owned(),
                label_names: ("restore_name".to_owned(), "cluster".to_owned()),
                samples: Vec::new(),
            },
        );
        families.push(
            MetricFamily {
                name: "strimzi_restore_duration_seconds".to_owned(),
                help: "Duration of restore operations in seconds".to_owned(),
                kind: "histogram".to_owned(),
                label_names: ("restore_name".to_owned(), "cluster".to_owned()),
                samples: Vec::new(),
            },
        );
        families.push(
            MetricFamily {
                name: "strimzi_backup_storage_bytes".to_owned(),
                help: "Total storage used by backups in bytes".to_owned(),
                kind: "gauge".to_owned(),
                label_names: ("backup_name".to_owned(), "cluster".to_owned()),
                samples: Vec::new(),
            },
        );
        families.push(
            MetricFamily {
                name: "strimzi_backup_lag_seconds".to_owned(),
                help: "Time since last successful backup in seconds".to_owned(),
                kind: "gauge".to_owned(),
                label_names: ("backup_name".to_owned(), "cluster".to_owned()),
                samples: Vec::new(),
            },
        );
        let r = MetricsState { families };
        proof {
            assert(wf(r)) by {
                assert(r.families@.len() == family_table().len());
            }
        }
        r
    }

    /// Render the registry as Prometheus text exposition: for each family
    /// with at least one sample, its HELP and TYPE lines followed by one
    /// line per sample.
    #[verifier::loop_isolation(false)]
    #[verifier::rlimit(100)]
    pub fn gather(&self) -> (r: String)
        ensures
            r@ == gather_view(self.families@, self.families@.len() as int),
    {
        let mut out = String::new();
        let n = self.families.len();
        let mut i: usize = 0;
        while i < n
            invariant
                n == self.families@.len(),
                0 <= i <= n,
                out@ == gather_view(self.families@, i as int),
            decreases n - i,
        {
            let f = &self.families[i];
            if f.samples.len() > 0 {
                let ghost before = out@;
                out.append("# HELP ");
                out.append(f.name.as_str());
                out.append(" ");
                out.append(f.help.as_str());
                out.append("\n# TYPE ");
                out.append(f.name.as_str());
                out.append(" ");
                out.append(f.kind.as_str());
                out.append("\n");
                proof {
                    assert(out@ =~= before + family_header(*f));
                }
                let ghost mid = out@;
                let m = f.samples.len();
                let mut j: usize = 0;
                while j < m
                    invariant
                        m == f.samples@.len(),
                        0 <= j <= m,
                        out@ == mid + samples_view(*f, j as int),
                    decreases m - j,
                {
                    let ghost before_sample = out@;
                    out.append(f.name.as_str());
                    out.append("{");
                    out.append(f.label_names.0.as_str());
                    out.append("=\"");
                    out.append(f.samples[j].0.as_str());
                    out.append("\",");
                    out.append(f.label_names.1.as_str());
                    out.append("=\"");
                    out.append(f.samples[j].1.as_str());
                    out.append("\"} ");
                    let v = i64_to_string(f.samples[j].2);
                    out.append(v.as_str());
                    out.append("\n");
                    proof {
                        assert(out@ =~= before_sample + sample_line(*f, f.samples@[j as int]));
                        assert(out@ =~= mid + samples_view(*f, j + 1));
                    }
                    j += 1;
                }
                proof {
                    assert(out@ =~= gather_view(self.families@, i + 1));
                }
            } else {
                proof {
                    assert(out@ =~= gather_view(self.families@, i + 1));
                }
            }
            i += 1;
        }
        out
    }

    /// Record a failed backup: the last-failure gauge for the given
    /// resource and cluster is set to the current time in whole seconds.
    pub fn record_backup_failure(&mut self, backup_name: &str, cluster: &str)
        requires
            wf(*old(self)),
        ensures
            wf(*final(self)),
            final(self).families@.len() == old(self).families@.len(),
            forall|k: int|
                0 <= k < old(self).families@.len() && k != 4 ==> final(self).families@[k]
                    == #[trigger] old(self).families@[k],
            exists|t: i64|
                final(self).families@[4].samples.deep_view() == sample_set(
                    old(self).families@[4].samples.deep_view(),
                    backup_name@,
                    cluster@,
                    t,
                ),
    {
        let t = now_epoch_millis() / 1000;
        let family = &mut self.families[4];
        set_sample(&mut family.samples, backup_name, cluster, t);
        proof {
            assert(wf(*self));
        }
    }
}

/// The HELP and TYPE lines of one family.
pub open spec fn family_header(f: MetricFamily) -> Seq<char> {
    "# HELP "@ + f.name@ + " "@ + f.help@ + "\n# TYPE "@ + f.name@ + " "@ + f.kind@ + "\n"@
}

/// One rendered sample line.
pub open spec fn sample_line(f: MetricFamily, s: (String, String, i64)) -> Seq<char> {
    f.name@ + "{"@ + f.label_names.0@ + "=\""@ + s.0@ + "\","@ + f.label_names.1@ + "=\""@ + s.1@
        + "\"} "@ + dec_rep(s.2 as int) + "\n"@
}

/// The first `k` sample lines of one family.
pub open spec fn samples_view(f: MetricFamily, k: int) -> Seq<char>
    decreases k,
{
    if k <= 0 {
        Seq::<char>::empty()
    } else {
        samples_view(f, k - 1) + sample_line(f, f.samples@[k - 1])
    }
}

/// The rendering of the first `k` families; empty families render nothing.
pub open spec fn gather_view(families: Seq<MetricFamily>, k: int) -> Seq<char>
    decreases k,
{
    if k <= 0 {
        Seq::<char>::empty()
    } else {
        gather_view(families, k - 1) + (if families[k - 1].samples@.len() > 0 {
            family_header(families[k - 1]) + samples_view(
                families[k - 1],
                families[k - 1].samples@.len() as int,
            )
        } else {
            Seq::<char>::empty()
        })
    }
}

/// The sample list after binding the labelled sample to `value`.
pub open spec fn sample_set(
    s: Seq<(Seq<char>, Seq<char>, i64)>,
    l1: Seq<char>,
    l2: Seq<char>,
    value: i64,
) -> Seq<(Seq<char>, Seq<char>, i64)>
    decreases s.len(),
{
    if s.len() == 0 {
        seq![(l1, l2, value)]
    } else if s[0].0 == l1 && s[0].1 == l2 {
        seq![(l1, l2, value)] + s.drop_first()
    } else {
        seq![s[0]] + sample_set(s.drop_first(), l1, l2, value)
    }
}

proof fn lemma_sample_set_no_match(
    s: Seq<(Seq<char>, Seq<char>, i64)>,
    l1: Seq<char>,
    l2: Seq<char>,
    value: i64,
)
    requires
        forall|j: int| 0 <= j < s.len() ==> !(s[j].0 == l1 && s[j].1 == l2),
    ensures
        sample_set(s, l1, l2, value) =~= s.push((l1, l2, value)),
    decreases s.len(),
{
    if s.len() > 0 {
        lemma_sample_set_no_match(s.drop_first(), l1, l2, value);
    }
}

proof fn lemma_sample_set_first_match(
    s: Seq<(Seq<char>, Seq<char>, i64)>,
    l1: Seq<char>,
    l2: Seq<char>,
    value: i64,
    i: int,
)
    requires
        0 <= i < s.len(),
        s[i].0 == l1 && s[i].1 == l2,
        forall|j: int| 0 <= j < i ==> !(s[j].0 == l1 && s[j].1 == l2),
    ensures
        sample_set(s, l1, l2, value) =~= s.update(i, (l1, l2, value)),
    decreases i,
{
    if i > 0 {
        lemma_sample_set_first_match(s.drop_first(), l1, l2, value, i - 1);
        assert(s.update(i, (l1, l2, value)).drop_first() =~= s.drop_first().update(
            i - 1,
            (l1, l2, value),
        ));
    }
}

/// Bind one labelled sample in a sample list.
fn set_sample(samples: &mut Vec<(String, String, i64)>, l1: &str, l2: &str, value: i64)
    ensures
        final(samples).deep_view() == sample_set(old(samples).deep_view(), l1@, l2@, value),
{
    let ghost s0 = old(samples).deep_view();
    let n = samples.len();
    let mut i: usize = 0;
    while i < n
        invariant
            n == samples@.len(),
            old(samples).deep_view() == s0,
            samples.deep_view() == s0,
            0 <= i <= n,
            forall|j: int| 0 <= j < i ==> !(s0[j].0 == l1@ && s0[j].1 == l2@),
        decreases n - i,
    {
        if str_eq(samples[i].0.as_str(), l1) && str_eq(samples[i].1.as_str(), l2) {
            proof {
                lemma_sample_set_first_match(s0, l1@, l2@, value, i as int);
            }
            let entry = &mut samples[i];
            entry.2 = value;
            proof {
                assert(samples.deep_view() =~= s0.update(i as int, (l1@, l2@, value)));
            }
            return ;
        }
        i += 1;
    }
    proof {
        lemma_sample_set_no_match(s0, l1@, l2@, value);
    }
    samples.push((l1.to_owned(), l2.to_owned(), value));
    proof {
        assert(samples.deep_view() =~= s0.push((l1@, l2@, value)));
    }
}

} // verus!
