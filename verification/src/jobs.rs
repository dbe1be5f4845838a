//! Blueprints for the Job and CronJob artifacts the reconcilers request.
//! A blueprint holds every field the operator decides as plain data; the
//! surrounding process turns it into the cluster's native object shape.

use vstd::prelude::*;
use crate::config::credentials_ref;
use crate::error::Error;
use crate::resources::{
    KafkaBackup, KafkaRestore, PodTemplateSpec, ResourceRequirementsSpec, StorageSpec,
};
use crate::strimzi::{cluster_ca_secret_name, ResolvedAuth, ResolvedKafkaCluster};
use crate::text::{concat_str, str_eq};

verus! {

/// The container image used when the spec does not override it.
pub fn default_backup_image() -> (r: &'static str)
    ensures
        r@ == "ghcr.io/osodevops/kafka-backup:latest"@,
{
    "ghcr.io/osodevops/kafka-backup:latest"
}

// --- label maps ---

/// The standard labels of a generated artifact.
pub open spec fn labels_view(
    cr_name: Seq<char>,
    cluster_name: Seq<char>,
    job_type: Seq<char>,
) -> Seq<(Seq<char>, Seq<char>)> {
    seq![
        ("app.kubernetes.io/name"@, "kafka-backup-operator"@),
        ("app.kubernetes.io/instance"@, cr_name),
        ("app.kubernetes.io/part-of"@, "kafka-backup"@),
        ("app.kubernetes.io/managed-by"@, "kafka-backup-operator"@),
        ("strimzi.io/cluster"@, cluster_name),
        ("kafkabackup.com/type"@, job_type),
        ("kafkabackup.com/"@ + job_type, cr_name),
    ]
}

/// Build the standard labels for an artifact of the given kind.
pub fn build_labels(cr_name: &str, cluster_name: &str, job_type: &str) -> (r: Vec<
    (String, String),
>)
    ensures
        r.deep_view() == labels_view(cr_name@, cluster_name@, job_type@),
{
    let mut out: Vec<(String, String)> = Vec::new();
    out.push(("app.kubernetes.io/name".to_owned(), "kafka-backup-operator".to_owned()));
    out.push(("app.kubernetes.io/instance".to_owned(), cr_name.to_owned()));
    out.push(("app.kubernetes.io/part-of".to_owned(), "kafka-backup".to_owned()));
    out.push(("app.kubernetes.io/managed-by".to_owned(), "kafka-backup-operator".to_owned()));
    out.push(("strimzi.io/cluster".to_owned(), cluster_name.to_owned()));
    out.push(("kafkabackup.com/type".to_owned(), job_type.to_owned()));
    out.push((concat_str("kafkabackup.com/", job_type), cr_name.to_owned()));
    proof {
        assert(out.deep_view() =~= labels_view(cr_name@, cluster_name@, job_type@));
    }
    out
}

/// The map after binding `key` to `value`: the first entry with that key is
/// replaced, and the pair is appended when the key is absent.
pub open spec fn map_set_view(
    s: Seq<(Seq<char>, Seq<char>)>,
    key: Seq<char>,
    value: Seq<char>,
) -> Seq<(Seq<char>, Seq<char>)>
    decreases s.len(),
{
    if s.len() == 0 {
        seq![(key, value)]
    } else if s[0].0 == key {
        seq![(key, value)] + s.drop_first()
    } else {
        seq![s[0]] + map_set_view(s.drop_first(), key, value)
    }
}

proof fn lemma_map_set_no_match(s: Seq<(Seq<char>, Seq<char>)>, key: Seq<char>, value: Seq<char>)
    requires
        forall|j: int| 0 <= j < s.len() ==> s[j].0 != key,
    ensures
        map_set_view(s, key, value) =~= s.push((key, value)),
    decreases s.len(),
{
    if s.len() > 0 {
        lemma_map_set_no_match(s.drop_first(), key, value);
    }
}

proof fn lemma_map_set_first_match(
    s: Seq<(Seq<char>, Seq<char>)>,
    key: Seq<char>,
    value: Seq<char>,
    i: int,
)
    requires
        0 <= i < s.len(),
        s[i].0 == key,
        forall|j: int| 0 <= j < i ==> s[j].0 != key,
    ensures
        map_set_view(s, key, value) =~= s.update(i, (key, value)),
    decreases i,
{
    if i > 0 {
        lemma_map_set_first_match(s.drop_first(), key, value, i - 1);
        assert(s.update(i, (key, value)).drop_first() =~= s.drop_first().update(
            i - 1,
            (key, value),
        ));
    }
}

/// Bind one key in an ordered pair list.
pub fn map_set(m: &mut Vec<(String, String)>, key: &str, value: String)
    ensures
        final(m).deep_view() == map_set_view(old(m).deep_view(), key@, value@),
{
    let ghost s0 = old(m).deep_view();
    let n = m.len();
    let mut i: usize = 0;
    while i < n
        invariant
            n == m@.len(),
            old(m).deep_view() == s0,
            m.deep_view() == s0,
            0 <= i <= n,
            forall|j: int| 0 <= j < i ==> s0[j].0 != key@,
        decreases n - i,
    {
        if str_eq(m[i].0.as_str(), key) {
            proof {
                lemma_map_set_first_match(s0, key@, value@, i as int);
            }
            let entry = &mut m[i];
            entry.1 = value;
            proof {
                assert(m.deep_view() =~= s0.update(i as int, (key@, entry.1@)));
            }
            return ;
        }
        i += 1;
    }
    proof {
        lemma_map_set_no_match(s0, key@, value@);
    }
    m.push((key.to_owned(), value));
    proof {
        assert(m.deep_view() =~= s0.push((key@, value@)));
    }
}

/// The pod-metadata labels a template contributes.
pub open spec fn template_labels(t: Option<PodTemplateSpec>) -> Seq<(Seq<char>, Seq<char>)> {
    match t {
        Some(tmpl) => match tmpl.pod {
            Some(pod) => match pod.metadata {
                Some(meta) => meta.labels.deep_view(),
                None => Seq::empty(),
            },
            None => Seq::empty(),
        },
        None => Seq::empty(),
    }
}

/// The pod-metadata annotations a template contributes.
pub open spec fn template_annotations(t: Option<PodTemplateSpec>) -> Seq<(Seq<char>, Seq<char>)> {
    match t {
        Some(tmpl) => match tmpl.pod {
            Some(pod) => match pod.metadata {
                Some(meta) => meta.annotations.deep_view(),
                None => Seq::empty(),
            },
            None => Seq::empty(),
        },
        None => Seq::empty(),
    }
}

/// The owned value behind an optional template reference.
pub open spec fn deref_template(t: Option<&PodTemplateSpec>) -> Option<PodTemplateSpec> {
    match t {
        Some(tmpl) => Some(*tmpl),
        None => None,
    }
}

/// A base label map after folding in the first `k` template pairs.
pub open spec fn merge_pairs(
    base: Seq<(Seq<char>, Seq<char>)>,
    adds: Seq<(Seq<char>, Seq<char>)>,
    k: int,
) -> Seq<(Seq<char>, Seq<char>)>
    decreases k,
{
    if k <= 0 {
        base
    } else {
        map_set_view(merge_pairs(base, adds, k - 1), adds[k - 1].0, adds[k - 1].1)
    }
}

/// The final label map of an artifact: the standard labels with the
/// template's extra labels folded in, later pairs overriding earlier ones.
pub open spec fn merged_labels(
    cr_name: Seq<char>,
    cluster_name: Seq<char>,
    job_type: Seq<char>,
    t: Option<PodTemplateSpec>,
) -> Seq<(Seq<char>, Seq<char>)> {
    merge_pairs(
        labels_view(cr_name, cluster_name, job_type),
        template_labels(t),
        template_labels(t).len() as int,
    )
}

/// Fold the template's extra labels into a label map.
#[verifier::loop_isolation(false)]
pub fn merge_template_labels(labels: &mut Vec<(String, String)>, template: Option<&PodTemplateSpec>)
    ensures
        final(labels).deep_view() == merge_pairs(
            old(labels).deep_view(),
            template_labels(deref_template(template)),
            template_labels(deref_template(template)).len() as int,
        ),
{
    let ghost base = old(labels).deep_view();
    let ghost adds = template_labels(deref_template(template));
    let tmpl = match template {
        Some(t) => t,
        None => {
            return ;
        },
    };
    let pod = match &tmpl.pod {
        Some(p) => p,
        None => {
            return ;
        },
    };
    let meta = match &pod.metadata {
        Some(m) => m,
        None => {
            return ;
        },
    };
    let n = meta.labels.len();
    let mut i: usize = 0;
    while i < n
        invariant
            n == meta.labels@.len(),
            adds == meta.labels.deep_view(),
            0 <= i <= n,
            labels.deep_view() == merge_pairs(base, adds, i as int),
        decreases n - i,
    {
        map_set(labels, meta.labels[i].0.as_str(), meta.labels[i].1.clone());
        i += 1;
    }
}

/// Collect the template's extra pod annotations.
#[verifier::loop_isolation(false)]
pub fn build_annotations(template: Option<&PodTemplateSpec>) -> (r: Vec<(String, String)>)
    ensures
        r.deep_view() == template_annotations(deref_template(template)),
{
    let mut out: Vec<(String, String)> = Vec::new();
    let tmpl = match template {
        Some(t) => t,
        None => {
            proof {
                assert(out.deep_view() =~= template_annotations(deref_template(template)));
            }
            return out;
        },
    };
    let pod = match &tmpl.pod {
        Some(p) => p,
        None => {
            proof {
                assert(out.deep_view() =~= template_annotations(deref_template(template)));
            }
            return out;
        },
    };
    let meta = match &pod.metadata {
        Some(m) => m,
        None => {
            proof {
                assert(out.deep_view() =~= template_annotations(deref_template(template)));
            }
            return out;
        },
    };
    let n = meta.annotations.len();
    let mut i: usize = 0;
    while i < n
        invariant
            n == meta.annotations@.len(),
            0 <= i <= n,
            out.deep_view() =~= meta.annotations.deep_view().take(i as int),
        decreases n - i,
    {
        out.push((meta.annotations[i].0.clone(), meta.annotations[i].1.clone()));
        proof {
            assert(out.deep_view() =~= meta.annotations.deep_view().take(i + 1));
        }
        i += 1;
    }
    proof {
        assert(meta.annotations.deep_view().take(n as int) =~= meta.annotations.deep_view());
    }
    out
}

/// Copy an ordered pair list.
#[verifier::loop_isolation(false)]
pub fn clone_pairs(v: &Vec<(String, String)>) -> (r: Vec<(String, String)>)
    ensures
        r.deep_view() == v.deep_view(),
{
    let mut out: Vec<(String, String)> = Vec::new();
    let n = v.len();
    let mut i: usize = 0;
    while i < n
        invariant
            n == v@.len(),
            0 <= i <= n,
            out.deep_view() =~= v.deep_view().take(i as int),
        decreases n - i,
    {
        out.push((v[i].0.clone(), v[i].1.clone()));
        proof {
            assert(out.deep_view() =~= v.deep_view().take(i + 1));
        }
        i += 1;
    }
    proof {
        assert(v.deep_view().take(n as int) =~= v.deep_view());
    }
    out
}

// --- volumes and mounts ---

/// Where a volume's content comes from.
pub enum VolumeSource {
    /// The config map of that name, whole.
    ConfigMap { name: String },
    /// A secret; with `items`, only the listed keys, each mapped to a path.
    Secret { secret_name: String, items: Option<Vec<(String, String)>> },
}

/// One volume of a generated pod.
pub struct VolumeSpec {
    pub name: String,
    pub source: VolumeSource,
}

/// One container mount of a generated pod.
pub struct VolumeMountSpec {
    pub name: String,
    pub mount_path: String,
    pub read_only: bool,
}

#[verifier::ext_equal]
pub enum VolumeSourceView {
    ConfigMap { name: Seq<char> },
    Secret { secret_name: Seq<char>, items: Option<Seq<(Seq<char>, Seq<char>)>> },
}

#[verifier::ext_equal]
pub struct VolumeSpecView {
    pub name: Seq<char>,
    pub source: VolumeSourceView,
}

#[verifier::ext_equal]
pub struct VolumeMountView {
    pub name: Seq<char>,
    pub mount_path: Seq<char>,
    pub read_only: bool,
}

impl DeepView for VolumeSource {
    type V = VolumeSourceView;

    open spec fn deep_view(&self) -> VolumeSourceView {
        match self {
            VolumeSource::ConfigMap { name } => VolumeSourceView::ConfigMap { name: name@ },
            VolumeSource::Secret { secret_name, items } => VolumeSourceView::Secret {
                secret_name: secret_name@,
                items: items.deep_view(),
            },
        }
    }
}

impl DeepView for VolumeSpec {
    type V = VolumeSpecView;

    open spec fn deep_view(&self) -> VolumeSpecView {
        VolumeSpecView { name: self.name@, source: self.source.deep_view() }
    }
}

impl DeepView for VolumeMountSpec {
    type V = VolumeMountView;

    open spec fn deep_view(&self) -> VolumeMountView {
        VolumeMountView { name: self.name@, mount_path: self.mount_path@, read_only: self.read_only }
    }
}

/// The volume set of a generated pod: the configuration, the cluster CA,
/// the user credentials when authentication is configured, and the storage
/// credentials when the backend names a secret.
pub open spec fn volumes_view(
    config_map_name: Seq<char>,
    cluster_name: Seq<char>,
    auth: ResolvedAuth,
    storage: StorageSpec,
) -> Seq<VolumeSpecView> {
    seq![
        VolumeSpecView {
            name: "config"@,
            source: VolumeSourceView::ConfigMap { name: config_map_name },
        },
        VolumeSpecView {
            name: "cluster-ca"@,
            source: VolumeSourceView::Secret {
                secret_name: cluster_name + "-cluster-ca-cert"@,
                items: Some(seq![("ca.crt"@, "ca.crt"@)]),
            },
        },
    ] + (match auth {
        ResolvedAuth::Tls { secret_name } => seq![
            VolumeSpecView {
                name: "user-certs"@,
                source: VolumeSourceView::Secret { secret_name: secret_name@, items: None },
            },
        ],
        ResolvedAuth::ScramSha512 { secret_name, password_key, .. } => seq![
            VolumeSpecView {
                name: "user-certs"@,
                source: VolumeSourceView::Secret {
                    secret_name: secret_name@,
                    items: Some(seq![(password_key@, "password"@)]),
                },
            },
        ],
        ResolvedAuth::NoAuth => Seq::empty(),
    }) + (match credentials_ref(storage) {
        Some(c) => seq![
            VolumeSpecView {
                name: "storage-credentials"@,
                source: VolumeSourceView::Secret {
                    secret_name: c.name@,
                    items: Some(seq![(c.key@, "credentials"@)]),
                },
            },
        ],
        None => Seq::empty(),
    })
}

/// The mount set matching `volumes_view`.
pub open spec fn mounts_view(auth: ResolvedAuth, storage: StorageSpec) -> Seq<VolumeMountView> {
    seq![
        VolumeMountView { name: "config"@, mount_path: "/config"@, read_only: true },
        VolumeMountView { name: "cluster-ca"@, mount_path: "/certs/cluster-ca"@, read_only: true },
    ] + (if auth is NoAuth {
        Seq::empty()
    } else {
        seq![
            VolumeMountView { name: "user-certs"@, mount_path: "/certs/user"@, read_only: true },
        ]
    }) + (if credentials_ref(storage) is Some {
        seq![
            VolumeMountView {
                name: "storage-credentials"@,
                mount_path: "/credentials"@,
                read_only: true,
            },
        ]
    } else {
        Seq::empty()
    })
}

/// Build the volumes and mounts of a generated pod.
pub fn build_volumes_and_mounts(
    config_map_name: &str,
    config_key: &str,
    cluster_name: &str,
    auth: &ResolvedAuth,
    storage: &StorageSpec,
) -> (r: (Vec<VolumeSpec>, Vec<VolumeMountSpec>))
    ensures
        r.0.deep_view() == volumes_view(config_map_name@, cluster_name@, *auth, *storage),
        r.1.deep_view() == mounts_view(*auth, *storage),
{
    let mut volumes: Vec<VolumeSpec> = Vec::new();
    let mut mounts: Vec<VolumeMountSpec> = Vec::new();

    volumes.push(
        VolumeSpec {
            name: "config".to_owned(),
            source: VolumeSource::ConfigMap { name: config_map_name.to_owned() },
        },
    );
    mounts.push(
        VolumeMountSpec {
            name: "config".to_owned(),
            mount_path: "/config".to_owned(),
            read_only: true,
        },
    );

    let ca_secret = cluster_ca_secret_name(cluster_name);
    let mut ca_items: Vec<(String, String)> = Vec::new();
    ca_items.push(("ca.crt".to_owned(), "ca.crt".to_owned()));
    volumes.push(
        VolumeSpec {
            name: "cluster-ca".to_owned(),
            source: VolumeSource::Secret { secret_name: ca_secret, items: Some(ca_items) },
        },
    );
    mounts.push(
        VolumeMountSpec {
            name: "cluster-ca".to_owned(),
            mount_path: "/certs/cluster-ca".to_owned(),
            read_only: true,
        },
    );

    match auth {
        ResolvedAuth::Tls { secret_name } => {
            volumes.push(
                VolumeSpec {
                    name: "user-certs".to_owned(),
                    source: VolumeSource::Secret {
                        secret_name: secret_name.clone(),
                        items: None,
                    },
                },
            );
            mounts.push(
                VolumeMountSpec {
                    name: "user-certs".to_owned(),
                    mount_path: "/certs/user".to_owned(),
                    read_only: true,
                },
            );
        },
        ResolvedAuth::ScramSha512 { secret_name, password_key, .. } => {
            let mut items: Vec<(String, String)> = Vec::new();
            items.push((password_key.clone(), "password".to_owned()));
            volumes.push(
                VolumeSpec {
                    name: "user-certs".to_owned(),
                    source: VolumeSource::Secret {
                        secret_name: secret_name.clone(),
                        items: Some(items),
                    },
                },
            );
            mounts.push(
                VolumeMountSpec {
                    name: "user-certs".to_owned(),
                    mount_path: "/certs/user".to_owned(),
                    read_only: true,
                },
            );
        },
        ResolvedAuth::NoAuth => {},
    }

    match get_credentials_secret_name(storage) {
        Some((secret_name, secret_key)) => {
            let mut items: Vec<(String, String)> = Vec::new();
            items.push((secret_key, "credentials".to_owned()));
            volumes.push(
                VolumeSpec {
                    name: "storage-credentials".to_owned(),
                    source: VolumeSource::Secret { secret_name, items: Some(items) },
                },
            );
            mounts.push(
                VolumeMountSpec {
                    name: "storage-credentials".to_owned(),
                    mount_path: "/credentials".to_owned(),
                    read_only: true,
                },
            );
        },
        None => {},
    }

    proof {
        assert(volumes.deep_view() =~~= volumes_view(
            config_map_name@,
            cluster_name@,
            *auth,
            *storage,
        ));
        assert(mounts.deep_view() =~= mounts_view(*auth, *storage));
    }
    (volumes, mounts)
}

/// The storage credentials secret name and key, if one is configured.
pub fn get_credentials_secret_name(storage: &StorageSpec) -> (r: Option<(String, String)>)
    ensures
        match credentials_ref(*storage) {
            Some(c) => r matches Some(p) && p.0@ == c.name@ && p.1@ == c.key@,
            None => r is None,
        },
{
    crate::config::get_storage_credentials_secret(storage)
}

// --- blueprints ---

/// The owner reference of a generated artifact, pointing back at the
/// resource for cascading garbage collection.
pub struct OwnerRef {
    pub api_version: String,
    pub kind: String,
    pub name: String,
    pub uid: String,
    pub controller: bool,
    pub block_owner_deletion: bool,
}

/// The pod a generated Job or CronJob runs.
pub struct PodBlueprint {
    pub container_name: String,
    pub image: String,
    pub command: Vec<String>,
    pub args: Vec<String>,
    pub volumes: Vec<VolumeSpec>,
    pub mounts: Vec<VolumeMountSpec>,
    pub restart_policy: String,
    pub service_account: String,
    pub resources: Option<ResourceRequirementsSpec>,
}

/// A Job the reconciler wants to exist.
pub struct JobBlueprint {
    pub name: String,
    pub namespace: String,
    pub labels: Vec<(String, String)>,
    pub annotations: Vec<(String, String)>,
    pub owner: OwnerRef,
    pub backoff_limit: i32,
    pub pod_labels: Vec<(String, String)>,
    pub pod: PodBlueprint,
}

/// A CronJob the reconciler wants to exist.
pub struct CronJobBlueprint {
    pub name: String,
    pub namespace: String,
    pub labels: Vec<(String, String)>,
    pub owner: OwnerRef,
    pub schedule: String,
    pub timezone: Option<String>,
    pub suspend: bool,
    pub concurrency_policy: String,
    pub successful_jobs_history_limit: i32,
    pub failed_jobs_history_limit: i32,
    pub backoff_limit: i32,
    pub job_labels: Vec<(String, String)>,
    pub pod_labels: Vec<(String, String)>,
    pub pod: PodBlueprint,
}

/// The image a pod uses: the spec's override or the default.
pub open spec fn image_view(image: Option<String>) -> Seq<char> {
    match image {
        Some(im) => im@,
        None => "ghcr.io/osodevops/kafka-backup:latest"@,
    }
}

/// The namespace string of a resource, empty when unset.
pub open spec fn namespace_view(ns: Option<String>) -> Seq<char> {
    match ns {
        Some(n) => n@,
        None => ""@,
    }
}

fn image_of(image: &Option<String>) -> (r: String)
    ensures
        r@ == (match image {
            Some(im) => im@,
            None => "ghcr.io/osodevops/kafka-backup:latest"@,
        }),
{
    match image {
        Some(im) => im.clone(),
        None => default_backup_image().to_owned(),
    }
}

fn namespace_of(ns: &Option<String>) -> (r: String)
    ensures
        r@ == (match ns {
            Some(n) => n@,
            None => ""@,
        }),
{
    match ns {
        Some(n) => n.clone(),
        None => "".to_owned(),
    }
}

fn clone_resources(r: &Option<ResourceRequirementsSpec>) -> (out: Option<ResourceRequirementsSpec>)
    ensures
        match r {
            Some(rr) => out matches Some(o) && o.requests.deep_view() == rr.requests.deep_view()
                && o.limits.deep_view() == rr.limits.deep_view(),
            None => out is None,
        },
{
    match r {
        Some(rr) => Some(
            ResourceRequirementsSpec {
                requests: clone_pairs(&rr.requests),
                limits: clone_pairs(&rr.limits),
            },
        ),
        None => None,
    }
}

/// Build a Job blueprint for a one-shot backup run.
///
/// The container runs the backup executable against the mounted
/// configuration; labels, volumes and the owner reference follow the
/// resource and the resolved cluster.
pub fn build_backup_job(
    backup: &KafkaBackup,
    job_name: &str,
    config_map_name: &str,
    cluster: &ResolvedKafkaCluster,
    auth: &ResolvedAuth,
) -> (r: Result<JobBlueprint, Error>)
    ensures
        r matches Ok(j) && j.name@ == job_name@ && j.namespace@ == namespace_view(
            backup.metadata.namespace,
        ) && j.labels.deep_view() == merged_labels(
            backup.metadata.name@,
            cluster.name@,
            "backup"@,
            backup.spec.template,
        ) && j.annotations.deep_view() == template_annotations(backup.spec.template)
            && j.owner.api_version@ == "kafkabackup.com/v1alpha1"@ && j.owner.kind@
            == "KafkaBackup"@ && j.owner.name@ == backup.metadata.name@ && j.owner.uid@ == (
        match backup.metadata.uid {
            Some(u) => u@,
            None => ""@,
        }) && j.owner.controller && j.owner.block_owner_deletion && j.backoff_limit == 3
            && j.pod_labels.deep_view() == labels_view(
            backup.metadata.name@,
            cluster.name@,
            "backup"@,
        ) && j.pod.container_name@ == "backup"@ && j.pod.image@ == image_view(
            backup.spec.image,
        ) && j.pod.command.deep_view() == seq!["kafka-backup"@] && j.pod.args.deep_view() == seq![
            "backup"@,
            "--config"@,
            "/config/backup.yaml"@,
        ] && j.pod.volumes.deep_view() == volumes_view(
            config_map_name@,
            cluster.name@,
            *auth,
            backup.spec.storage,
        ) && j.pod.mounts.deep_view() == mounts_view(*auth, backup.spec.storage)
            && j.pod.restart_policy@ == "Never"@ && j.pod.service_account@
            == "kafka-backup-operator"@,
{
    let cr_name = backup.metadata.name.clone();
    let namespace = namespace_of(&backup.metadata.namespace);
    let image = image_of(&backup.spec.image);

    let template_ref = backup.spec.template.as_ref();
    proof {
        assert(deref_template(template_ref) == backup.spec.template);
    }
    let mut labels = build_labels(cr_name.as_str(), cluster.name.as_str(), "backup");
    merge_template_labels(&mut labels, template_ref);
    let annotations = build_annotations(template_ref);
    let (volumes, mounts) = build_volumes_and_mounts(
        config_map_name,
        "backup.yaml",
        cluster.name.as_str(),
        auth,
        &backup.spec.storage,
    );

    let mut command: Vec<String> = Vec::new();
    command.push("kafka-backup".to_owned());
    let mut args: Vec<String> = Vec::new();
    args.push("backup".to_owned());
    args.push("--config".to_owned());
    args.push("/config/backup.yaml".to_owned());

    let owner = OwnerRef {
        api_version: "kafkabackup.com/v1alpha1".to_owned(),
        kind: "KafkaBackup".to_owned(),
        name: cr_name.clone(),
        uid: match &backup.metadata.uid {
            Some(u) => u.clone(),
            None => "".to_owned(),
        },
        controller: true,
        block_owner_deletion: true,
    };

    let pod = PodBlueprint {
        container_name: "backup".to_owned(),
        image,
        command,
        args,
        volumes,
        mounts,
        restart_policy: "Never".to_owned(),
        service_account: "kafka-backup-operator".to_owned(),
        resources: clone_resources(&backup.spec.resources),
    };

    let job = JobBlueprint {
        name: job_name.to_owned(),
        namespace,
        labels,
        annotations,
        owner,
        backoff_limit: 3,
        pod_labels: build_labels(cr_name.as_str(), cluster.name.as_str(), "backup"),
        pod,
    };
    proof {
        assert(job.pod.command.deep_view() =~= seq!["kafka-backup"@]);
        assert(job.pod.args.deep_view() =~= seq!["backup"@, "--config"@, "/config/backup.yaml"@]);
    }
    Ok(job)
}

/// Build a CronJob blueprint for a scheduled backup.  Overlapping runs are
/// forbidden by the concurrency policy.
pub fn build_backup_cronjob(
    backup: &KafkaBackup,
    config_map_name: &str,
    cluster: &ResolvedKafkaCluster,
    auth: &ResolvedAuth,
) -> (r: Result<CronJobBlueprint, Error>)
    requires
        backup.spec.schedule is Some,
    ensures
        r matches Ok(c) && c.name@ == backup.metadata.name@ + "-scheduled"@ && c.namespace@
            == namespace_view(backup.metadata.namespace) && c.labels.deep_view() == merged_labels(
            backup.metadata.name@,
            cluster.name@,
            "backup"@,
            backup.spec.template,
        ) && c.owner.api_version@ == "backup.strimzi.io/v1alpha1"@ && c.owner.kind@
            == "KafkaBackup"@ && c.owner.name@ == backup.metadata.name@ && c.owner.controller
            && c.owner.block_owner_deletion && c.schedule@ == backup.spec.schedule.unwrap().cron@
            && c.timezone.deep_view() == backup.spec.schedule.unwrap().timezone.deep_view()
            && c.suspend == backup.spec.schedule.unwrap().suspend && c.concurrency_policy@
            == "Forbid"@ && c.successful_jobs_history_limit == 3 && c.failed_jobs_history_limit
            == 3 && c.backoff_limit == 3 && c.job_labels.deep_view() == c.labels.deep_view()
            && c.pod_labels.deep_view() == c.labels.deep_view() && c.pod.container_name@
            == "backup"@ && c.pod.image@ == image_view(backup.spec.image)
            && c.pod.command.deep_view() == seq!["kafka-backup"@] && c.pod.args.deep_view()
            == seq!["backup"@, "--config"@, "/config/backup.yaml"@] && c.pod.volumes.deep_view()
            == volumes_view(config_map_name@, cluster.name@, *auth, backup.spec.storage)
            && c.pod.mounts.deep_view() == mounts_view(*auth, backup.spec.storage)
            && c.pod.restart_policy@ == "Never"@ && c.pod.service_account@
            == "strimzi-backup-operator"@,
{
    let cr_name = backup.metadata.name.clone();
    let namespace = namespace_of(&backup.metadata.namespace);
    let image = image_of(&backup.spec.image);
    let schedule = match &backup.spec.schedule {
        Some(s) => s,
        None => {
            return Err(Error::InvalidConfig("CronJob requires schedule".to_owned()));
        },
    };

    let template_ref = backup.spec.template.as_ref();
    proof {
        assert(deref_template(template_ref) == backup.spec.template);
    }
    let mut labels = build_labels(cr_name.as_str(), cluster.name.as_str(), "backup");
    merge_template_labels(&mut labels, template_ref);
    let (volumes, mounts) = build_volumes_and_mounts(
        config_map_name,
        "backup.yaml",
        cluster.name.as_str(),
        auth,
        &backup.spec.storage,
    );

    let mut command: Vec<String> = Vec::new();
    command.push("kafka-backup".to_owned());
    let mut args: Vec<String> = Vec::new();
    args.push("backup".to_owned());
    args.push("--config".to_owned());
    args.push("/config/backup.yaml".to_owned());

    let owner = OwnerRef {
        api_version: "backup.strimzi.io/v1alpha1".to_owned(),
        kind: "KafkaBackup".to_owned(),
        name: cr_name.clone(),
        uid: match &backup.metadata.uid {
            Some(u) => u.clone(),
            None => "".to_owned(),
        },
        controller: true,
        block_owner_deletion: true,
    };

    let pod = PodBlueprint {
        container_name: "backup".to_owned(),
        image,
        command,
        args,
        volumes,
        mounts,
        restart_policy: "Never".to_owned(),
        service_account: "strimzi-backup-operator".to_owned(),
        resources: clone_resources(&backup.spec.resources),
    };

    let cronjob = CronJobBlueprint {
        name: concat_str(cr_name.as_str(), "-scheduled"),
        namespace,
        labels: clone_pairs(&labels),
        owner,
        schedule: schedule.cron.clone(),
        timezone: match &schedule.timezone {
            Some(t) => Some(t.clone()),
            None => None,
        },
        suspend: schedule.suspend,
        concurrency_policy: "Forbid".to_owned(),
        successful_jobs_history_limit: 3,
        failed_jobs_history_limit: 3,
        backoff_limit: 3,
        job_labels: clone_pairs(&labels),
        pod_labels: labels,
        pod,
    };
    proof {
        assert(cronjob.pod.command.deep_view() =~= seq!["kafka-backup"@]);
        assert(cronjob.pod.args.deep_view() =~= seq![
            "backup"@,
            "--config"@,
            "/config/backup.yaml"@,
        ]);
    }
    Ok(cronjob)
}

/// Build a Job blueprint for a restore run.  The storage credentials come
/// from the *source backup's* storage spec.
pub fn build_restore_job(
    restore: &KafkaRestore,
    job_name: &str,
    config_map_name: &str,
    cluster: &ResolvedKafkaCluster,
    auth: &ResolvedAuth,
    source_backup: &KafkaBackup,
) -> (r: Result<JobBlueprint, Error>)
    ensures
        r matches Ok(j) && j.name@ == job_name@ && j.namespace@ == namespace_view(
            restore.metadata.namespace,
        ) && j.labels.deep_view() == merged_labels(
            restore.metadata.name@,
            cluster.name@,
            "restore"@,
            restore.spec.template,
        ) && j.annotations.deep_view() == template_annotations(restore.spec.template)
            && j.owner.api_version@ == "backup.strimzi.io/v1alpha1"@ && j.owner.kind@
            == "KafkaRestore"@ && j.owner.name@ == restore.metadata.name@ && j.owner.uid@ == (
        match restore.metadata.uid {
            Some(u) => u@,
            None => ""@,
        }) && j.owner.controller && j.owner.block_owner_deletion && j.backoff_limit == 3
            && j.pod_labels.deep_view() == labels_view(
            restore.metadata.name@,
            cluster.name@,
            "restore"@,
        ) && j.pod.container_name@ == "restore"@ && j.pod.image@ == image_view(
            restore.spec.image,
        ) && j.pod.command.deep_view() == seq!["kafka-backup"@] && j.pod.args.deep_view() == seq![
            "restore"@,
            "--config"@,
            "/config/restore.yaml"@,
        ] && j.pod.volumes.deep_view() == volumes_view(
            config_map_name@,
            cluster.name@,
            *auth,
            source_backup.spec.storage,
        ) && j.pod.mounts.deep_view() == mounts_view(*auth, source_backup.spec.storage)
            && j.pod.restart_policy@ == "Never"@ && j.pod.service_account@
            == "strimzi-backup-operator"@,
{
    let cr_name = restore.metadata.name.clone();
    let namespace = namespace_of(&restore.metadata.namespace);
    let image = image_of(&restore.spec.image);

    let template_ref = restore.spec.template.as_ref();
    proof {
        assert(deref_template(template_ref) == restore.spec.template);
    }
    let mut labels = build_labels(cr_name.as_str(), cluster.name.as_str(), "restore");
    merge_template_labels(&mut labels, template_ref);
    let annotations = build_annotations(template_ref);
    let (volumes, mounts) = build_volumes_and_mounts(
        config_map_name,
        "restore.yaml",
        cluster.name.as_str(),
        auth,
        &source_backup.spec.storage,
    );

    let mut command: Vec<String> = Vec::new();
    command.push("kafka-backup".to_owned());
    let mut args: Vec<String> = Vec::new();
    args.push("restore".to_owned());
    args.push("--config".to_owned());
    args.push("/config/restore.yaml".to_owned());

    let owner = OwnerRef {
        api_version: "backup.strimzi.io/v1alpha1".to_owned(),
        kind: "KafkaRestore".to_owned(),
        name: cr_name.clone(),
        uid: match &restore.metadata.uid {
            Some(u) => u.clone(),
            None => "".to_owned(),
        },
        controller: true,
        block_owner_deletion: true,
    };

    let pod = PodBlueprint {
        container_name: "restore".to_owned(),
        image,
        command,
        args,
        volumes,
        mounts,
        restart_policy: "Never".to_owned(),
        service_account: "strimzi-backup-operator".to_owned(),
        resources: clone_resources(&restore.spec.resources),
    };

    let job = JobBlueprint {
        name: job_name.to_owned(),
        namespace,
        labels,
        annotations,
        owner,
        backoff_limit: 3,
        pod_labels: build_labels(cr_name.as_str(), cluster.name.as_str(), "restore"),
        pod,
    };
    proof {
        assert(job.pod.command.deep_view() =~= seq!["kafka-backup"@]);
        assert(job.pod.args.deep_view() =~= seq![
            "restore"@,
            "--config"@,
            "/config/restore.yaml"@,
        ]);
    }
    Ok(job)
}

} // verus!
