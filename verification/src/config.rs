//! Builders for the configuration document handed to the backup/restore
//! executable.  The document is rendered directly as YAML-shaped text:
//! `key: value` lines, two-space indentation for nested blocks, `- item`
//! lines for sequences.

use vstd::prelude::*;
use vstd::string::StringExecFns;
use crate::clock::{parse_rfc3339_millis, rfc3339_millis_of};
use crate::error::Error;
use crate::resources::{
    BackupOptionsSpec, KafkaBackup, KafkaRestore, S3StorageSpec, AzureStorageSpec,
    GcsStorageSpec, SecretKeyRef, StorageSpec, StorageType,
};
use crate::strimzi::{ResolvedAuth, ResolvedKafkaCluster, ResolvedTlsCerts};
use crate::text::{bool_rep, bool_to_str, dec_rep, i64_to_string};

verus! {

/// One `key: value` line.
pub open spec fn kv(indent: Seq<char>, key: Seq<char>, value: Seq<char>) -> Seq<char> {
    indent + key + ": "@ + value + "\n"@
}

/// One `key:` line opening a nested block.
pub open spec fn block_header(indent: Seq<char>, key: Seq<char>) -> Seq<char> {
    indent + key + ":\n"@
}

fn push_kv(out: &mut String, indent: &str, key: &str, value: &str)
    ensures
        final(out)@ == old(out)@ + kv(indent@, key@, value@),
{
    out.append(indent);
    out.append(key);
    out.append(": ");
    out.append(value);
    out.append("\n");
    proof {
        assert(out@ =~= old(out)@ + kv(indent@, key@, value@));
    }
}

fn push_header(out: &mut String, indent: &str, key: &str)
    ensures
        final(out)@ == old(out)@ + block_header(indent@, key@),
{
    out.append(indent);
    out.append(key);
    out.append(":\n");
    proof {
        assert(out@ =~= old(out)@ + block_header(indent@, key@));
    }
}

/// The first `k` entries of a string list as `- item` lines.
pub open spec fn list_lines(items: Seq<String>, indent: Seq<char>, k: int) -> Seq<char>
    decreases k,
{
    if k <= 0 {
        Seq::<char>::empty()
    } else {
        list_lines(items, indent, k - 1) + indent + "- "@ + items[k - 1]@ + "\n"@
    }
}

#[verifier::loop_isolation(false)]
fn push_list(out: &mut String, indent: &str, items: &Vec<String>)
    ensures
        final(out)@ == old(out)@ + list_lines(items@, indent@, items@.len() as int),
{
    let n = items.len();
    let mut i: usize = 0;
    while i < n
        invariant
            0 <= i <= n,
            n == items@.len(),
            out@ == old(out)@ + list_lines(items@, indent@, i as int),
        decreases n - i,
    {
        out.append(indent);
        out.append("- ");
        out.append(items[i].as_str());
        out.append("\n");
        proof {
            assert(out@ =~= old(out)@ + list_lines(items@, indent@, i + 1));
        }
        i += 1;
    }
}

/// The first `k` pairs as `key: value` lines.
pub open spec fn pair_lines(ps: Seq<(Seq<char>, Seq<char>)>, indent: Seq<char>, k: int) -> Seq<
    char,
>
    decreases k,
{
    if k <= 0 {
        Seq::<char>::empty()
    } else {
        pair_lines(ps, indent, k - 1) + kv(indent, ps[k - 1].0, ps[k - 1].1)
    }
}

#[verifier::loop_isolation(false)]
fn push_pairs(out: &mut String, indent: &str, pairs: &Vec<(String, String)>)
    ensures
        final(out)@ == old(out)@ + pair_lines(
            pairs.deep_view(),
            indent@,
            pairs@.len() as int,
        ),
{
    let n = pairs.len();
    let mut i: usize = 0;
    while i < n
        invariant
            0 <= i <= n,
            n == pairs@.len(),
            out@ == old(out)@ + pair_lines(pairs.deep_view(), indent@, i as int),
        decreases n - i,
    {
        push_kv(out, indent, pairs[i].0.as_str(), pairs[i].1.as_str());
        proof {
            assert(out@ =~= old(out)@ + pair_lines(pairs.deep_view(), indent@, i + 1));
        }
        i += 1;
    }
}

// --- storage ---

/// The flat key/value list of an S3 storage block.
pub open spec fn s3_pairs(s3: S3StorageSpec) -> Seq<(Seq<char>, Seq<char>)> {
    seq![("type"@, "s3"@), ("bucket"@, s3.bucket@)] + (match s3.region {
        Some(r) => seq![("region"@, r@)],
        None => Seq::empty(),
    }) + (match s3.prefix {
        Some(p) => seq![("prefix"@, p@)],
        None => Seq::empty(),
    }) + (match s3.endpoint {
        Some(e) => seq![("endpoint"@, e@)],
        None => Seq::empty(),
    }) + (match s3.force_path_style {
        Some(b) => seq![("force_path_style"@, bool_rep(b))],
        None => Seq::empty(),
    }) + (if s3.credentials_secret is Some {
        seq![("credentials_file"@, "/credentials/credentials"@)]
    } else {
        Seq::empty()
    })
}

/// The flat key/value list of an Azure storage block.
pub open spec fn azure_pairs(azure: AzureStorageSpec) -> Seq<(Seq<char>, Seq<char>)> {
    seq![
        ("type"@, "azure"@),
        ("container"@, azure.container@),
        ("storage_account"@, azure.storage_account@),
    ] + (match azure.prefix {
        Some(p) => seq![("prefix"@, p@)],
        None => Seq::empty(),
    }) + (if azure.credentials_secret is Some {
        seq![("credentials_file"@, "/credentials/credentials"@)]
    } else {
        Seq::empty()
    })
}

/// The flat key/value list of a GCS storage block.
pub open spec fn gcs_pairs(gcs: GcsStorageSpec) -> Seq<(Seq<char>, Seq<char>)> {
    seq![("type"@, "gcs"@), ("bucket"@, gcs.bucket@)] + (match gcs.prefix {
        Some(p) => seq![("prefix"@, p@)],
        None => Seq::empty(),
    }) + (if gcs.credentials_secret is Some {
        seq![("credentials_file"@, "/credentials/credentials"@)]
    } else {
        Seq::empty()
    })
}

/// The storage block's pairs, or `None` when the sub-configuration of the
/// selected backend is missing.
pub open spec fn storage_pairs(storage: StorageSpec) -> Option<Seq<(Seq<char>, Seq<char>)>> {
    match storage.storage_type {
        StorageType::S3 => match storage.s3 {
            Some(s) => Some(s3_pairs(s)),
            None => None,
        },
        StorageType::Azure => match storage.azure {
            Some(a) => Some(azure_pairs(a)),
            None => None,
        },
        StorageType::Gcs => match storage.gcs {
            Some(g) => Some(gcs_pairs(g)),
            None => None,
        },
    }
}

/// The error text for a missing backend sub-configuration.
pub open spec fn storage_missing_msg(t: StorageType) -> Seq<char> {
    match t {
        StorageType::S3 => "Storage type is S3 but s3 config is missing"@,
        StorageType::Azure => "Storage type is Azure but azure config is missing"@,
        StorageType::Gcs => "Storage type is GCS but gcs config is missing"@,
    }
}

/// Build the storage block of the configuration document as an ordered
/// key/value list.
pub fn build_storage_config(storage: &StorageSpec) -> (r: Result<Vec<(String, String)>, Error>)
    ensures
        match storage_pairs(*storage) {
            Some(p) => r matches Ok(v) && v.deep_view() == p,
            None => r matches Err(Error::InvalidConfig(m)) && m@ == storage_missing_msg(
                storage.storage_type,
            ),
        },
{
    let mut out: Vec<(String, String)> = Vec::new();
    match storage.storage_type {
        StorageType::S3 => {
            let s3 = match &storage.s3 {
                Some(s) => s,
                None => {
                    return Err(
                        Error::InvalidConfig(
                            "Storage type is S3 but s3 config is missing".to_owned(),
                        ),
                    );
                },
            };
            out.push(("type".to_owned(), "s3".to_owned()));
            out.push(("bucket".to_owned(), s3.bucket.clone()));
            if let Some(region) = &s3.region {
                out.push(("region".to_owned(), region.clone()));
            }
            if let Some(prefix) = &s3.prefix {
                out.push(("prefix".to_owned(), prefix.clone()));
            }
            if let Some(endpoint) = &s3.endpoint {
                out.push(("endpoint".to_owned(), endpoint.clone()));
            }
            if let Some(fps) = s3.force_path_style {
                out.push(("force_path_style".to_owned(), bool_to_str(fps).to_owned()));
            }
            if s3.credentials_secret.is_some() {
                out.push(("credentials_file".to_owned(), "/credentials/credentials".to_owned()));
            }
            proof {
                assert(out.deep_view() =~= s3_pairs(storage.s3.unwrap()));
            }
            Ok(out)
        },
        StorageType::Azure => {
            let azure = match &storage.azure {
                Some(a) => a,
                None => {
                    return Err(
                        Error::InvalidConfig(
                            "Storage type is Azure but azure config is missing".to_owned(),
                        ),
                    );
                },
            };
            out.push(("type".to_owned(), "azure".to_owned()));
            out.push(("container".to_owned(), azure.container.clone()));
            out.push(("storage_account".to_owned(), azure.storage_account.clone()));
            if let Some(prefix) = &azure.prefix {
                out.push(("prefix".to_owned(), prefix.clone()));
            }
            if azure.credentials_secret.is_some() {
                out.push(("credentials_file".to_owned(), "/credentials/credentials".to_owned()));
            }
            proof {
                assert(out.deep_view() =~= azure_pairs(storage.azure.unwrap()));
            }
            Ok(out)
        },
        StorageType::Gcs => {
            let gcs = match &storage.gcs {
                Some(g) => g,
                None => {
                    return Err(
                        Error::InvalidConfig(
                            "Storage type is GCS but gcs config is missing".to_owned(),
                        ),
                    );
                },
            };
            out.push(("type".to_owned(), "gcs".to_owned()));
            out.push(("bucket".to_owned(), gcs.bucket.clone()));
            if let Some(prefix) = &gcs.prefix {
                out.push(("prefix".to_owned(), prefix.clone()));
            }
            if gcs.credentials_secret.is_some() {
                out.push(("credentials_file".to_owned(), "/credentials/credentials".to_owned()));
            }
            proof {
                assert(out.deep_view() =~= gcs_pairs(storage.gcs.unwrap()));
            }
            Ok(out)
        },
    }
}

/// The credentials secret reference of the selected storage backend.
pub open spec fn credentials_ref(storage: StorageSpec) -> Option<SecretKeyRef> {
    match storage.storage_type {
        StorageType::S3 => match storage.s3 {
            Some(s) => s.credentials_secret,
            None => None,
        },
        StorageType::Azure => match storage.azure {
            Some(a) => a.credentials_secret,
            None => None,
        },
        StorageType::Gcs => match storage.gcs {
            Some(g) => g.credentials_secret,
            None => None,
        },
    }
}

/// The storage credentials secret name and key, if one is configured.
pub fn get_storage_credentials_secret(storage: &StorageSpec) -> (r: Option<(String, String)>)
    ensures
        match credentials_ref(*storage) {
            Some(c) => r matches Some(p) && p.0@ == c.name@ && p.1@ == c.key@,
            None => r is None,
        },
{
    let c = match storage.storage_type {
        StorageType::S3 => match &storage.s3 {
            Some(s) => &s.credentials_secret,
            None => &None,
        },
        StorageType::Azure => match &storage.azure {
            Some(a) => &a.credentials_secret,
            None => &None,
        },
        StorageType::Gcs => match &storage.gcs {
            Some(g) => &g.credentials_secret,
            None => &None,
        },
    };
    match c {
        Some(sk) => Some((sk.name.clone(), sk.key.clone())),
        None => None,
    }
}

/// The rendered storage block, under a `storage:` header.
pub open spec fn storage_section(pairs: Seq<(Seq<char>, Seq<char>)>) -> Seq<char> {
    block_header(""@, "storage"@) + pair_lines(pairs, "  "@, pairs.len() as int)
}

// --- the cluster connection block ---

/// The rendered connection block for one cluster, under the given section
/// key (`source` for backups, `target` for restores).
pub open spec fn kafka_section(
    section_key: Seq<char>,
    cluster: ResolvedKafkaCluster,
    auth: ResolvedAuth,
) -> Seq<char> {
    block_header(""@, section_key) + kv(
        "  "@,
        "bootstrap_servers"@,
        cluster.bootstrap_servers@,
    ) + (if cluster.tls_enabled {
        block_header("  "@, "tls"@) + kv("    "@, "enabled"@, "true"@) + kv(
            "    "@,
            "ca_cert_path"@,
            "/certs/cluster-ca/ca.crt"@,
        )
    } else {
        Seq::<char>::empty()
    }) + (match auth {
        ResolvedAuth::Tls { .. } => block_header("  "@, "authentication"@) + kv(
            "    "@,
            "type"@,
            "tls"@,
        ) + kv("    "@, "cert_path"@, "/certs/user/user.crt"@) + kv(
            "    "@,
            "key_path"@,
            "/certs/user/user.key"@,
        ),
        ResolvedAuth::ScramSha512 { username, .. } => block_header("  "@, "authentication"@)
            + kv("    "@, "type"@, "scram-sha-512"@) + kv("    "@, "username"@, username@) + kv(
            "    "@,
            "password_file"@,
            "/certs/user/password"@,
        ),
        ResolvedAuth::NoAuth => Seq::<char>::empty(),
    })
}

/// Append the connection block for a cluster.
#[verifier::rlimit(60)]
fn push_kafka_section(
    out: &mut String,
    section_key: &str,
    cluster: &ResolvedKafkaCluster,
    auth: &ResolvedAuth,
)
    ensures
        final(out)@ == old(out)@ + kafka_section(section_key@, *cluster, *auth),
{
    push_header(out, "", section_key);
    push_kv(out, "  ", "bootstrap_servers", cluster.bootstrap_servers.as_str());
    if cluster.tls_enabled {
        push_header(out, "  ", "tls");
        push_kv(out, "    ", "enabled", "true");
        push_kv(out, "    ", "ca_cert_path", "/certs/cluster-ca/ca.crt");
    }
    match auth {
        ResolvedAuth::Tls { .. } => {
            push_header(out, "  ", "authentication");
            push_kv(out, "    ", "type", "tls");
            push_kv(out, "    ", "cert_path", "/certs/user/user.crt");
            push_kv(out, "    ", "key_path", "/certs/user/user.key");
        },
        ResolvedAuth::ScramSha512 { username, .. } => {
            push_header(out, "  ", "authentication");
            push_kv(out, "    ", "type", "scram-sha-512");
            push_kv(out, "    ", "username", username.as_str());
            push_kv(out, "    ", "password_file", "/certs/user/password");
        },
        ResolvedAuth::NoAuth => {},
    }
    proof {
        assert(out@ =~= old(out)@ + kafka_section(section_key@, *cluster, *auth));
    }
}

// --- backup options ---

/// The rendered backup options block.
pub open spec fn backup_options_section(opts: BackupOptionsSpec) -> Seq<char> {
    block_header(""@, "backup"@) + (match opts.compression {
        Some(c) => kv("  "@, "compression"@, c@),
        None => Seq::empty(),
    }) + (match opts.segment_size {
        Some(s) => kv("  "@, "segment_max_bytes"@, dec_rep(s as int)),
        None => Seq::empty(),
    }) + (match opts.parallelism {
        Some(p) => kv("  "@, "max_concurrent_partitions"@, dec_rep(p as int)),
        None => Seq::empty(),
    })
}

#[verifier::rlimit(60)]
fn push_backup_options(out: &mut String, opts: &BackupOptionsSpec)
    ensures
        final(out)@ == old(out)@ + backup_options_section(*opts),
{
    push_header(out, "", "backup");
    if let Some(compression) = &opts.compression {
        push_kv(out, "  ", "compression", compression.as_str());
    }
    if let Some(segment_size) = opts.segment_size {
        let v = i64_to_string(segment_size);
        push_kv(out, "  ", "segment_max_bytes", v.as_str());
    }
    if let Some(parallelism) = opts.parallelism {
        let v = i64_to_string(parallelism as i64);
        push_kv(out, "  ", "max_concurrent_partitions", v.as_str());
    }
    proof {
        assert(out@ =~= old(out)@ + backup_options_section(*opts));
    }
}

// --- the backup document ---

/// The rendered topic selection block.
pub open spec fn topics_section(
    include_patterns: Seq<String>,
    exclude_patterns: Seq<String>,
) -> Seq<char> {
    block_header(""@, "topics"@) + (if include_patterns.len() > 0 {
        block_header("  "@, "include"@) + list_lines(
            include_patterns,
            "  "@,
            include_patterns.len() as int,
        )
    } else {
        Seq::<char>::empty()
    }) + (if exclude_patterns.len() > 0 {
        block_header("  "@, "exclude"@) + list_lines(
            exclude_patterns,
            "  "@,
            exclude_patterns.len() as int,
        )
    } else {
        Seq::<char>::empty()
    })
}

/// The whole backup configuration document, assuming the storage block
/// resolves to `pairs`.
pub open spec fn backup_config_view(
    backup: KafkaBackup,
    cluster: ResolvedKafkaCluster,
    auth: ResolvedAuth,
    pairs: Seq<(Seq<char>, Seq<char>)>,
) -> Seq<char> {
    kv(""@, "mode"@, "backup"@) + kv(
        ""@,
        "backup_id"@,
        backup.metadata.name@ + "-{timestamp}"@,
    ) + kafka_section("source"@, cluster, auth) + storage_section(pairs) + (
    match backup.spec.backup {
        Some(opts) => backup_options_section(opts),
        None => Seq::empty(),
    }) + (match backup.spec.topics {
        Some(t) => topics_section(t.include_patterns@, t.exclude_patterns@),
        None => Seq::empty(),
    })
}

/// Build the complete backup configuration document.
///
/// Fails exactly when the selected storage backend's sub-configuration is
/// missing.  The cluster CA material does not appear in the document; the
/// CA is mounted from its secret under a fixed path.
#[verifier::rlimit(100)]
pub fn build_backup_config_yaml(
    backup: &KafkaBackup,
    cluster: &ResolvedKafkaCluster,
    tls_certs: &Option<ResolvedTlsCerts>,
    auth: &ResolvedAuth,
) -> (r: Result<String, Error>)
    ensures
        match storage_pairs(backup.spec.storage) {
            Some(p) => r matches Ok(s) && s@ == backup_config_view(*backup, *cluster, *auth, p),
            None => r matches Err(Error::InvalidConfig(m)) && m@ == storage_missing_msg(
                backup.spec.storage.storage_type,
            ),
        },
{
    let storage = match build_storage_config(&backup.spec.storage) {
        Ok(s) => s,
        Err(e) => {
            return Err(e);
        },
    };
    let mut out = String::new();
    push_kv(&mut out, "", "mode", "backup");
    let mut backup_id = backup.metadata.name.clone();
    backup_id.append("-{timestamp}");
    push_kv(&mut out, "", "backup_id", backup_id.as_str());
    push_kafka_section(&mut out, "source", cluster, auth);
    push_header(&mut out, "", "storage");
    push_pairs(&mut out, "  ", &storage);
    if let Some(opts) = &backup.spec.backup {
        push_backup_options(&mut out, opts);
    }
    if let Some(topics) = &backup.spec.topics {
        push_header(&mut out, "", "topics");
        if topics.include_patterns.len() > 0 {
            push_header(&mut out, "  ", "include");
            push_list(&mut out, "  ", &topics.include_patterns);
        }
        if topics.exclude_patterns.len() > 0 {
            push_header(&mut out, "  ", "exclude");
            push_list(&mut out, "  ", &topics.exclude_patterns);
        }
    }
    proof {
        assert(out@ =~= backup_config_view(
            *backup,
            *cluster,
            *auth,
            storage_pairs(backup.spec.storage).unwrap(),
        ));
    }
    Ok(out)
}

// --- restore options ---

/// Whether the restore options block has any content.
pub open spec fn has_restore_opts(restore: KafkaRestore) -> bool {
    (restore.spec.restore matches Some(o) && o.parallelism is Some) || (
    restore.spec.consumer_groups matches Some(cg) && cg.restore)
}

/// The first `k` consumer-group mappings as `source: target` lines.
pub open spec fn cg_mapping_lines(
    mapping: Seq<crate::resources::ConsumerGroupMapping>,
    k: int,
) -> Seq<char>
    decreases k,
{
    if k <= 0 {
        Seq::<char>::empty()
    } else {
        cg_mapping_lines(mapping, k - 1) + kv(
            "    "@,
            mapping[k - 1].source_group@,
            mapping[k - 1].target_group@,
        )
    }
}

/// The rendered restore options block (only present when non-empty).
pub open spec fn restore_options_section(restore: KafkaRestore) -> Seq<char> {
    block_header(""@, "restore"@) + (match restore.spec.restore {
        Some(o) => match o.parallelism {
            Some(p) => kv("  "@, "max_concurrent_partitions"@, dec_rep(p as int)),
            None => Seq::empty(),
        },
        None => Seq::empty(),
    }) + (match restore.spec.consumer_groups {
        Some(cg) => if cg.restore {
            kv("  "@, "restore_consumer_groups"@, "true"@) + (if cg.mapping.len() > 0 {
                block_header("  "@, "consumer_group_mapping"@) + cg_mapping_lines(
                    cg.mapping@,
                    cg.mapping@.len() as int,
                )
            } else {
                Seq::<char>::empty()
            })
        } else {
            Seq::<char>::empty()
        },
        None => Seq::<char>::empty(),
    })
}

#[verifier::loop_isolation(false)]
fn push_cg_mapping(out: &mut String, mapping: &Vec<crate::resources::ConsumerGroupMapping>)
    ensures
        final(out)@ == old(out)@ + cg_mapping_lines(mapping@, mapping@.len() as int),
{
    let n = mapping.len();
    let mut i: usize = 0;
    while i < n
        invariant
            0 <= i <= n,
            n == mapping@.len(),
            out@ == old(out)@ + cg_mapping_lines(mapping@, i as int),
        decreases n - i,
    {
        push_kv(out, "    ", mapping[i].source_group.as_str(), mapping[i].target_group.as_str());
        proof {
            assert(out@ =~= old(out)@ + cg_mapping_lines(mapping@, i + 1));
        }
        i += 1;
    }
}

// --- the restore document ---

/// The first `k` topic mappings as `source: target` lines.
pub open spec fn topic_mapping_lines(
    mapping: Seq<crate::resources::TopicMappingEntry>,
    k: int,
) -> Seq<char>
    decreases k,
{
    if k <= 0 {
        Seq::<char>::empty()
    } else {
        topic_mapping_lines(mapping, k - 1) + kv(
            "  "@,
            mapping[k - 1].source_topic@,
            mapping[k - 1].target_topic@,
        )
    }
}

/// The point-in-time lines of the restore document.  A present absolute
/// timestamp contributes its epoch-millisecond value; a present offset is
/// passed through as an opaque duration string.
pub open spec fn pitr_lines(restore: KafkaRestore) -> Seq<char> {
    match restore.spec.point_in_time {
        Some(p) => (match p.timestamp {
            Some(ts) => kv(
                ""@,
                "time_window_end"@,
                dec_rep(rfc3339_millis_of(ts@).unwrap() as int),
            ),
            None => Seq::<char>::empty(),
        }) + (match p.offset_from_end {
            Some(o) => kv(""@, "offset_from_end"@, o@),
            None => Seq::<char>::empty(),
        }),
        None => Seq::<char>::empty(),
    }
}

/// The fixed opening of the restore document: mode, the optional snapshot
/// id, the target connection block and the storage block.
pub open spec fn restore_head_view(
    restore: KafkaRestore,
    cluster: ResolvedKafkaCluster,
    auth: ResolvedAuth,
    pairs: Seq<(Seq<char>, Seq<char>)>,
) -> Seq<char> {
    kv(""@, "mode"@, "restore"@) + (match restore.spec.backup_ref.backup_id {
        Some(id) => kv(""@, "backup_id"@, id@),
        None => Seq::empty(),
    }) + kafka_section("target"@, cluster, auth) + storage_section(pairs)
}

/// The whole restore configuration document, assuming the source backup's
/// storage block resolves to `pairs`.
pub open spec fn restore_config_view(
    restore: KafkaRestore,
    cluster: ResolvedKafkaCluster,
    auth: ResolvedAuth,
    pairs: Seq<(Seq<char>, Seq<char>)>,
) -> Seq<char> {
    restore_head_view(restore, cluster, auth, pairs) + (if has_restore_opts(restore) {
        restore_options_section(restore)
    } else {
        Seq::<char>::empty()
    }) + pitr_lines(restore) + (if restore.spec.topic_mapping.len() > 0 {
        block_header(""@, "topic_mapping"@) + topic_mapping_lines(
            restore.spec.topic_mapping@,
            restore.spec.topic_mapping@.len() as int,
        )
    } else {
        Seq::<char>::empty()
    })
}

/// Append the fixed opening of the restore document.
#[verifier::rlimit(100)]
fn push_restore_head(
    out: &mut String,
    restore: &KafkaRestore,
    cluster: &ResolvedKafkaCluster,
    auth: &ResolvedAuth,
    storage: &Vec<(String, String)>,
)
    ensures
        final(out)@ == old(out)@ + restore_head_view(
            *restore,
            *cluster,
            *auth,
            storage.deep_view(),
        ),
{
    push_kv(out, "", "mode", "restore");
    if let Some(backup_id) = &restore.spec.backup_ref.backup_id {
        push_kv(out, "", "backup_id", backup_id.as_str());
    }
    push_kafka_section(out, "target", cluster, auth);
    push_header(out, "", "storage");
    push_pairs(out, "  ", storage);
    proof {
        assert(out@ =~= old(out)@ + restore_head_view(
            *restore,
            *cluster,
            *auth,
            storage.deep_view(),
        ));
    }
}

/// Whether the restore's point-in-time timestamp, if any, parses.
pub open spec fn pitr_timestamp_ok(restore: KafkaRestore) -> bool {
    match restore.spec.point_in_time {
        Some(p) => match p.timestamp {
            Some(ts) => rfc3339_millis_of(ts@) is Some,
            None => true,
        },
        None => true,
    }
}

/// Build the complete restore configuration document.  The storage block
/// comes from the *source backup's* spec, because read credentials live
/// there.
///
/// Fails when the source backup's storage sub-configuration is missing,
/// and then when a present absolute point-in-time timestamp does not parse
/// as RFC 3339.
#[verifier::rlimit(100)]
pub fn build_restore_config_yaml(
    restore: &KafkaRestore,
    source_backup: &KafkaBackup,
    cluster: &ResolvedKafkaCluster,
    tls_certs: &Option<ResolvedTlsCerts>,
    auth: &ResolvedAuth,
) -> (r: Result<String, Error>)
    ensures
        match storage_pairs(source_backup.spec.storage) {
            Some(p) => {
                if pitr_timestamp_ok(*restore) {
                    r matches Ok(s) && s@ == restore_config_view(*restore, *cluster, *auth, p)
                } else {
                    r matches Err(Error::InvalidConfig(m)) && m@ == "Invalid timestamp format: "@
                        + restore.spec.point_in_time.unwrap().timestamp.unwrap()@
                }
            },
            None => r matches Err(Error::InvalidConfig(m)) && m@ == storage_missing_msg(
                source_backup.spec.storage.storage_type,
            ),
        },
{
    let storage = match build_storage_config(&source_backup.spec.storage) {
        Ok(s) => s,
        Err(e) => {
            return Err(e);
        },
    };
    let mut out = String::new();
    push_restore_head(&mut out, restore, cluster, auth, &storage);
    let ghost sp = storage_pairs(source_backup.spec.storage).unwrap();
    let ghost head = restore_head_view(*restore, *cluster, *auth, sp);
    proof {
        assert(out@ =~= head);
    }
    let has_opts: bool = {
        let parallel = match &restore.spec.restore {
            Some(o) => o.parallelism.is_some(),
            None => false,
        };
        let cg_on = match &restore.spec.consumer_groups {
            Some(cg) => cg.restore,
            None => false,
        };
        parallel || cg_on
    };
    if has_opts {
        push_header(&mut out, "", "restore");
        if let Some(opts) = &restore.spec.restore {
            if let Some(parallelism) = opts.parallelism {
                let v = i64_to_string(parallelism as i64);
                push_kv(&mut out, "  ", "max_concurrent_partitions", v.as_str());
            }
        }
        if let Some(cg) = &restore.spec.consumer_groups {
            if cg.restore {
                push_kv(&mut out, "  ", "restore_consumer_groups", "true");
                if cg.mapping.len() > 0 {
                    push_header(&mut out, "  ", "consumer_group_mapping");
                    push_cg_mapping(&mut out, &cg.mapping);
                }
            }
        }
    }
    let ghost head2 = head + (if has_restore_opts(*restore) {
        restore_options_section(*restore)
    } else {
        Seq::<char>::empty()
    });
    proof {
        assert(has_opts == has_restore_opts(*restore));
        assert(out@ =~= head2);
    }
    if let Some(pitr) = &restore.spec.point_in_time {
        if let Some(timestamp) = &pitr.timestamp {
            match parse_rfc3339_millis(timestamp.as_str()) {
                Some(ms) => {
                    let v = i64_to_string(ms);
                    push_kv(&mut out, "", "time_window_end", v.as_str());
                },
                None => {
                    let mut msg = "Invalid timestamp format: ".to_owned();
                    msg.append(timestamp.as_str());
                    return Err(Error::InvalidConfig(msg));
                },
            }
        }
        if let Some(offset) = &pitr.offset_from_end {
            push_kv(&mut out, "", "offset_from_end", offset.as_str());
        }
    }
    let ghost head3 = head2 + pitr_lines(*restore);
    proof {
        assert(out@ =~= head3);
    }
    if restore.spec.topic_mapping.len() > 0 {
        push_header(&mut out, "", "topic_mapping");
        let n = restore.spec.topic_mapping.len();
        let ghost mid = out@;
        let mut i: usize = 0;
        while i < n
            invariant
                0 <= i <= n,
                n == restore.spec.topic_mapping@.len(),
                out@ == mid + topic_mapping_lines(restore.spec.topic_mapping@, i as int),
            decreases n - i,
        {
            push_kv(
                &mut out,
                "  ",
                restore.spec.topic_mapping[i].source_topic.as_str(),
                restore.spec.topic_mapping[i].target_topic.as_str(),
            );
            proof {
                assert(out@ =~= mid + topic_mapping_lines(
                    restore.spec.topic_mapping@,
                    i + 1,
                ));
            }
            i += 1;
        }
    }
    proof {
        assert(out@ =~= head3 + (if restore.spec.topic_mapping@.len() > 0 {
            block_header(""@, "topic_mapping"@) + topic_mapping_lines(
                restore.spec.topic_mapping@,
                restore.spec.topic_mapping@.len() as int,
            )
        } else {
            Seq::<char>::empty()
        }));
        assert(out@ =~= restore_config_view(*restore, *cluster, *auth, sp));
    }
    Ok(out)
}

} // verus!
