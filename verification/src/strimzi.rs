//! Pure resolution logic for Strimzi-managed cluster state: picking the
//! bootstrap listener, classifying authentication, and the conventional
//! secret names.  The surrounding process fetches the raw objects and hands
//! their relevant fields in as plain values.

use vstd::prelude::*;
use crate::error::Error;
use crate::resources::{AuthenticationSpec, AuthenticationType};
use crate::text::concat_str;

verus! {

/// Resolved connection details of a Strimzi Kafka cluster.
pub struct ResolvedKafkaCluster {
    pub name: String,
    pub namespace: String,
    pub bootstrap_servers: String,
    pub replicas: i32,
    pub tls_enabled: bool,
    pub listener_name: String,
}

/// Resolved client credentials.
pub enum ResolvedAuth {
    /// TLS client certificate authentication; the secret holds the
    /// certificate and key.
    Tls { secret_name: String },
    /// SCRAM-SHA-512 authentication; the secret holds the password.
    ScramSha512 { username: String, secret_name: String, password_key: String },
    /// No authentication.
    NoAuth,
}

/// Resolved CA material of the cluster.
pub struct ResolvedTlsCerts {
    /// Cluster CA certificate (PEM).
    pub cluster_ca_cert: String,
    /// Whether a clients CA was found.
    pub has_client_ca: bool,
    /// Clients CA certificate (PEM), when present.
    pub client_ca_cert: Option<String>,
}

/// One entry of the Kafka resource's `status.listeners`.
pub struct ListenerStatus {
    pub name: Option<String>,
    pub bootstrap_servers: Option<String>,
}

/// One entry of the Kafka resource's `spec.kafka.listeners`.
pub struct ListenerSpec {
    pub name: Option<String>,
    pub tls: Option<bool>,
}

/// The bootstrap address of the first listener with the given name, if any.
pub open spec fn first_bootstrap_named(ls: Seq<ListenerStatus>, nm: Seq<char>) -> Option<
    Seq<char>,
>
    decreases ls.len(),
{
    if ls.len() == 0 {
        None
    } else if ls[0].name matches Some(n) && n@ == nm && ls[0].bootstrap_servers is Some {
        Some(ls[0].bootstrap_servers.unwrap()@)
    } else {
        first_bootstrap_named(ls.drop_first(), nm)
    }
}

/// The bootstrap address of the first listener that reports one, if any.
pub open spec fn first_bootstrap(ls: Seq<ListenerStatus>) -> Option<Seq<char>>
    decreases ls.len(),
{
    if ls.len() == 0 {
        None
    } else if ls[0].bootstrap_servers is Some {
        Some(ls[0].bootstrap_servers.unwrap()@)
    } else {
        first_bootstrap(ls.drop_first())
    }
}

/// The conventional bootstrap service address of a cluster.
pub open spec fn conventional_bootstrap(name: Seq<char>, namespace: Seq<char>) -> Seq<char> {
    name + "-kafka-bootstrap."@ + namespace + ".svc:9093"@
}

/// Which bootstrap address a pass uses: the `tls` listener first, then
/// `plain`, then any listener that reports one, then the conventional
/// service name.
pub open spec fn bootstrap_view(
    ls: Seq<ListenerStatus>,
    name: Seq<char>,
    namespace: Seq<char>,
) -> Seq<char> {
    match first_bootstrap_named(ls, "tls"@) {
        Some(b) => b,
        None => match first_bootstrap_named(ls, "plain"@) {
            Some(b) => b,
            None => match first_bootstrap(ls) {
                Some(b) => b,
                None => conventional_bootstrap(name, namespace),
            },
        },
    }
}

fn find_bootstrap_named(listeners: &Vec<ListenerStatus>, nm: &str) -> (r: Option<String>)
    ensures
        match r {
            Some(b) => first_bootstrap_named(listeners@, nm@) == Some(b@),
            None => first_bootstrap_named(listeners@, nm@) is None,
        },
{
    let n = listeners.len();
    let mut i: usize = 0;
    proof {
        assert(listeners@.skip(0) =~= listeners@);
    }
    while i < n
        invariant
            n == listeners@.len(),
            0 <= i <= n,
            first_bootstrap_named(listeners@, nm@) == first_bootstrap_named(
                listeners@.skip(i as int),
                nm@,
            ),
        decreases n - i,
    {
        proof {
            assert(listeners@.skip(i as int)[0] == listeners@[i as int]);
            assert(listeners@.skip(i as int).drop_first() =~= listeners@.skip(i + 1));
        }
        let matched: bool = match &listeners[i].name {
            Some(name) => crate::text::str_eq(name.as_str(), nm),
            None => false,
        };
        if matched {
            match &listeners[i].bootstrap_servers {
                Some(b) => {
                    return Some(b.clone());
                },
                None => {},
            }
        }
        i += 1;
    }
    proof {
        assert(listeners@.skip(n as int).len() == 0);
    }
    None
}



fn find_first_bootstrap(listeners: &Vec<ListenerStatus>) -> (r: Option<String>)
    ensures
        match r {
            Some(b) => first_bootstrap(listeners@) == Some(b@),
            None => first_bootstrap(listeners@) is None,
        },
{
    let n = listeners.len();
    let mut i: usize = 0;
    proof {
        assert(listeners@.skip(0) =~= listeners@);
    }
    while i < n
        invariant
            n == listeners@.len(),
            0 <= i <= n,
            first_bootstrap(listeners@) == first_bootstrap(listeners@.skip(i as int)),
        decreases n - i,
    {
        proof {
            assert(listeners@.skip(i as int)[0] == listeners@[i as int]);
            assert(listeners@.skip(i as int).drop_first() =~= listeners@.skip(i + 1));
        }
        match &listeners[i].bootstrap_servers {
            Some(b) => {
                return Some(b.clone());
            },
            None => {},
        }
        i += 1;
    }
    proof {
        assert(listeners@.skip(n as int).len() == 0);
    }
    None
}



/// Pick the bootstrap address from the Kafka resource's status listeners,
/// falling back to the conventional service name.
pub fn extract_bootstrap_servers(
    listeners: &Vec<ListenerStatus>,
    kafka_name: &str,
    namespace: &str,
) -> (r: String)
    ensures
        r@ == bootstrap_view(listeners@, kafka_name@, namespace@),
{
    match find_bootstrap_named(listeners, "tls") {
        Some(b) => b,
        None => match find_bootstrap_named(listeners, "plain") {
            Some(b) => b,
            None => match find_first_bootstrap(listeners) {
                Some(b) => b,
                None => {
                    let mut out = concat_str(kafka_name, "-kafka-bootstrap.");
                    out = concat_str(out.as_str(), namespace);
                    out = concat_str(out.as_str(), ".svc:9093");
                    out
                },
            },
        },
    }
}

/// The broker replica count, defaulting to three when the spec does not
/// say; values outside i32 wrap as a plain integer cast does.
pub fn extract_replicas(replicas: Option<i64>) -> (r: i32)
    ensures
        r == (match replicas {
            Some(v) => v as i32,
            None => 3i32,
        }),
{
    match replicas {
        Some(v) => #[verifier::truncate] (v as i32),
        None => 3,
    }
}

/// The first listener with TLS switched on, if any.
pub open spec fn first_tls_listener(ls: Seq<ListenerSpec>) -> Option<ListenerSpec>
    decreases ls.len(),
{
    if ls.len() == 0 {
        None
    } else if ls[0].tls == Some(true) {
        Some(ls[0])
    } else {
        first_tls_listener(ls.drop_first())
    }
}

/// What `extract_listener_info` reports: a TLS listener when one exists
/// (name defaulting to `tls`), else the first listener (TLS flag defaulting
/// to off, name defaulting to `plain`), else TLS on the conventional `tls`
/// listener.
pub open spec fn listener_info_view(ls: Seq<ListenerSpec>) -> (bool, Seq<char>) {
    match first_tls_listener(ls) {
        Some(l) => (
            true,
            match l.name {
                Some(n) => n@,
                None => "tls"@,
            },
        ),
        None => if ls.len() > 0 {
            (
                match ls[0].tls {
                    Some(t) => t,
                    None => false,
                },
                match ls[0].name {
                    Some(n) => n@,
                    None => "plain"@,
                },
            )
        } else {
            (true, "tls"@)
        },
    }
}

/// Pick the TLS flag and listener name from the Kafka resource's spec
/// listeners.
pub fn extract_listener_info(listeners: &Vec<ListenerSpec>) -> (r: (bool, String))
    ensures
        r.0 == listener_info_view(listeners@).0,
        r.1@ == listener_info_view(listeners@).1,
{
    let n = listeners.len();
    let mut i: usize = 0;
    proof {
        assert(listeners@.skip(0) =~= listeners@);
    }
    while i < n
        invariant
            n == listeners@.len(),
            0 <= i <= n,
            first_tls_listener(listeners@) == first_tls_listener(listeners@.skip(i as int)),
        decreases n - i,
    {
        proof {
            assert(listeners@.skip(i as int)[0] == listeners@[i as int]);
            assert(listeners@.skip(i as int).drop_first() =~= listeners@.skip(i + 1));
        }
        let is_tls: bool = match &listeners[i].tls {
            Some(t) => *t,
            None => false,
        };
        if is_tls {
            let name: String = match &listeners[i].name {
                Some(s) => s.clone(),
                None => "tls".to_owned(),
            };
            return (true, name);
        }
        i += 1;
    }
    proof {
        assert(listeners@.skip(n as int).len() == 0);
    }
    if listeners.len() > 0 {
        let tls: bool = match &listeners[0].tls {
            Some(t) => *t,
            None => false,
        };
        let name: String = match &listeners[0].name {
            Some(s) => s.clone(),
            None => "plain".to_owned(),
        };
        return (tls, name);
    }
    (true, "tls".to_owned())
}



// --- authentication ---

/// What a pass has to do to resolve credentials: either the spec already
/// names them, or the secret created for a KafkaUser must be looked up.
pub enum AuthResolution {
    /// Credentials are fully determined by the spec.
    Resolved(ResolvedAuth),
    /// The secret name must be read from the named KafkaUser resource.
    LookupUserSecret { user_name: String },
}

/// Classify the authentication spec.  A missing spec means no
/// authentication; a KafkaUser reference defers to a lookup; manual
/// references resolve directly; anything else is an invalid configuration.
pub fn resolve_auth_plan(auth_spec: &Option<AuthenticationSpec>) -> (r: Result<
    AuthResolution,
    Error,
>)
    ensures
        match auth_spec {
            Option::None => r matches Ok(AuthResolution::Resolved(ResolvedAuth::NoAuth)),
            Option::Some(auth) => match auth.auth_type {
                AuthenticationType::Tls => match auth.kafka_user_ref {
                    Some(u) => r matches Ok(AuthResolution::LookupUserSecret { user_name })
                        && user_name@ == u.name@,
                    None => match auth.certificate_and_key {
                        Some(c) => r matches Ok(
                            AuthResolution::Resolved(ResolvedAuth::Tls { secret_name }),
                        ) && secret_name@ == c.secret_name@,
                        None => r matches Err(Error::InvalidConfig(m)) && m@
                            == "TLS authentication requires either kafkaUserRef or certificateAndKey"@,
                    },
                },
                AuthenticationType::ScramSha512 => match auth.kafka_user_ref {
                    Some(u) => r matches Ok(AuthResolution::LookupUserSecret { user_name })
                        && user_name@ == u.name@,
                    None => match auth.username {
                        None => r matches Err(Error::InvalidConfig(m)) && m@
                            == "SCRAM authentication requires username"@,
                        Some(un) => match auth.password_secret {
                            None => r matches Err(Error::InvalidConfig(m)) && m@
                                == "SCRAM authentication requires either kafkaUserRef or passwordSecret"@,
                            Some(ps) => r matches Ok(
                                AuthResolution::Resolved(
                                    ResolvedAuth::ScramSha512 {
                                        username,
                                        secret_name,
                                        password_key,
                                    },
                                ),
                            ) && username@ == un@ && secret_name@ == ps.name@ && password_key@
                                == ps.key@,
                        },
                    },
                },
            },
        },
{
    let auth = match auth_spec {
        Some(a) => a,
        None => {
            return Ok(AuthResolution::Resolved(ResolvedAuth::NoAuth));
        },
    };
    match auth.auth_type {
        AuthenticationType::Tls => {
            if let Some(user_ref) = &auth.kafka_user_ref {
                return Ok(AuthResolution::LookupUserSecret { user_name: user_ref.name.clone() });
            }
            if let Some(cert_ref) = &auth.certificate_and_key {
                return Ok(
                    AuthResolution::Resolved(
                        ResolvedAuth::Tls { secret_name: cert_ref.secret_name.clone() },
                    ),
                );
            }
            Err(
                Error::InvalidConfig(
                    "TLS authentication requires either kafkaUserRef or certificateAndKey".to_owned(),
                ),
            )
        },
        AuthenticationType::ScramSha512 => {
            if let Some(user_ref) = &auth.kafka_user_ref {
                return Ok(AuthResolution::LookupUserSecret { user_name: user_ref.name.clone() });
            }
            let username = match &auth.username {
                Some(u) => u.clone(),
                None => {
                    return Err(
                        Error::InvalidConfig("SCRAM authentication requires username".to_owned()),
                    );
                },
            };
            let password_secret = match &auth.password_secret {
                Some(p) => p,
                None => {
                    return Err(
                        Error::InvalidConfig(
                            "SCRAM authentication requires either kafkaUserRef or passwordSecret".to_owned(),
                        ),
                    );
                },
            };
            Ok(
                AuthResolution::Resolved(
                    ResolvedAuth::ScramSha512 {
                        username,
                        secret_name: password_secret.name.clone(),
                        password_key: password_secret.key.clone(),
                    },
                ),
            )
        },
    }
}

/// Build the resolved credentials once the KafkaUser's secret name is
/// known.  SCRAM secrets created by the user operator hold the password
/// under the `password` key.
pub fn auth_from_user_secret(
    auth_type: AuthenticationType,
    user_name: &str,
    secret_name: String,
) -> (r: ResolvedAuth)
    ensures
        match auth_type {
            AuthenticationType::Tls => r matches ResolvedAuth::Tls { secret_name: s } && s
                == secret_name,
            AuthenticationType::ScramSha512 => r matches ResolvedAuth::ScramSha512 {
                username,
                secret_name: s,
                password_key,
            } && username@ == user_name@ && s == secret_name && password_key@ == "password"@,
        },
{
    match auth_type {
        AuthenticationType::Tls => ResolvedAuth::Tls { secret_name },
        AuthenticationType::ScramSha512 => ResolvedAuth::ScramSha512 {
            username: user_name.to_owned(),
            secret_name,
            password_key: "password".to_owned(),
        },
    }
}

/// The secret a KafkaUser's credentials live in: what its status reports,
/// or conventionally the user's own name.
pub fn user_secret_name(status_secret: Option<String>, user_name: &str) -> (r: String)
    ensures
        match status_secret {
            Some(s) => r == s,
            None => r@ == user_name@,
        },
{
    match status_secret {
        Some(s) => s,
        None => user_name.to_owned(),
    }
}

// --- conventional secret names ---

/// The conventional name of the cluster CA certificate secret.
pub fn cluster_ca_secret_name(cluster_name: &str) -> (r: String)
    ensures
        r@ == cluster_name@ + "-cluster-ca-cert"@,
{
    concat_str(cluster_name, "-cluster-ca-cert")
}

/// The conventional name of the clients CA certificate secret.
pub fn clients_ca_secret_name(cluster_name: &str) -> (r: String)
    ensures
        r@ == cluster_name@ + "-clients-ca-cert"@,
{
    concat_str(cluster_name, "-clients-ca-cert")
}

// --- secret data access ---

/// The value stored under `key`, if the data holds it.
pub open spec fn secret_value(data: Seq<(String, Vec<u8>)>, key: Seq<char>) -> Option<Vec<u8>>
    decreases data.len(),
{
    if data.len() == 0 {
        None
    } else if data[0].0@ == key {
        Some(data[0].1)
    } else {
        secret_value(data.drop_first(), key)
    }
}

/// Extract the raw bytes stored under one key of a secret's data, surfacing
/// a missing map or a missing key as a `SecretKeyMissing` error.
pub fn extract_secret_bytes(
    data: &Option<Vec<(String, Vec<u8>)>>,
    key: &str,
    secret_name: &str,
) -> (r: Result<Vec<u8>, Error>)
    ensures
        match data {
            Some(d) => match secret_value(d@, key@) {
                Some(v) => r matches Ok(out) && out@ == v@,
                None => r matches Err(Error::SecretKeyMissing { name, key: k }) && name@
                    == secret_name@ && k@ == key@,
            },
            None => r matches Err(Error::SecretKeyMissing { name, key: k }) && name@
                == secret_name@ && k@ == key@,
        },
{
    let d = match data {
        Some(d) => d,
        None => {
            return Err(
                Error::SecretKeyMissing { name: secret_name.to_owned(), key: key.to_owned() },
            );
        },
    };
    let n = d.len();
    let mut i: usize = 0;
    proof {
        assert(d@.skip(0) =~= d@);
    }
    while i < n
        invariant
            data matches Some(dd) && dd@ == d@,
            n == d@.len(),
            0 <= i <= n,
            secret_value(d@, key@) == secret_value(d@.skip(i as int), key@),
        decreases n - i,
    {
        proof {
            assert(d@.skip(i as int)[0] == d@[i as int]);
            assert(d@.skip(i as int).drop_first() =~= d@.skip(i + 1));
        }
        if crate::text::str_eq(d[i].0.as_str(), key) {
            assert(secret_value(d@, key@) == Some(d@[i as int].1));
            let out = vstd::slice::slice_to_vec(d[i].1.as_slice());
            assert(out@ == d@[i as int].1@);
            return Ok(out);
        }
        i += 1;
    }
    proof {
        assert(d@.skip(n as int).len() == 0);
    }
    Err(Error::SecretKeyMissing { name: secret_name.to_owned(), key: key.to_owned() })
}



} // verus!
