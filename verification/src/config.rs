//! What the controller reads from its environment at start, and what it makes
//! of it.

use crate::text::text_of;
use vstd::prelude::*;
use vstd::string::StringExecFns;

verus! {

/// The environment variable that names the namespace to watch.
pub const NAMESPACE_VARIABLE: &'static str = "NAMESPACE";

/// The namespace that is watched when none is named.
pub const DEFAULT_NAMESPACE: &'static str = "default";

/// The environment variable that holds the host of the API server inside a cluster.
pub const SERVICE_HOST_VARIABLE: &'static str = "KUBERNETES_SERVICE_HOST";

/// The environment variable that holds the port of the API server inside a cluster.
pub const SERVICE_PORT_VARIABLE: &'static str = "KUBERNETES_SERVICE_PORT";

/// Where the credentials for the cluster come from.
#[derive(Clone, Copy, Debug, PartialEq, Eq, Structural)]
pub enum CredentialSource {
    /// The service account that the cluster mounts into the controller's pod.
    InCluster,
    /// The kubeconfig file of the user.
    KubeConfig,
}

/// The namespace to watch, given what the environment names.
pub open spec fn namespace_of(configured: Option<Seq<char>>) -> Seq<char> {
    match configured {
        Some(namespace) => namespace,
        None => DEFAULT_NAMESPACE@,
    }
}

/// Picks the namespace to watch: the one that the environment names, or the
/// default.
pub fn watched_namespace(configured: Option<String>) -> (namespace: String)
    ensures
        namespace@ == namespace_of(text_of(configured)),
{
    match configured {
        Some(namespace) => namespace,
        None => String::from_str(DEFAULT_NAMESPACE),
    }
}

/// Picks the source of the credentials: the controller runs inside a cluster
/// exactly if the environment holds both the host and the port of its API server.
pub fn credential_source(service_host_set: bool, service_port_set: bool) -> (source:
    CredentialSource)
    ensures
        source == (if service_host_set && service_port_set {
            CredentialSource::InCluster
        } else {
            CredentialSource::KubeConfig
        }),
{
    if service_host_set && service_port_set {
        CredentialSource::InCluster
    } else {
        CredentialSource::KubeConfig
    }
}

} // verus!
