use k8s_aws_nlb_proxy_protocol_operator::config::{
    credential_source, watched_namespace, CredentialSource, DEFAULT_NAMESPACE, NAMESPACE_VARIABLE,
    SERVICE_HOST_VARIABLE, SERVICE_PORT_VARIABLE,
};

#[test]
fn in_cluster_needs_both_host_and_port() {
    assert_eq!(credential_source(true, true), CredentialSource::InCluster);
    assert_eq!(credential_source(true, false), CredentialSource::KubeConfig);
    assert_eq!(credential_source(false, true), CredentialSource::KubeConfig);
    assert_eq!(credential_source(false, false), CredentialSource::KubeConfig);
}

#[test]
fn namespace_falls_back_to_default() {
    assert_eq!(watched_namespace(None), "default");
    assert_eq!(watched_namespace(Some("prod".to_string())), "prod");
    assert_eq!(watched_namespace(Some("".to_string())), "");
}

#[test]
fn variable_names_and_default_have_their_exact_text() {
    assert_eq!(NAMESPACE_VARIABLE, "NAMESPACE");
    assert_eq!(DEFAULT_NAMESPACE, "default");
    assert_eq!(SERVICE_HOST_VARIABLE, "KUBERNETES_SERVICE_HOST");
    assert_eq!(SERVICE_PORT_VARIABLE, "KUBERNETES_SERVICE_PORT");
}
