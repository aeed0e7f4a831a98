use k8s_aws_nlb_proxy_protocol_operator::annotations::Annotations;
use k8s_aws_nlb_proxy_protocol_operator::classifier::{
    LB_TYPE_ANNOTATION, MARKER_ANNOTATION, PROXY_PROTOCOL_ANNOTATION,
};
use k8s_aws_nlb_proxy_protocol_operator::service::{select_tasks, task_for, ServiceRecord, Task};

fn record(namespace: &str, name: &str, pairs: &[(&str, &str)]) -> ServiceRecord {
    let mut annotations = Annotations::new();
    for (key, value) in pairs {
        annotations.insert(key.to_string(), value.to_string());
    }
    ServiceRecord { name: name.to_string(), namespace: namespace.to_string(), annotations }
}

fn task(namespace: &str, name: &str, enable: bool) -> Task {
    Task { namespace: namespace.to_string(), name: name.to_string(), enable }
}

#[test]
fn service_with_intent_gets_an_enabling_task() {
    let web = record("default", "web", &[(LB_TYPE_ANNOTATION, "nlb"), (PROXY_PROTOCOL_ANNOTATION, "*")]);
    assert_eq!(task_for(&web), Some(task("default", "web", true)));
}

#[test]
fn marked_service_without_intent_gets_a_disabling_task() {
    let api = record("prod", "api", &[(MARKER_ANNOTATION, "*")]);
    assert_eq!(task_for(&api), Some(task("prod", "api", false)));
}

#[test]
fn settled_and_unrelated_services_get_no_task() {
    let stable = record(
        "default",
        "stable",
        &[(LB_TYPE_ANNOTATION, "nlb"), (PROXY_PROTOCOL_ANNOTATION, "*"), (MARKER_ANNOTATION, "*")],
    );
    assert_eq!(task_for(&stable), None);
    let plain = record("default", "plain", &[]);
    assert_eq!(task_for(&plain), None);
    let classic = record("default", "classic", &[(LB_TYPE_ANNOTATION, "elb"), (PROXY_PROTOCOL_ANNOTATION, "*")]);
    assert_eq!(task_for(&classic), None);
}

#[test]
fn tasks_keep_the_order_of_the_snapshot() {
    let services = vec![
        record("default", "plain", &[]),
        record("default", "api", &[(MARKER_ANNOTATION, "*")]),
        record(
            "default",
            "stable",
            &[(LB_TYPE_ANNOTATION, "nlb"), (PROXY_PROTOCOL_ANNOTATION, "*"), (MARKER_ANNOTATION, "*")],
        ),
        record("default", "web", &[(LB_TYPE_ANNOTATION, "nlb"), (PROXY_PROTOCOL_ANNOTATION, "*")]),
        record("other", "api", &[(MARKER_ANNOTATION, "*"), (LB_TYPE_ANNOTATION, "nlb")]),
    ];
    assert_eq!(
        select_tasks(&services),
        vec![task("default", "api", false), task("default", "web", true), task("other", "api", false)]
    );
}

#[test]
fn empty_snapshot_gives_no_tasks() {
    assert_eq!(select_tasks(&vec![]), vec![]);
    assert_eq!(select_tasks(&vec![record("default", "plain", &[])]), vec![]);
}

#[test]
fn a_cloned_task_is_the_same_task() {
    let first = task("default", "web", true);
    assert_eq!(first.clone(), first);
    assert_eq!(task("prod", "api", false).clone(), task("prod", "api", false));
}
