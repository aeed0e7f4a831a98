use k8s_aws_nlb_proxy_protocol_operator::annotations::Annotations;
use k8s_aws_nlb_proxy_protocol_operator::classifier::{
    classify, Classification, LB_TYPE_ANNOTATION, MARKER_ANNOTATION, PROXY_PROTOCOL_ANNOTATION,
    WILDCARD,
};

/// What an annotation holds in a test: the expected value, another value, or nothing.
#[derive(Clone, Copy, Debug, PartialEq)]
enum Held {
    Matching,
    Other,
    Absent,
}

fn annotations_with(lb_type: Held, proxy_protocol: Held, marker: Held) -> Annotations {
    let mut annotations = Annotations::new();
    annotations.insert("unrelated".to_string(), "*".to_string());
    match lb_type {
        Held::Matching => annotations.insert(LB_TYPE_ANNOTATION.to_string(), "nlb".to_string()),
        Held::Other => annotations.insert(LB_TYPE_ANNOTATION.to_string(), "elb".to_string()),
        Held::Absent => {}
    }
    match proxy_protocol {
        Held::Matching => annotations.insert(PROXY_PROTOCOL_ANNOTATION.to_string(), "*".to_string()),
        Held::Other => annotations.insert(PROXY_PROTOCOL_ANNOTATION.to_string(), "80".to_string()),
        Held::Absent => {}
    }
    match marker {
        Held::Matching => annotations.insert(MARKER_ANNOTATION.to_string(), "*".to_string()),
        Held::Other => annotations.insert(MARKER_ANNOTATION.to_string(), "".to_string()),
        Held::Absent => {}
    }
    annotations
}

#[test]
fn annotation_keys_and_values_have_their_exact_text() {
    assert_eq!(LB_TYPE_ANNOTATION, "service.beta.kubernetes.io/aws-load-balancer-type");
    assert_eq!(
        PROXY_PROTOCOL_ANNOTATION,
        "service.beta.kubernetes.io/aws-load-balancer-proxy-protocol"
    );
    assert_eq!(MARKER_ANNOTATION, "jarrednicholls.com/k8s-aws-nlb-proxy-protocol-operator");
    assert_eq!(WILDCARD, "*");
}

#[test]
fn all_three_matching_is_ignored() {
    let annotations = annotations_with(Held::Matching, Held::Matching, Held::Matching);
    assert_eq!(classify(&annotations), Classification::Ignore);
}

#[test]
fn intent_without_marker_asks_to_enable() {
    let absent = annotations_with(Held::Matching, Held::Matching, Held::Absent);
    assert_eq!(classify(&absent), Classification::EnableRequested);
    let other = annotations_with(Held::Matching, Held::Matching, Held::Other);
    assert_eq!(classify(&other), Classification::EnableRequested);
}

#[test]
fn marker_without_intent_asks_to_disable() {
    let none = annotations_with(Held::Absent, Held::Absent, Held::Matching);
    assert_eq!(classify(&none), Classification::DisableRequested);
    let only_type = annotations_with(Held::Matching, Held::Absent, Held::Matching);
    assert_eq!(classify(&only_type), Classification::DisableRequested);
    let only_proxy = annotations_with(Held::Other, Held::Matching, Held::Matching);
    assert_eq!(classify(&only_proxy), Classification::DisableRequested);
}

#[test]
fn no_annotations_at_all_is_ignored() {
    assert_eq!(classify(&Annotations::new()), Classification::Ignore);
}

#[test]
fn every_combination_follows_the_table() {
    let held = [Held::Matching, Held::Other, Held::Absent];
    let mut seen = 0;
    for lb_type in held {
        for proxy_protocol in held {
            for marker in held {
                let intent = lb_type == Held::Matching && proxy_protocol == Held::Matching;
                let marked = marker == Held::Matching;
                let expected = match (intent, marked) {
                    (true, true) => Classification::Ignore,
                    (true, false) => Classification::EnableRequested,
                    (false, true) => Classification::DisableRequested,
                    (false, false) => Classification::Ignore,
                };
                let annotations = annotations_with(lb_type, proxy_protocol, marker);
                assert_eq!(classify(&annotations), expected);
                seen += 1;
            }
        }
    }
    assert_eq!(seen, 27);
}

#[test]
fn values_are_compared_exactly() {
    let mut annotations = Annotations::new();
    annotations.insert(LB_TYPE_ANNOTATION.to_string(), "NLB".to_string());
    annotations.insert(PROXY_PROTOCOL_ANNOTATION.to_string(), "*".to_string());
    assert_eq!(classify(&annotations), Classification::Ignore);
    annotations.insert(LB_TYPE_ANNOTATION.to_string(), "nlb".to_string());
    assert_eq!(classify(&annotations), Classification::EnableRequested);
    annotations.insert(PROXY_PROTOCOL_ANNOTATION.to_string(), "**".to_string());
    assert_eq!(classify(&annotations), Classification::Ignore);
    annotations.insert(MARKER_ANNOTATION.to_string(), "*".to_string());
    assert_eq!(classify(&annotations), Classification::DisableRequested);
    annotations.insert(MARKER_ANNOTATION.to_string(), " *".to_string());
    assert_eq!(classify(&annotations), Classification::Ignore);
}

#[test]
fn other_annotations_do_not_count() {
    let mut a = Annotations::new();
    a.insert(LB_TYPE_ANNOTATION.to_string(), "nlb".to_string());
    a.insert(PROXY_PROTOCOL_ANNOTATION.to_string(), "*".to_string());
    let mut b = a.clone();
    b.insert("team".to_string(), "payments".to_string());
    b.insert("service.beta.kubernetes.io/aws-load-balancer-internal".to_string(), "true".to_string());
    assert_eq!(classify(&a), classify(&b));
    assert_eq!(classify(&b), Classification::EnableRequested);
}
