//! What a reconciliation pass owes a service, read from three of its annotations.

use crate::annotations::Annotations;
use vstd::prelude::*;

verus! {

/// The annotation under which a service names the kind of load balancer it wants.
pub const LB_TYPE_ANNOTATION: &'static str = "service.beta.kubernetes.io/aws-load-balancer-type";

/// The annotation under which a service asks for the PROXY protocol.
pub const PROXY_PROTOCOL_ANNOTATION: &'static str =
    "service.beta.kubernetes.io/aws-load-balancer-proxy-protocol";

/// The annotation under which this controller records that it has enabled the
/// PROXY protocol for a service.
pub const MARKER_ANNOTATION: &'static str =
    "jarrednicholls.com/k8s-aws-nlb-proxy-protocol-operator";

/// The load balancer type that this controller looks after.
pub const LB_TYPE_NLB: &'static str = "nlb";

/// The value by which a service asks for the PROXY protocol, and by which the
/// marker annotation says that it is enabled.
pub const WILDCARD: &'static str = "*";

/// What a reconciliation pass has to do for one service.
#[derive(Clone, Copy, Debug, PartialEq, Eq, Structural)]
pub enum Classification {
    /// Nothing to do.
    Ignore,
    /// The PROXY protocol is asked for and not yet recorded as enabled.
    EnableRequested,
    /// The PROXY protocol is recorded as enabled and no longer asked for.
    DisableRequested,
}

/// The key is present and carries exactly this value.
pub open spec fn carries(
    annotations: Map<Seq<char>, Seq<char>>,
    key: Seq<char>,
    value: Seq<char>,
) -> bool {
    annotations.contains_key(key) && annotations[key] == value
}

/// The service asks for a network load balancer.
pub open spec fn wants_nlb(annotations: Map<Seq<char>, Seq<char>>) -> bool {
    carries(annotations, LB_TYPE_ANNOTATION@, LB_TYPE_NLB@)
}

/// The service asks for the PROXY protocol.
pub open spec fn wants_proxy_protocol(annotations: Map<Seq<char>, Seq<char>>) -> bool {
    carries(annotations, PROXY_PROTOCOL_ANNOTATION@, WILDCARD@)
}

/// The service is recorded as having the PROXY protocol enabled.
pub open spec fn is_marked(annotations: Map<Seq<char>, Seq<char>>) -> bool {
    carries(annotations, MARKER_ANNOTATION@, WILDCARD@)
}

/// The decision table, rows in order of priority. Each argument says whether
/// the annotation is present with the expected value; an absent annotation and
/// one with another value count alike.
pub open spec fn decide(nlb: bool, proxy_protocol: bool, marked: bool) -> Classification {
    match (nlb, proxy_protocol, marked) {
        (true, true, true) => Classification::Ignore,
        (true, true, false) => Classification::EnableRequested,
        (_, _, true) => Classification::DisableRequested,
        (_, _, false) => Classification::Ignore,
    }
}

/// The classification of a service with these annotations.
pub open spec fn classification(annotations: Map<Seq<char>, Seq<char>>) -> Classification {
    decide(wants_nlb(annotations), wants_proxy_protocol(annotations), is_marked(annotations))
}

/// Classifies a service from its annotations.
pub fn classify(annotations: &Annotations) -> (c: Classification)
    ensures
        c == classification(annotations@),
{
    let nlb = annotations.has_value(LB_TYPE_ANNOTATION, LB_TYPE_NLB);
    let proxy_protocol = annotations.has_value(PROXY_PROTOCOL_ANNOTATION, WILDCARD);
    let marked = annotations.has_value(MARKER_ANNOTATION, WILDCARD);
    if nlb && proxy_protocol {
        if marked {
            Classification::Ignore
        } else {
            Classification::EnableRequested
        }
    } else if marked {
        Classification::DisableRequested
    } else {
        Classification::Ignore
    }
}

/// Every service has exactly one classification, and it is the one that the
/// decision table gives for the three annotations: enabling is asked for exactly
/// when both load balancer annotations match and the marker does not, disabling
/// exactly when the marker matches and the load balancer annotations do not both
/// match, and nothing is done in the two remaining cases.
pub proof fn lemma_classification_total(annotations: Map<Seq<char>, Seq<char>>)
    ensures
        classification(annotations) == Classification::EnableRequested <==> wants_nlb(annotations)
            && wants_proxy_protocol(annotations) && !is_marked(annotations),
        classification(annotations) == Classification::DisableRequested <==> !(wants_nlb(
            annotations,
        ) && wants_proxy_protocol(annotations)) && is_marked(annotations),
        classification(annotations) == Classification::Ignore <==> (wants_nlb(annotations)
            && wants_proxy_protocol(annotations)) == is_marked(annotations),
{
}

/// The classification reads nothing but the three annotations: two services
/// that agree on them are classified alike, whatever else they carry.
pub proof fn lemma_classification_reads_three_keys(
    a: Map<Seq<char>, Seq<char>>,
    b: Map<Seq<char>, Seq<char>>,
)
    requires
        a.contains_key(LB_TYPE_ANNOTATION@) == b.contains_key(LB_TYPE_ANNOTATION@),
        a.contains_key(LB_TYPE_ANNOTATION@) ==> a[LB_TYPE_ANNOTATION@] == b[LB_TYPE_ANNOTATION@],
        a.contains_key(PROXY_PROTOCOL_ANNOTATION@) == b.contains_key(PROXY_PROTOCOL_ANNOTATION@),
        a.contains_key(PROXY_PROTOCOL_ANNOTATION@) ==> a[PROXY_PROTOCOL_ANNOTATION@]
            == b[PROXY_PROTOCOL_ANNOTATION@],
        a.contains_key(MARKER_ANNOTATION@) == b.contains_key(MARKER_ANNOTATION@),
        a.contains_key(MARKER_ANNOTATION@) ==> a[MARKER_ANNOTATION@] == b[MARKER_ANNOTATION@],
    ensures
        classification(a) == classification(b),
{
}

} // verus!
