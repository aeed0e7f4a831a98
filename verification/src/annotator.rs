//! Recording on a service what a pass did to its target groups: the value of
//! the marker annotation, the patch that sets it, and what the patch does to
//! the service.

use crate::classifier::{
    classification, is_marked, Classification, LB_TYPE_ANNOTATION, MARKER_ANNOTATION,
    PROXY_PROTOCOL_ANNOTATION, WILDCARD,
};
use crate::service::{ServiceRecord, ServiceView};
use vstd::prelude::*;
use vstd::string::StringExecFns;

verus! {

/// The value of the marker annotation of a service whose PROXY protocol was
/// switched off: the empty text.
pub const CLEARED: &'static str = "";

/// The field of a service under which its metadata stands.
pub const METADATA_FIELD: &'static str = "metadata";

/// The field of the metadata under which the annotations stand.
pub const ANNOTATIONS_FIELD: &'static str = "annotations";

/// The error type of `serde_json`, declared so that a value of it can be
/// handed on. Nothing is known of what such a value holds.
#[verifier::external_type_specification]
#[verifier::external_body]
pub struct ExJsonError(serde_json::Error);

/// The patch could not be put into JSON text.
#[derive(Debug, Clone, PartialEq, Eq)]
pub struct EncodeError {
    /// What the encoder said.
    pub message: String,
}

/// What `serde_json::to_vec` returns for the JSON value
/// `{outer: {middle: {inner: text}}}`, an object with one field, which holds an
/// object with one field, which holds an object with one field, which holds a
/// string: the bytes of the JSON text where the call succeeds, nothing where
/// it fails.
pub uninterp spec fn nested_object_json(
    outer: Seq<char>,
    middle: Seq<char>,
    inner: Seq<char>,
    text: Seq<char>,
) -> Option<Seq<u8>>;

/// Calls `serde_json::to_vec` on the JSON value `{outer: {middle: {inner: text}}}`,
/// which is built from the four strings. Assumed, not proved: what the call
/// returns depends on the four strings alone, both whether it succeeds and,
/// where it does, the bytes. Nothing is assumed about what those bytes are,
/// nor about when the call succeeds.
#[verifier::external_body]
fn encode_nested_object(outer: &str, middle: &str, inner: &str, text: &str) -> (encoded: Result<
    Vec<u8>,
    serde_json::Error,
>)
    ensures
        (match encoded {
            Ok(bytes) => nested_object_json(outer@, middle@, inner@, text@) == Some(bytes@),
            Err(_) => nested_object_json(outer@, middle@, inner@, text@) is None,
        }),
{
    let mut fields = serde_json::Map::new();
    fields.insert(inner.to_owned(), serde_json::Value::String(text.to_owned()));
    let mut section = serde_json::Map::new();
    section.insert(middle.to_owned(), serde_json::Value::Object(fields));
    let mut document = serde_json::Map::new();
    document.insert(outer.to_owned(), serde_json::Value::Object(section));
    serde_json::to_vec(&serde_json::Value::Object(document))
}

/// Calls `to_string` on a `serde_json::Error`, which formats the error for
/// display. Nothing is assumed about the text.
#[verifier::external_body]
fn error_message(error: &serde_json::Error) -> (message: String) {
    error.to_string()
}

/// The value that the marker annotation gets after the PROXY protocol of a
/// service was switched on, or off.
pub open spec fn marker_text(enabled: bool) -> Seq<char> {
    if enabled {
        WILDCARD@
    } else {
        CLEARED@
    }
}

/// The body of the merge patch that sets the marker annotation of a service to
/// a value and touches nothing else, as the encoder gives it; nothing where
/// the encoder fails.
pub open spec fn patch_text(marker: Seq<char>) -> Option<Seq<u8>> {
    nested_object_json(METADATA_FIELD@, ANNOTATIONS_FIELD@, MARKER_ANNOTATION@, marker)
}

/// A service after its marker annotation was set for the given state. Only
/// that annotation changes.
pub open spec fn annotated(service: ServiceView, enabled: bool) -> ServiceView {
    ServiceView {
        name: service.name,
        namespace: service.namespace,
        annotations: service.annotations.insert(MARKER_ANNOTATION@, marker_text(enabled)),
    }
}

/// The value to give the marker annotation after the PROXY protocol of a
/// service was switched on, or off.
pub fn marker_value(enabled: bool) -> (marker: String)
    ensures
        marker@ == marker_text(enabled),
{
    if enabled {
        String::from_str(WILDCARD)
    } else {
        String::from_str(CLEARED)
    }
}

/// Turns what the encoder returned into the body of a patch, or into this
/// library's error.
pub fn patch_from(encoded: Result<Vec<u8>, serde_json::Error>) -> (patch: Result<
    Vec<u8>,
    EncodeError,
>)
    ensures
        (match encoded {
            Ok(bytes) => patch == Ok::<Vec<u8>, EncodeError>(bytes),
            Err(_) => patch is Err,
        }),
{
    match encoded {
        Ok(bytes) => Ok(bytes),
        Err(error) => Err(EncodeError { message: error_message(&error) }),
    }
}

/// Builds the body of the merge patch that sets the marker annotation of a
/// service to a value. The body is what the encoder gives for the patch, and
/// the call fails exactly where the encoder does.
pub fn marker_patch(marker: &str) -> (patch: Result<Vec<u8>, EncodeError>)
    ensures
        (match patch_text(marker@) {
            Some(text) => patch matches Ok(body) && body@ == text,
            None => patch is Err,
        }),
{
    patch_from(encode_nested_object(METADATA_FIELD, ANNOTATIONS_FIELD, MARKER_ANNOTATION, marker))
}

/// Does to a service what the patch does to it in the cluster.
pub fn annotate(service: &mut ServiceRecord, enabled: bool)
    ensures
        final(service)@ == annotated(old(service)@, enabled),
{
    service.annotations.insert(String::from_str(MARKER_ANNOTATION), marker_value(enabled));
}

/// The three annotation keys are three different texts, and so are the two
/// values of the marker.
pub proof fn lemma_keys_differ()
    ensures
        MARKER_ANNOTATION@ != LB_TYPE_ANNOTATION@,
        MARKER_ANNOTATION@ != PROXY_PROTOCOL_ANNOTATION@,
        marker_text(true) != marker_text(false),
{
    reveal_strlit("jarrednicholls.com/k8s-aws-nlb-proxy-protocol-operator");
    reveal_strlit("service.beta.kubernetes.io/aws-load-balancer-type");
    reveal_strlit("service.beta.kubernetes.io/aws-load-balancer-proxy-protocol");
    reveal_strlit("*");
    reveal_strlit("");
    assert(MARKER_ANNOTATION@[0] == 'j');
    assert(LB_TYPE_ANNOTATION@[0] == 's');
    assert(PROXY_PROTOCOL_ANNOTATION@[0] == 's');
    assert(WILDCARD@.len() == 1);
    assert(CLEARED@.len() == 0);
}

/// Setting the marker settles a service. A service that asked for the PROXY
/// protocol carries the marker `*` afterwards, a service that had withdrawn
/// its request carries an empty marker, and either is then left alone for as
/// long as its other annotations stay as they are.
pub proof fn lemma_annotation_settles(service: ServiceView)
    ensures
        classification(service.annotations) == Classification::EnableRequested ==> {
            let after = annotated(service, true).annotations;
            &&& after[MARKER_ANNOTATION@] == WILDCARD@
            &&& classification(after) == Classification::Ignore
        },
        classification(service.annotations) == Classification::DisableRequested ==> {
            let after = annotated(service, false).annotations;
            &&& after[MARKER_ANNOTATION@].len() == 0
            &&& !is_marked(after)
            &&& classification(after) == Classification::Ignore
        },
{
    lemma_keys_differ();
    reveal_strlit("");
}

} // verus!
