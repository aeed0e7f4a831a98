//! Whether a target group has to be written to, from its attributes as the load
//! balancer service lists them and the state that the service asks for.

use crate::text::text_of;
use vstd::prelude::*;
use vstd::string::StringExecFns;

verus! {

/// The target group attribute that switches the PROXY protocol.
pub const PROXY_PROTOCOL_ATTRIBUTE: &'static str = "proxy_protocol_v2.enabled";

/// The attribute value that switches the PROXY protocol on.
pub const ENABLED: &'static str = "true";

/// The attribute value that switches the PROXY protocol off.
pub const DISABLED: &'static str = "false";

/// One attribute of a target group as the load balancer service lists it, or as
/// it is handed to that service to be written. Either part may be missing from
/// a listing.
#[derive(Debug, Clone, PartialEq, Eq)]
pub struct TargetGroupAttribute {
    pub key: Option<String>,
    pub value: Option<String>,
}

/// A target group attribute as plain text.
pub struct AttributeView {
    pub key: Option<Seq<char>>,
    pub value: Option<Seq<char>>,
}

impl View for TargetGroupAttribute {
    type V = AttributeView;

    open spec fn view(&self) -> AttributeView {
        AttributeView { key: text_of(self.key), value: text_of(self.value) }
    }
}

/// The attributes of a listing as plain text.
pub open spec fn attribute_views(attributes: Seq<TargetGroupAttribute>) -> Seq<AttributeView> {
    attributes.map_values(|a: TargetGroupAttribute| a@)
}

/// A listing of attributes as plain text; a listing may be missing altogether.
pub open spec fn listing_view(listing: Option<Vec<TargetGroupAttribute>>) -> Option<
    Seq<AttributeView>,
> {
    match listing {
        Some(attributes) => Some(attribute_views(attributes@)),
        None => None,
    }
}

/// The attribute that sets the PROXY protocol to the given state.
pub open spec fn setting(enabled: bool) -> AttributeView {
    AttributeView {
        key: Some(PROXY_PROTOCOL_ATTRIBUTE@),
        value: Some(
            if enabled {
                ENABLED@
            } else {
                DISABLED@
            },
        ),
    }
}

/// Some entry switches the PROXY protocol off in so many words.
pub open spec fn says_disabled(attributes: Seq<AttributeView>) -> bool {
    exists|i: int| 0 <= i < attributes.len() && #[trigger] attributes[i] == setting(false)
}

/// The PROXY protocol counts as enabled unless the listing says that it is
/// disabled: a target group starts out with it enabled, so a listing that does
/// not mention the attribute, or no listing at all, means enabled.
pub open spec fn shows_enabled(listing: Option<Seq<AttributeView>>) -> bool {
    match listing {
        Some(attributes) => !says_disabled(attributes),
        None => true,
    }
}

/// What synchronizing one target group came to.
#[derive(Clone, Copy, Debug, PartialEq, Eq, Structural)]
pub enum Outcome {
    /// The target group was already in the state asked for; nothing is written.
    Unchanged,
    /// The target group was in the other state; the attribute is written once.
    Modified,
}

/// What synchronizing a target group with this listing to the desired state
/// comes to.
pub open spec fn outcome_of(desired_enabled: bool, listing: Option<Seq<AttributeView>>) -> Outcome {
    if shows_enabled(listing) == desired_enabled {
        Outcome::Unchanged
    } else {
        Outcome::Modified
    }
}

/// The listing after one attribute was written: that attribute replaces every
/// entry under its key.
pub open spec fn written(attributes: Seq<AttributeView>, attribute: AttributeView) -> Seq<
    AttributeView,
> {
    attributes.filter(|a: AttributeView| a.key != attribute.key).push(attribute)
}

/// The listing of a target group after it was synchronized to the desired state.
pub open spec fn after_sync(desired_enabled: bool, listing: Option<Seq<AttributeView>>) -> Option<
    Seq<AttributeView>,
> {
    match outcome_of(desired_enabled, listing) {
        Outcome::Unchanged => listing,
        Outcome::Modified => Some(
            written(
                match listing {
                    Some(attributes) => attributes,
                    None => Seq::empty(),
                },
                setting(desired_enabled),
            ),
        ),
    }
}

/// Whether an attribute is the one that switches the PROXY protocol off.
fn is_disabled_setting(attribute: &TargetGroupAttribute) -> (r: bool)
    ensures
        r == (attribute@ == setting(false)),
{
    match (&attribute.key, &attribute.value) {
        (Some(key), Some(value)) => {
            let wanted_key = String::from_str(PROXY_PROTOCOL_ATTRIBUTE);
            let wanted_value = String::from_str(DISABLED);
            *key == wanted_key && *value == wanted_value
        },
        _ => false,
    }
}

/// Whether some entry of a listing switches the PROXY protocol off.
fn lists_disabled(attributes: &Vec<TargetGroupAttribute>) -> (r: bool)
    ensures
        r == says_disabled(attribute_views(attributes@)),
{
    let ghost views = attribute_views(attributes@);
    let mut i: usize = 0;
    while i < attributes.len()
        invariant
            i <= attributes.len(),
            views == attribute_views(attributes@),
            forall|j: int| 0 <= j < i ==> #[trigger] views[j] != setting(false),
        decreases attributes.len() - i,
    {
        if is_disabled_setting(&attributes[i]) {
            assert(views[i as int] == setting(false));
            return true;
        }
        i += 1;
    }
    false
}

/// Reads from a listing of a target group's attributes whether the PROXY
/// protocol is enabled.
pub fn proxy_protocol_enabled(listing: &Option<Vec<TargetGroupAttribute>>) -> (enabled: bool)
    ensures
        enabled == shows_enabled(listing_view(*listing)),
{
    match listing {
        Some(attributes) => !lists_disabled(attributes),
        None => true,
    }
}

/// Decides whether a target group has to be written to.
pub fn sync_outcome(desired_enabled: bool, listing: &Option<Vec<TargetGroupAttribute>>) -> (outcome:
    Outcome)
    ensures
        outcome == outcome_of(desired_enabled, listing_view(*listing)),
{
    if proxy_protocol_enabled(listing) == desired_enabled {
        Outcome::Unchanged
    } else {
        Outcome::Modified
    }
}

/// The attribute to write so that the PROXY protocol is in the given state.
pub fn proxy_protocol_setting(enabled: bool) -> (attribute: TargetGroupAttribute)
    ensures
        attribute@ == setting(enabled),
{
    let value = if enabled {
        String::from_str(ENABLED)
    } else {
        String::from_str(DISABLED)
    };
    let key = String::from_str(PROXY_PROTOCOL_ATTRIBUTE);
    TargetGroupAttribute { key: Some(key), value: Some(value) }
}

/// The two attribute values are different texts.
pub proof fn lemma_settings_differ()
    ensures
        setting(true) != setting(false),
{
    reveal_strlit("true");
    reveal_strlit("false");
    assert(ENABLED@.len() == 4);
    assert(DISABLED@.len() == 5);
}

/// Synchronizing a target group a second time writes nothing: once it has been
/// synchronized to a state, whether by a write or because it was in that state
/// already, its listing shows that state.
pub proof fn lemma_sync_is_idempotent(desired_enabled: bool, listing: Option<Seq<AttributeView>>)
    ensures
        outcome_of(desired_enabled, after_sync(desired_enabled, listing)) == Outcome::Unchanged,
{
    if outcome_of(desired_enabled, listing) == Outcome::Modified {
        let before = match listing {
            Some(attributes) => attributes,
            None => Seq::empty(),
        };
        let attribute = setting(desired_enabled);
        let other_keys = |a: AttributeView| a.key != attribute.key;
        let kept = before.filter(other_keys);
        let after = written(before, attribute);
        broadcast use vstd::seq_lib::group_filter_ensures;
        lemma_settings_differ();
        if desired_enabled {
            assert forall|i: int| 0 <= i < after.len() implies #[trigger] after[i] != setting(
                false,
            ) by {
                if i < kept.len() {
                    assert(other_keys(kept[i]));
                }
            }
        } else {
            assert(after[kept.len() as int] == setting(false));
        }
    }
}

} // verus!
