use k8s_aws_nlb_proxy_protocol_operator::synchronizer::{
    proxy_protocol_enabled, proxy_protocol_setting, sync_outcome, Outcome, TargetGroupAttribute,
    DISABLED, ENABLED, PROXY_PROTOCOL_ATTRIBUTE,
};

fn attribute(key: &str, value: &str) -> TargetGroupAttribute {
    TargetGroupAttribute { key: Some(key.to_string()), value: Some(value.to_string()) }
}

/// What the load balancer service does with a write: the attribute replaces
/// every entry under its key.
fn write(listing: &mut Vec<TargetGroupAttribute>, attribute: TargetGroupAttribute) {
    listing.retain(|entry| entry.key != attribute.key);
    listing.push(attribute);
}

/// Synchronizes a target group once and says how many writes that took.
fn sync(listing: &mut Vec<TargetGroupAttribute>, desired: bool) -> usize {
    match sync_outcome(desired, &Some(listing.clone())) {
        Outcome::Modified => {
            write(listing, proxy_protocol_setting(desired));
            1
        }
        Outcome::Unchanged => 0,
    }
}

#[test]
fn attribute_key_and_values_have_their_exact_text() {
    assert_eq!(PROXY_PROTOCOL_ATTRIBUTE, "proxy_protocol_v2.enabled");
    assert_eq!(ENABLED, "true");
    assert_eq!(DISABLED, "false");
}

#[test]
fn missing_listing_counts_as_enabled() {
    assert!(proxy_protocol_enabled(&None));
    assert!(proxy_protocol_enabled(&Some(vec![])));
}

#[test]
fn absent_attribute_counts_as_enabled() {
    let listing = Some(vec![
        attribute("deregistration_delay.timeout_seconds", "300"),
        attribute("stickiness.enabled", "false"),
    ]);
    assert!(proxy_protocol_enabled(&listing));
}

#[test]
fn only_an_explicit_false_counts_as_disabled() {
    assert!(!proxy_protocol_enabled(&Some(vec![attribute("proxy_protocol_v2.enabled", "false")])));
    assert!(proxy_protocol_enabled(&Some(vec![attribute("proxy_protocol_v2.enabled", "true")])));
    assert!(proxy_protocol_enabled(&Some(vec![attribute("proxy_protocol_v2.enabled", "False")])));
    assert!(proxy_protocol_enabled(&Some(vec![attribute("proxy_protocol_v2.enabled", "")])));
    assert!(proxy_protocol_enabled(&Some(vec![attribute("proxy_protocol_v2.enabled", "no")])));
    assert!(proxy_protocol_enabled(&Some(vec![attribute("proxy_protocol_v2_enabled", "false")])));
}

#[test]
fn entries_with_missing_parts_do_not_count() {
    let listing = Some(vec![
        TargetGroupAttribute { key: None, value: Some("false".to_string()) },
        TargetGroupAttribute { key: Some("proxy_protocol_v2.enabled".to_string()), value: None },
        TargetGroupAttribute { key: None, value: None },
    ]);
    assert!(proxy_protocol_enabled(&listing));
}

#[test]
fn one_false_entry_among_others_is_enough() {
    let listing = Some(vec![
        attribute("stickiness.enabled", "true"),
        attribute("proxy_protocol_v2.enabled", "true"),
        attribute("proxy_protocol_v2.enabled", "false"),
    ]);
    assert!(!proxy_protocol_enabled(&listing));
}

#[test]
fn outcome_is_modified_exactly_when_states_differ() {
    let disabled = Some(vec![attribute("proxy_protocol_v2.enabled", "false")]);
    let enabled = Some(vec![attribute("proxy_protocol_v2.enabled", "true")]);
    assert_eq!(sync_outcome(true, &disabled), Outcome::Modified);
    assert_eq!(sync_outcome(false, &disabled), Outcome::Unchanged);
    assert_eq!(sync_outcome(true, &enabled), Outcome::Unchanged);
    assert_eq!(sync_outcome(false, &enabled), Outcome::Modified);
    assert_eq!(sync_outcome(true, &None), Outcome::Unchanged);
    assert_eq!(sync_outcome(false, &None), Outcome::Modified);
}

#[test]
fn setting_holds_the_one_key_and_the_state() {
    assert_eq!(proxy_protocol_setting(true), attribute("proxy_protocol_v2.enabled", "true"));
    assert_eq!(proxy_protocol_setting(false), attribute("proxy_protocol_v2.enabled", "false"));
}

#[test]
fn enabling_twice_writes_once() {
    let mut listing = vec![
        attribute("stickiness.enabled", "false"),
        attribute("proxy_protocol_v2.enabled", "false"),
    ];
    assert_eq!(sync(&mut listing, true), 1);
    assert_eq!(sync(&mut listing, true), 0);
    assert_eq!(
        listing,
        vec![attribute("stickiness.enabled", "false"), attribute("proxy_protocol_v2.enabled", "true")]
    );
}

#[test]
fn disabling_twice_writes_once() {
    let mut listing = vec![attribute("stickiness.enabled", "false")];
    assert_eq!(sync(&mut listing, false), 1);
    assert_eq!(sync(&mut listing, false), 0);
    assert_eq!(
        listing,
        vec![attribute("stickiness.enabled", "false"), attribute("proxy_protocol_v2.enabled", "false")]
    );
}

#[test]
fn syncing_to_the_state_at_hand_writes_nothing() {
    let mut fresh: Vec<TargetGroupAttribute> = vec![];
    assert_eq!(sync(&mut fresh, true), 0);
    assert_eq!(fresh, vec![]);
    let mut disabled = vec![attribute("proxy_protocol_v2.enabled", "false")];
    assert_eq!(sync(&mut disabled, false), 0);
    assert_eq!(disabled, vec![attribute("proxy_protocol_v2.enabled", "false")]);
}

#[test]
fn switching_back_and_forth_writes_each_time_once() {
    let mut listing: Vec<TargetGroupAttribute> = vec![];
    assert_eq!(sync(&mut listing, false), 1);
    assert_eq!(sync(&mut listing, true), 1);
    assert_eq!(sync(&mut listing, true), 0);
    assert_eq!(sync(&mut listing, false), 1);
    assert_eq!(sync(&mut listing, false), 0);
}
