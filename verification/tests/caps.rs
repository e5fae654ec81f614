use wiseowl_brain::caps::{BrainCapability, BrainCapabilitySet};

#[test]
fn default_client_can_invoke() {
    let c = BrainCapabilitySet::default_client();
    assert!(c.require(BrainCapability::InvokeWiseOwlBrain).is_ok());
    assert!(c.require(BrainCapability::InvokeGreetingProvider).is_ok());
}

#[test]
fn default_client_cannot_admin() {
    let c = BrainCapabilitySet::default_client();
    assert!(c.require(BrainCapability::AdminBrain).is_err());
    assert!(c.require(BrainCapability::InspectAnyBrainContext).is_err());
}

#[test]
fn admin_has_all() {
    let a = BrainCapabilitySet::admin();
    assert!(a.has(BrainCapability::AdminBrain));
    assert!(a.has(BrainCapability::InvokeWiseOwlBrain));
}

#[test]
fn diagnostic_can_inspect_any() {
    let d = BrainCapabilitySet::diagnostic();
    assert!(d.has(BrainCapability::InspectAnyBrainContext));
}

#[test]
fn granted_capability_is_held_and_others_kept() {
    let s = BrainCapabilitySet::empty().grant(BrainCapability::InvokeWiseOwlBrain);
    assert!(s.has(BrainCapability::InvokeWiseOwlBrain));
    assert!(!s.has(BrainCapability::AdminBrain));
    let t = s.grant(BrainCapability::AdminBrain);
    assert!(t.has(BrainCapability::InvokeWiseOwlBrain));
    assert!(t.has(BrainCapability::AdminBrain));
}

#[test]
fn empty_set_requires_fail() {
    let s = BrainCapabilitySet::empty();
    assert_eq!(s.mask(), 0);
    assert!(s.require(BrainCapability::InvokeWiseOwlBrain).is_err());
}

#[test]
fn grants_are_idempotent_commute_and_round_trip_through_the_mask() {
    let s = BrainCapabilitySet::empty();
    let a = BrainCapability::InvokeWiseOwlBrain;
    let b = BrainCapability::AdminBrain;
    assert_eq!(s.grant(a).grant(a), s.grant(a));
    assert_eq!(s.grant(a).grant(b), s.grant(b).grant(a));
    let d = BrainCapabilitySet::diagnostic();
    assert_eq!(BrainCapabilitySet::from_mask(d.mask()), d);
}
