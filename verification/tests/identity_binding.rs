use wiseowl_brain::identity_binding::{BrainIdentityBinding, BrainIdentityMode, ObservedIdentity};

fn ready(fp: [u8; 8]) -> ObservedIdentity {
    ObservedIdentity {
        validated: true,
        ready: true,
        fingerprint: fp,
        continuity_generation: 1,
    }
}

#[test]
fn rebind_same_identity_and_reject_changed_identity() {
    let mut binding = BrainIdentityBinding::default();
    binding.observe(Some(ready(*b"IDENTITY")));
    assert_eq!(binding.mode, BrainIdentityMode::Personalized);
    binding.disconnected();
    binding.observe(Some(ready(*b"IDENTITY")));
    assert_eq!(binding.mode, BrainIdentityMode::Personalized);
    binding.disconnected();
    binding.observe(Some(ready(*b"OTHERID!")));
    assert_eq!(binding.mode, BrainIdentityMode::SuspendedMismatch);
    binding.observe(None);
    assert_eq!(binding.mode, BrainIdentityMode::SuspendedMismatch);
}

#[test]
fn unvalidated_status_degrades_without_losing_identity() {
    let mut binding = BrainIdentityBinding::default();
    assert_eq!(binding.mode, BrainIdentityMode::Disconnected);
    binding.observe(Some(ready(*b"IDENTITY")));
    assert_eq!(binding.fingerprint(), Some(*b"IDENTITY"));
    let mut stale = ready(*b"IDENTITY");
    stale.validated = false;
    binding.observe(Some(stale));
    assert_eq!(binding.mode, BrainIdentityMode::GenericDegraded);
    assert_eq!(binding.continuity_generation, None);
    assert_eq!(binding.fingerprint(), Some(*b"IDENTITY"));
    binding.observe(None);
    assert_eq!(binding.mode, BrainIdentityMode::GenericDegraded);
}
