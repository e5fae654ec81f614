use wiseowl_brain::action_intent::{
    target_kind_matches, validate, ActionIntent, ActionOperation, ActionParameters, ActionTarget,
    BoundedFilePath, CreationTime, IdentifierError, IntentId, IntentValidation, ParameterValue,
    Provenance, RequestedBy, RiskHint, SessionId, TypedIdentifier, ValidationReason,
    MAX_IDENTIFIER_LEN, MAX_PARAMETER_VALUE_LEN,
};
use wiseowl_brain::policy::PolicyOperation;

fn target_id(value: &str) -> TypedIdentifier {
    TypedIdentifier::new(value).unwrap()
}

fn intent(
    operation: ActionOperation,
    target: ActionTarget,
    parameters: ActionParameters,
    generation: u64,
) -> ActionIntent {
    ActionIntent::new(
        IntentId::new([1; 16]),
        operation,
        target,
        parameters,
        RequestedBy::WiseOwlReasoning,
        SessionId(7),
        generation,
        CreationTime(100),
        RiskHint::Low,
        Provenance::Conversation,
    )
}

#[test]
fn malformed_target_and_oversized_parameter_are_rejected() {
    assert_eq!(
        TypedIdentifier::new("../../bin/sh"),
        Err(IdentifierError::Malformed)
    );
    let oversized = "x".repeat(MAX_PARAMETER_VALUE_LEN + 1);
    assert_eq!(
        ParameterValue::new(&oversized),
        Err(IdentifierError::Oversized)
    );
}

#[test]
fn identifiers_accept_exactly_the_bounded_alphabet() {
    assert_eq!(target_id("org.sunlight.Calculator").as_str(), "org.sunlight.Calculator");
    assert_eq!(TypedIdentifier::new(""), Err(IdentifierError::Empty));
    assert_eq!(TypedIdentifier::new("two words"), Err(IdentifierError::Malformed));
    let longest = "a".repeat(MAX_IDENTIFIER_LEN);
    assert!(TypedIdentifier::new(&longest).is_ok());
    let too_long = "a".repeat(MAX_IDENTIFIER_LEN + 1);
    assert_eq!(TypedIdentifier::new(&too_long), Err(IdentifierError::Oversized));
    assert!(BoundedFilePath::new("/private/user/secret.txt").is_ok());
}

#[test]
fn valid_observe_intent_names_its_policy_operation() {
    let proposal = intent(
        ActionOperation::Observe,
        ActionTarget::System,
        ActionParameters::Observe { include_health: true },
        4,
    );
    let validation = validate(&proposal, 4);
    assert_eq!(validation.status, IntentValidation::Valid);
    assert_eq!(validation.reason, ValidationReason::WellFormed);
    assert_eq!(validation.policy_operation, Some(PolicyOperation::ObserveRuntime));
}

#[test]
fn stale_snapshot_is_refused_before_classification() {
    let proposal = intent(
        ActionOperation::Observe,
        ActionTarget::System,
        ActionParameters::Observe { include_health: false },
        2,
    );
    let validation = validate(&proposal, 3);
    assert_eq!(validation.status, IntentValidation::Invalid);
    assert_eq!(validation.reason, ValidationReason::StaleRuntimeSnapshot);
    assert_eq!(validation.policy_operation, None);
}

#[test]
fn unknown_operation_and_target_are_unknown() {
    let unknown_op = intent(
        ActionOperation::UnknownOperation(700),
        ActionTarget::System,
        ActionParameters::NoParameters,
        1,
    );
    let v = validate(&unknown_op, 1);
    assert_eq!((v.status, v.reason), (IntentValidation::Unknown, ValidationReason::UnknownOperation));
    let unknown_target = intent(
        ActionOperation::Observe,
        ActionTarget::Unknown,
        ActionParameters::NoParameters,
        1,
    );
    let v = validate(&unknown_target, 1);
    assert_eq!((v.status, v.reason), (IntentValidation::Unknown, ValidationReason::UnknownTarget));
}

#[test]
fn mismatched_and_unsupported_shapes_are_refused() {
    let mismatch = intent(
        ActionOperation::OpenApplication,
        ActionTarget::Service(target_id("networkd")),
        ActionParameters::Application { new_instance: false },
        1,
    );
    let v = validate(&mismatch, 1);
    assert_eq!(
        (v.status, v.reason),
        (IntentValidation::Invalid, ValidationReason::TargetOperationMismatch)
    );
    let unsupported = intent(
        ActionOperation::EraseDisk,
        ActionTarget::Disk(target_id("sda")),
        ActionParameters::Disk { whole_device: false },
        1,
    );
    let v = validate(&unsupported, 1);
    assert_eq!(
        (v.status, v.reason),
        (IntentValidation::Unsupported, ValidationReason::UnsupportedParameters)
    );
    assert!(target_kind_matches(
        ActionOperation::EraseDisk,
        &ActionTarget::Disk(target_id("sda"))
    ));
    let restart = intent(
        ActionOperation::RestartService,
        ActionTarget::Service(target_id("networkd")),
        ActionParameters::Service { force: false },
        1,
    );
    assert_eq!(validate(&restart, 1).policy_operation, Some(PolicyOperation::RestartService));
}
