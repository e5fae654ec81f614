use vstd::prelude::*;

use crate::policy::PolicyOperation;
use vstd::string::StringSliceAdditionalSpecFns;

verus! {

pub const MAX_IDENTIFIER_LEN: usize = 64;
pub const MAX_FILE_PATH_LEN: usize = 160;
pub const MAX_PARAMETER_VALUE_LEN: usize = 96;
pub const DEFAULT_AUDIT_CAPACITY: usize = 32;

/// Identifies one proposed action intent.
#[derive(Debug, Clone, Copy, Hash)]
pub struct IntentId([u8; 16]);

impl IntentId {
    pub closed spec fn value(self) -> [u8; 16] {
        self.0
    }

    pub fn new(bytes: [u8; 16]) -> (id: Self)
        ensures
            id.value() == bytes,
    {
        IntentId(bytes)
    }

    pub fn bytes(self) -> (b: [u8; 16])
        ensures
            b == self.value(),
    {
        self.0
    }

    /// The identifier whose sixteen bytes are `s`.
    pub closed spec fn spec_from_bytes(s: Seq<u8>) -> IntentId {
        IntentId(choose|a: [u8; 16]| #![trigger a@] a@ == s)
    }

    /// An identifier is the one its own bytes name.
    pub proof fn lemma_from_own_bytes(id: IntentId)
        ensures
            IntentId::spec_from_bytes(id.value()@) == id,
    {
        broadcast use vstd::array::group_array_axioms;

        let c = choose|a: [u8; 16]| #![trigger a@] a@ == id.0@;
        assert(c@ == id.0@);
        assert(c =~= id.0);
    }
}

/// Compares two byte arrays of length 16.
pub fn bytes16_eq(a: &[u8; 16], b: &[u8; 16]) -> (r: bool)
    ensures
        r == (*a == *b),
{
    let mut i: usize = 0;
    while i < 16
        invariant
            0 <= i <= 16,
            forall|j: int| 0 <= j < i ==> a[j] == b[j],
        decreases 16 - i,
    {
        if a[i] != b[i] {
            return false;
        }
        i = i + 1;
    }
    proof {
        broadcast use vstd::array::group_array_axioms;

        assert(*a =~= *b);
    }
    true
}

impl PartialEq for IntentId {
    fn eq(&self, other: &Self) -> (r: bool) {
        bytes16_eq(&self.0, &other.0)
    }
}

impl Eq for IntentId {
}

impl vstd::std_specs::cmp::PartialEqSpecImpl for IntentId {
    open spec fn obeys_eq_spec() -> bool {
        true
    }

    open spec fn eq_spec(&self, other: &IntentId) -> bool {
        self.value() == other.value()
    }
}

#[derive(Debug, Clone, Copy, PartialEq, Eq, Hash, Structural)]
pub struct SessionId(pub u64);

#[derive(Debug, Clone, Copy, PartialEq, Eq, PartialOrd, Ord)]
pub struct CreationTime(pub u64);

#[derive(Debug, Clone, Copy, PartialEq, Eq, Hash, Structural)]
pub struct AuditId(pub u64);

#[derive(Debug, Clone, Copy, PartialEq, Eq, Structural)]
pub enum ActionOperation {
    Observe,
    OpenApplication,
    OpenSettingsPage,
    LaunchUtility,
    RestartService,
    StopService,
    InstallPackage,
    RemovePackage,
    ModifyFile,
    DeleteFile,
    ModifyBootConfiguration,
    EraseDisk,
    UnknownOperation(u16),
}

#[derive(Debug, Clone, Copy, PartialEq, Eq, Structural)]
pub enum RiskHint {
    Low,
    Moderate,
    High,
    Critical,
    Unknown,
}

#[derive(Debug, Clone, Copy, PartialEq, Eq, Structural)]
pub enum RequestedBy {
    User(u32),
    WiseOwlReasoning,
    SystemComponent(u16),
}

#[derive(Debug, Clone, Copy, PartialEq, Eq, Structural)]
pub enum Provenance {
    Conversation,
    ExplicitUserRequest,
    SystemRecommendation,
    Other(u16),
}

#[derive(Debug, Clone, Copy, PartialEq, Eq, Structural)]
pub enum IdentifierError {
    Empty,
    Oversized,
    Malformed,
}

/// ASCII letters and digits.
pub open spec fn is_ascii_alnum(b: u8) -> bool {
    (48 <= b <= 57) || (65 <= b <= 90) || (97 <= b <= 122)
}

/// Bytes allowed in a typed identifier: ASCII letters, digits, `.`, `_`, `-`.
pub open spec fn is_identifier_byte(b: u8) -> bool {
    is_ascii_alnum(b) || b == 46 || b == 95 || b == 45
}

/// Bytes allowed in a parameter value: identifier bytes and `+`.
pub open spec fn is_parameter_byte(b: u8) -> bool {
    is_identifier_byte(b) || b == 43
}

/// Bytes that a file path may never hold: NUL, control bytes, quotes, `|`, `&`, `;`.
pub open spec fn is_forbidden_path_byte(b: u8) -> bool {
    b < 32 || b == 39 || b == 34 || b == 96 || b == 124 || b == 38 || b == 59
}

/// `..` stands as a whole `/`-separated segment at byte index `i`.
pub open spec fn dotdot_segment_at(bytes: Seq<u8>, i: int) -> bool {
    &&& 0 <= i
    &&& i + 2 <= bytes.len()
    &&& bytes[i] == 46u8
    &&& bytes[i + 1] == 46u8
    &&& (i == 0 || bytes[i - 1] == 47u8)
    &&& (i + 2 == bytes.len() || bytes[i + 2] == 47u8)
}

/// A file path is well-formed: absolute, no forbidden byte, no `..` segment.
pub open spec fn path_is_well_formed(bytes: Seq<u8>) -> bool {
    &&& bytes.len() > 0
    &&& bytes[0] == 47u8
    &&& forall|i: int| 0 <= i < bytes.len() ==> !is_forbidden_path_byte(#[trigger] bytes[i])
    &&& forall|i: int| !dotdot_segment_at(bytes, i)
}

/// Whether a byte is allowed: identifier bytes, or parameter bytes when `parameter`.
pub open spec fn allowed_byte(b: u8, parameter: bool) -> bool {
    if parameter {
        is_parameter_byte(b)
    } else {
        is_identifier_byte(b)
    }
}

/// The outcome of bounded-identifier validation on a string.
pub open spec fn identifier_check(s: &str, max: nat, parameter: bool) -> Result<(), IdentifierError> {
    if s@.len() == 0 {
        Err(IdentifierError::Empty)
    } else if s.spec_bytes().len() > max {
        Err(IdentifierError::Oversized)
    } else if exists|i: int|
        0 <= i < s.spec_bytes().len() && !allowed_byte(#[trigger] s.spec_bytes()[i], parameter) {
        Err(IdentifierError::Malformed)
    } else {
        Ok(())
    }
}

/// The outcome of file-path validation on a string.
pub open spec fn path_check(s: &str) -> Result<(), IdentifierError> {
    if s@.len() == 0 {
        Err(IdentifierError::Empty)
    } else if s.spec_bytes().len() > MAX_FILE_PATH_LEN {
        Err(IdentifierError::Oversized)
    } else if !path_is_well_formed(s.spec_bytes()) {
        Err(IdentifierError::Malformed)
    } else {
        Ok(())
    }
}

fn byte_is_identifier(b: u8) -> (r: bool)
    ensures
        r == is_identifier_byte(b),
{
    (48 <= b && b <= 57) || (65 <= b && b <= 90) || (97 <= b && b <= 122) || b == 46 || b == 95
        || b == 45
}

fn byte_is_parameter(b: u8) -> (r: bool)
    ensures
        r == is_parameter_byte(b),
{
    byte_is_identifier(b) || b == 43
}

fn all_identifier_bytes(bytes: &[u8]) -> (r: bool)
    ensures
        r == (forall|i: int| 0 <= i < bytes@.len() ==> is_identifier_byte(#[trigger] bytes@[i])),
{
    let mut i: usize = 0;
    while i < bytes.len()
        invariant
            0 <= i <= bytes@.len(),
            forall|j: int| 0 <= j < i ==> is_identifier_byte(#[trigger] bytes@[j]),
        decreases bytes@.len() - i,
    {
        if !byte_is_identifier(bytes[i]) {
            return false;
        }
        i = i + 1;
    }
    true
}

fn all_parameter_bytes(bytes: &[u8]) -> (r: bool)
    ensures
        r == (forall|i: int| 0 <= i < bytes@.len() ==> is_parameter_byte(#[trigger] bytes@[i])),
{
    let mut i: usize = 0;
    while i < bytes.len()
        invariant
            0 <= i <= bytes@.len(),
            forall|j: int| 0 <= j < i ==> is_parameter_byte(#[trigger] bytes@[j]),
        decreases bytes@.len() - i,
    {
        if !byte_is_parameter(bytes[i]) {
            return false;
        }
        i = i + 1;
    }
    true
}

/// Validates a bounded identifier and copies it.
pub fn bounded_identifier(value: &str) -> (r: Result<String, IdentifierError>)
    ensures
        identifier_check(value, MAX_IDENTIFIER_LEN as nat, false) is Ok
            <==> r is Ok,
        r matches Err(e) ==> identifier_check(
            value,
            MAX_IDENTIFIER_LEN as nat,
            false,
        ) == Err::<(), IdentifierError>(e),
        r matches Ok(s) ==> s@ == value@,
{
    if value.is_empty() {
        return Err(IdentifierError::Empty);
    }
    let bytes = value.as_bytes();
    if bytes.len() > MAX_IDENTIFIER_LEN {
        return Err(IdentifierError::Oversized);
    }
    if !all_identifier_bytes(bytes) {
        proof {
            let i = choose|i: int| 0 <= i < bytes@.len() && !is_identifier_byte(bytes@[i]);
            assert(!allowed_byte(value.spec_bytes()[i], false));
        }
        return Err(IdentifierError::Malformed);
    }
    assert(forall|i: int| 0 <= i < value.spec_bytes().len() ==> allowed_byte(#[trigger] value.spec_bytes()[i], false));
    Ok(value.to_owned())
}

/// A bounded identifier. It permits ASCII letters, digits, `.`, `_`, and `-`,
/// but never whitespace, separators, or command syntax.
#[derive(Debug, PartialEq, Eq)]
pub struct TypedIdentifier(String);

impl Clone for TypedIdentifier {
    fn clone(&self) -> (r: Self)
        ensures
            r@ == self@,
    {
        TypedIdentifier(self.0.clone())
    }
}

impl View for TypedIdentifier {
    type V = Seq<char>;

    closed spec fn view(&self) -> Seq<char> {
        self.0@
    }
}

impl TypedIdentifier {
    pub fn new(value: &str) -> (r: Result<Self, IdentifierError>)
        ensures
            identifier_check(value, MAX_IDENTIFIER_LEN as nat, false)
                is Ok <==> r is Ok,
            r matches Err(e) ==> identifier_check(
                value,
                MAX_IDENTIFIER_LEN as nat,
                false,
            ) == Err::<(), IdentifierError>(e),
            r matches Ok(id) ==> id@ == value@,
    {
        match bounded_identifier(value) {
            Ok(s) => Ok(TypedIdentifier(s)),
            Err(e) => Err(e),
        }
    }

    pub fn as_str(&self) -> (s: &str)
        ensures
            s@ == self@,
    {
        self.0.as_str()
    }

    /// Whether two identifiers are the same text.
    pub fn same_as(&self, other: &TypedIdentifier) -> (r: bool)
        ensures
            r == (self@ == other@),
    {
        self.0 == other.0
    }
}

fn path_bytes_well_formed(bytes: &[u8]) -> (r: bool)
    ensures
        r == path_is_well_formed(bytes@),
{
    let n = bytes.len();
    if n == 0 || bytes[0] != 47u8 {
        return false;
    }
    let mut i: usize = 0;
    while i < n
        invariant
            n == bytes@.len(),
            0 <= i <= n,
            n > 0,
            bytes@[0] == 47u8,
            forall|j: int| 0 <= j < i ==> !is_forbidden_path_byte(#[trigger] bytes@[j]),
            forall|j: int| 0 <= j < i ==> !dotdot_segment_at(bytes@, j),
        decreases n - i,
    {
        let b = bytes[i];
        if b < 32 || b == 39 || b == 34 || b == 96 || b == 124 || b == 38 || b == 59 {
            return false;
        }
        if b == 46 && i + 1 < n && bytes[i + 1] == 46 && (i == 0 || bytes[i - 1] == 47) && (i
            + 2 == n || bytes[i + 2] == 47) {
            assert(dotdot_segment_at(bytes@, i as int));
            return false;
        }
        i = i + 1;
    }
    assert forall|j: int| !dotdot_segment_at(bytes@, j) by {
        if 0 <= j < n {
        }
    }
    true
}

#[derive(Debug, Clone, PartialEq, Eq)]
pub struct BoundedFilePath(String);

impl View for BoundedFilePath {
    type V = Seq<char>;

    closed spec fn view(&self) -> Seq<char> {
        self.0@
    }
}

impl BoundedFilePath {
    pub fn new(value: &str) -> (r: Result<Self, IdentifierError>)
        ensures
            path_check(value) is Ok <==> r is Ok,
            r matches Err(e) ==> path_check(value) == Err::<(), IdentifierError>(e),
            r matches Ok(p) ==> p@ == value@,
    {
        if value.is_empty() {
            return Err(IdentifierError::Empty);
        }
        let bytes = value.as_bytes();
        if bytes.len() > MAX_FILE_PATH_LEN {
            return Err(IdentifierError::Oversized);
        }
        if !path_bytes_well_formed(bytes) {
            return Err(IdentifierError::Malformed);
        }
        Ok(BoundedFilePath(value.to_owned()))
    }

    /// Intended for display only in trusted UI. Audit entries never include it.
    pub fn as_str(&self) -> (s: &str)
        ensures
            s@ == self@,
    {
        self.0.as_str()
    }
}

#[derive(Debug, Clone, PartialEq, Eq)]
pub enum ActionTarget {
    Application(TypedIdentifier),
    SettingsPage(TypedIdentifier),
    Utility(TypedIdentifier),
    Service(TypedIdentifier),
    Package(TypedIdentifier),
    File(BoundedFilePath),
    Disk(TypedIdentifier),
    System,
    Unknown,
}

#[derive(Debug, Clone, PartialEq, Eq)]
pub struct ParameterValue(String);

impl View for ParameterValue {
    type V = Seq<char>;

    closed spec fn view(&self) -> Seq<char> {
        self.0@
    }
}

impl ParameterValue {
    pub fn new(value: &str) -> (r: Result<Self, IdentifierError>)
        ensures
            identifier_check(value, MAX_PARAMETER_VALUE_LEN as nat, true)
                is Ok <==> r is Ok,
            r matches Err(e) ==> identifier_check(
                value,
                MAX_PARAMETER_VALUE_LEN as nat,
                true,
            ) == Err::<(), IdentifierError>(e),
            r matches Ok(p) ==> p@ == value@,
    {
        if value.is_empty() {
            return Err(IdentifierError::Empty);
        }
        let bytes = value.as_bytes();
        if bytes.len() > MAX_PARAMETER_VALUE_LEN {
            return Err(IdentifierError::Oversized);
        }
        if !all_parameter_bytes(bytes) {
            proof {
                let i = choose|i: int| 0 <= i < bytes@.len() && !is_parameter_byte(bytes@[i]);
                assert(!allowed_byte(value.spec_bytes()[i], true));
            }
            return Err(IdentifierError::Malformed);
        }
        assert(forall|i: int| 0 <= i < value.spec_bytes().len() ==> allowed_byte(#[trigger] value.spec_bytes()[i], true));
        Ok(ParameterValue(value.to_owned()))
    }

    pub fn as_str(&self) -> (s: &str)
        ensures
            s@ == self@,
    {
        self.0.as_str()
    }
}

/// Each variant is meaningful only for its corresponding operation. Validation
/// rejects every unsupported combination instead of discarding fields.
#[derive(Debug, Clone, PartialEq, Eq)]
pub enum ActionParameters {
    NoParameters,
    Observe { include_health: bool },
    Application { new_instance: bool },
    Settings { focus: Option<TypedIdentifier> },
    Utility { mode: Option<TypedIdentifier> },
    Service { force: bool },
    Package { version: Option<ParameterValue> },
    File { recursive: bool },
    Disk { whole_device: bool },
}

/// Immutable outside this module: all fields are private and set at creation.
#[derive(Debug, Clone, PartialEq, Eq)]
pub struct ActionIntent {
    intent_id: IntentId,
    operation: ActionOperation,
    target: ActionTarget,
    parameters: ActionParameters,
    requested_by: RequestedBy,
    session_id: SessionId,
    runtime_snapshot_generation: u64,
    creation_time: CreationTime,
    risk_hint: RiskHint,
    provenance: Provenance,
}

impl ActionIntent {
    pub closed spec fn spec_intent_id(&self) -> IntentId {
        self.intent_id
    }

    pub closed spec fn spec_operation(&self) -> ActionOperation {
        self.operation
    }

    pub closed spec fn spec_target(&self) -> ActionTarget {
        self.target
    }

    pub closed spec fn spec_parameters(&self) -> ActionParameters {
        self.parameters
    }

    pub closed spec fn spec_requested_by(&self) -> RequestedBy {
        self.requested_by
    }

    pub closed spec fn spec_session_id(&self) -> SessionId {
        self.session_id
    }

    pub closed spec fn spec_runtime_snapshot_generation(&self) -> u64 {
        self.runtime_snapshot_generation
    }

    pub closed spec fn spec_creation_time(&self) -> CreationTime {
        self.creation_time
    }

    pub closed spec fn spec_risk_hint(&self) -> RiskHint {
        self.risk_hint
    }

    pub closed spec fn spec_provenance(&self) -> Provenance {
        self.provenance
    }

    #[allow(clippy::too_many_arguments)]
    pub fn new(
        intent_id: IntentId,
        operation: ActionOperation,
        target: ActionTarget,
        parameters: ActionParameters,
        requested_by: RequestedBy,
        session_id: SessionId,
        runtime_snapshot_generation: u64,
        creation_time: CreationTime,
        risk_hint: RiskHint,
        provenance: Provenance,
    ) -> (i: Self)
        ensures
            i.spec_intent_id() == intent_id,
            i.spec_operation() == operation,
            i.spec_target() == target,
            i.spec_parameters() == parameters,
            i.spec_requested_by() == requested_by,
            i.spec_session_id() == session_id,
            i.spec_runtime_snapshot_generation() == runtime_snapshot_generation,
            i.spec_creation_time() == creation_time,
            i.spec_risk_hint() == risk_hint,
            i.spec_provenance() == provenance,
    {
        ActionIntent {
            intent_id,
            operation,
            target,
            parameters,
            requested_by,
            session_id,
            runtime_snapshot_generation,
            creation_time,
            risk_hint,
            provenance,
        }
    }

    pub fn intent_id(&self) -> (r: IntentId)
        ensures
            r == self.spec_intent_id(),
    {
        self.intent_id
    }

    pub fn operation(&self) -> (r: ActionOperation)
        ensures
            r == self.spec_operation(),
    {
        self.operation
    }

    pub fn requested_by(&self) -> (r: RequestedBy)
        ensures
            r == self.spec_requested_by(),
    {
        self.requested_by
    }

    pub fn session_id(&self) -> (r: SessionId)
        ensures
            r == self.spec_session_id(),
    {
        self.session_id
    }

    pub fn runtime_snapshot_generation(&self) -> (r: u64)
        ensures
            r == self.spec_runtime_snapshot_generation(),
    {
        self.runtime_snapshot_generation
    }

    pub fn creation_time(&self) -> (r: CreationTime)
        ensures
            r == self.spec_creation_time(),
    {
        self.creation_time
    }

    pub fn risk_hint(&self) -> (r: RiskHint)
        ensures
            r == self.spec_risk_hint(),
    {
        self.risk_hint
    }

    pub fn provenance(&self) -> (r: Provenance)
        ensures
            r == self.spec_provenance(),
    {
        self.provenance
    }

    pub fn target(&self) -> (r: &ActionTarget)
        ensures
            *r == self.spec_target(),
    {
        &self.target
    }

    pub fn parameters(&self) -> (r: &ActionParameters)
        ensures
            *r == self.spec_parameters(),
    {
        &self.parameters
    }
}

#[derive(Debug, Clone, Copy, PartialEq, Eq, Structural)]
pub enum IntentValidation {
    Valid,
    Invalid,
    Unsupported,
    Unknown,
}

#[derive(Debug, Clone, Copy, PartialEq, Eq, Structural)]
pub enum ValidationReason {
    WellFormed,
    UnknownOperation,
    UnknownTarget,
    TargetOperationMismatch,
    UnsupportedParameters,
    AmbiguousTarget,
    StaleRuntimeSnapshot,
}

#[derive(Debug, Clone, Copy, PartialEq, Eq, Structural)]
pub enum TargetKind {
    Application,
    SettingsPage,
    Utility,
    Service,
    Package,
    File,
    Disk,
    System,
    Unknown,
}

impl ActionTarget {
    pub open spec fn spec_kind(&self) -> TargetKind {
        match self {
            ActionTarget::Application(_) => TargetKind::Application,
            ActionTarget::SettingsPage(_) => TargetKind::SettingsPage,
            ActionTarget::Utility(_) => TargetKind::Utility,
            ActionTarget::Service(_) => TargetKind::Service,
            ActionTarget::Package(_) => TargetKind::Package,
            ActionTarget::File(_) => TargetKind::File,
            ActionTarget::Disk(_) => TargetKind::Disk,
            ActionTarget::System => TargetKind::System,
            ActionTarget::Unknown => TargetKind::Unknown,
        }
    }

    pub fn kind(&self) -> (k: TargetKind)
        ensures
            k == self.spec_kind(),
    {
        match self {
            ActionTarget::Application(_) => TargetKind::Application,
            ActionTarget::SettingsPage(_) => TargetKind::SettingsPage,
            ActionTarget::Utility(_) => TargetKind::Utility,
            ActionTarget::Service(_) => TargetKind::Service,
            ActionTarget::Package(_) => TargetKind::Package,
            ActionTarget::File(_) => TargetKind::File,
            ActionTarget::Disk(_) => TargetKind::Disk,
            ActionTarget::System => TargetKind::System,
            ActionTarget::Unknown => TargetKind::Unknown,
        }
    }
}

/// The target kind that an operation acts on, if it has one.
pub open spec fn operation_target_kind(op: ActionOperation) -> Option<TargetKind> {
    match op {
        ActionOperation::Observe => Some(TargetKind::System),
        ActionOperation::OpenApplication => Some(TargetKind::Application),
        ActionOperation::OpenSettingsPage => Some(TargetKind::SettingsPage),
        ActionOperation::LaunchUtility => Some(TargetKind::Utility),
        ActionOperation::RestartService => Some(TargetKind::Service),
        ActionOperation::StopService => Some(TargetKind::Service),
        ActionOperation::InstallPackage => Some(TargetKind::Package),
        ActionOperation::RemovePackage => Some(TargetKind::Package),
        ActionOperation::ModifyFile => Some(TargetKind::File),
        ActionOperation::DeleteFile => Some(TargetKind::File),
        ActionOperation::ModifyBootConfiguration => Some(TargetKind::System),
        ActionOperation::EraseDisk => Some(TargetKind::Disk),
        ActionOperation::UnknownOperation(_) => None,
    }
}

/// Whether an operation acts on the kind of the given target.
pub open spec fn spec_target_kind_matches(op: ActionOperation, target: ActionTarget) -> bool {
    operation_target_kind(op) == Some(target.spec_kind())
}

pub fn target_kind_matches(operation: ActionOperation, target: &ActionTarget) -> (r: bool)
    ensures
        r == spec_target_kind_matches(operation, *target),
{
    let kind = target.kind();
    match operation {
        ActionOperation::Observe => kind == TargetKind::System,
        ActionOperation::OpenApplication => kind == TargetKind::Application,
        ActionOperation::OpenSettingsPage => kind == TargetKind::SettingsPage,
        ActionOperation::LaunchUtility => kind == TargetKind::Utility,
        ActionOperation::RestartService => kind == TargetKind::Service,
        ActionOperation::StopService => kind == TargetKind::Service,
        ActionOperation::InstallPackage => kind == TargetKind::Package,
        ActionOperation::RemovePackage => kind == TargetKind::Package,
        ActionOperation::ModifyFile => kind == TargetKind::File,
        ActionOperation::DeleteFile => kind == TargetKind::File,
        ActionOperation::ModifyBootConfiguration => kind == TargetKind::System,
        ActionOperation::EraseDisk => kind == TargetKind::Disk,
        ActionOperation::UnknownOperation(_) => false,
    }
}

/// The policy operation of an exactly supported (operation, target, parameters) shape.
pub open spec fn supported_shape(
    op: ActionOperation,
    target: ActionTarget,
    params: ActionParameters,
) -> Option<PolicyOperation> {
    match (op, target, params) {
        (ActionOperation::Observe, ActionTarget::System, ActionParameters::Observe { .. }) => Some(
            PolicyOperation::ObserveRuntime,
        ),
        (
            ActionOperation::OpenApplication,
            ActionTarget::Application(_),
            ActionParameters::Application { .. },
        ) => Some(PolicyOperation::OpenApplication),
        (
            ActionOperation::OpenSettingsPage,
            ActionTarget::SettingsPage(_),
            ActionParameters::Settings { .. },
        ) => Some(PolicyOperation::OpenSettingsPage),
        (
            ActionOperation::LaunchUtility,
            ActionTarget::Utility(_),
            ActionParameters::Utility { .. },
        ) => Some(PolicyOperation::LaunchUtility),
        (
            ActionOperation::RestartService,
            ActionTarget::Service(_),
            ActionParameters::Service { .. },
        ) => Some(PolicyOperation::RestartService),
        (
            ActionOperation::StopService,
            ActionTarget::Service(_),
            ActionParameters::Service { .. },
        ) => Some(PolicyOperation::StopService),
        (
            ActionOperation::InstallPackage,
            ActionTarget::Package(_),
            ActionParameters::Package { .. },
        ) => Some(PolicyOperation::InstallPackage),
        (
            ActionOperation::RemovePackage,
            ActionTarget::Package(_),
            ActionParameters::Package { .. },
        ) => Some(PolicyOperation::RemovePackage),
        (ActionOperation::ModifyFile, ActionTarget::File(_), ActionParameters::File { .. }) => Some(
            PolicyOperation::ModifyFile,
        ),
        (ActionOperation::DeleteFile, ActionTarget::File(_), ActionParameters::File { .. }) => Some(
            PolicyOperation::DeleteFiles,
        ),
        (
            ActionOperation::ModifyBootConfiguration,
            ActionTarget::System,
            ActionParameters::NoParameters,
        ) => Some(PolicyOperation::ModifyBootloader),
        (
            ActionOperation::EraseDisk,
            ActionTarget::Disk(_),
            ActionParameters::Disk { whole_device: true },
        ) => Some(PolicyOperation::DiskErase),
        _ => None,
    }
}

/// The result of validating an intent against the current runtime generation.
#[derive(Debug, Clone, Copy)]
pub struct Validation {
    pub status: IntentValidation,
    pub reason: ValidationReason,
    pub policy_operation: Option<PolicyOperation>,
}

/// What validation concludes: status, reason and, when valid, the policy operation.
pub open spec fn spec_validate(intent: ActionIntent, runtime_generation: u64) -> (
    IntentValidation,
    ValidationReason,
    Option<PolicyOperation>,
) {
    let op = intent.spec_operation();
    let target = intent.spec_target();
    if op is UnknownOperation {
        (IntentValidation::Unknown, ValidationReason::UnknownOperation, None)
    } else if target is Unknown {
        (IntentValidation::Unknown, ValidationReason::UnknownTarget, None)
    } else if intent.spec_runtime_snapshot_generation() != runtime_generation {
        (IntentValidation::Invalid, ValidationReason::StaleRuntimeSnapshot, None)
    } else if supported_shape(op, target, intent.spec_parameters()) is Some {
        (
            IntentValidation::Valid,
            ValidationReason::WellFormed,
            supported_shape(op, target, intent.spec_parameters()),
        )
    } else if spec_target_kind_matches(op, target) {
        (IntentValidation::Unsupported, ValidationReason::UnsupportedParameters, None)
    } else {
        (IntentValidation::Invalid, ValidationReason::TargetOperationMismatch, None)
    }
}

pub fn invalid(status: IntentValidation, reason: ValidationReason) -> (v: Validation)
    ensures
        v.status == status,
        v.reason == reason,
        v.policy_operation is None,
{
    Validation { status, reason, policy_operation: None }
}

/// Classifies an intent; only a well-formed one yields a policy operation.
pub fn validate(intent: &ActionIntent, runtime_generation: u64) -> (v: Validation)
    ensures
        (v.status, v.reason, v.policy_operation) == spec_validate(*intent, runtime_generation),
{
    if let ActionOperation::UnknownOperation(_) = intent.operation {
        return invalid(IntentValidation::Unknown, ValidationReason::UnknownOperation);
    }
    if let ActionTarget::Unknown = intent.target {
        return invalid(IntentValidation::Unknown, ValidationReason::UnknownTarget);
    }
    if intent.runtime_snapshot_generation != runtime_generation {
        return invalid(IntentValidation::Invalid, ValidationReason::StaleRuntimeSnapshot);
    }
    let operation = match (&intent.operation, &intent.target, &intent.parameters) {
        (ActionOperation::Observe, ActionTarget::System, ActionParameters::Observe { .. }) => {
            PolicyOperation::ObserveRuntime
        },
        (
            ActionOperation::OpenApplication,
            ActionTarget::Application(_),
            ActionParameters::Application { .. },
        ) => PolicyOperation::OpenApplication,
        (
            ActionOperation::OpenSettingsPage,
            ActionTarget::SettingsPage(_),
            ActionParameters::Settings { .. },
        ) => PolicyOperation::OpenSettingsPage,
        (
            ActionOperation::LaunchUtility,
            ActionTarget::Utility(_),
            ActionParameters::Utility { .. },
        ) => PolicyOperation::LaunchUtility,
        (
            ActionOperation::RestartService,
            ActionTarget::Service(_),
            ActionParameters::Service { .. },
        ) => PolicyOperation::RestartService,
        (
            ActionOperation::StopService,
            ActionTarget::Service(_),
            ActionParameters::Service { .. },
        ) => PolicyOperation::StopService,
        (
            ActionOperation::InstallPackage,
            ActionTarget::Package(_),
            ActionParameters::Package { .. },
        ) => PolicyOperation::InstallPackage,
        (
            ActionOperation::RemovePackage,
            ActionTarget::Package(_),
            ActionParameters::Package { .. },
        ) => PolicyOperation::RemovePackage,
        (ActionOperation::ModifyFile, ActionTarget::File(_), ActionParameters::File { .. }) => {
            PolicyOperation::ModifyFile
        },
        (ActionOperation::DeleteFile, ActionTarget::File(_), ActionParameters::File { .. }) => {
            PolicyOperation::DeleteFiles
        },
        (
            ActionOperation::ModifyBootConfiguration,
            ActionTarget::System,
            ActionParameters::NoParameters,
        ) => PolicyOperation::ModifyBootloader,
        (
            ActionOperation::EraseDisk,
            ActionTarget::Disk(_),
            ActionParameters::Disk { whole_device: true },
        ) => PolicyOperation::DiskErase,
        (operation, target, _) => {
            if target_kind_matches(*operation, target) {
                return invalid(
                    IntentValidation::Unsupported,
                    ValidationReason::UnsupportedParameters,
                );
            }
            return invalid(IntentValidation::Invalid, ValidationReason::TargetOperationMismatch);
        },
    };
    Validation {
        status: IntentValidation::Valid,
        reason: ValidationReason::WellFormed,
        policy_operation: Some(operation),
    }
}

/// A validated intent never reaches policy unless its operation is known,
/// its target is known and its runtime generation is current.
pub proof fn lemma_valid_implies_current_and_known(intent: ActionIntent, runtime_generation: u64)
    requires
        spec_validate(intent, runtime_generation).0 == IntentValidation::Valid,
    ensures
        !(intent.spec_operation() is UnknownOperation),
        !(intent.spec_target() is Unknown),
        intent.spec_runtime_snapshot_generation() == runtime_generation,
        spec_target_kind_matches(intent.spec_operation(), intent.spec_target()),
        spec_validate(intent, runtime_generation).2 is Some,
{
}

/// The policy operation a valid intent is classified as follows from its
/// action operation alone: observing is observing the runtime, deleting a
/// file is deleting files, modifying the boot configuration is modifying the
/// bootloader, erasing a disk is a disk erase, and each other operation is
/// the policy operation of the same name.
pub proof fn lemma_policy_operation_follows_operation(intent: ActionIntent, runtime_generation: u64)
    ensures
        spec_validate(intent, runtime_generation).2 matches Some(p) ==> {
            let op = intent.spec_operation();
            &&& op == ActionOperation::Observe <==> p == PolicyOperation::ObserveRuntime
            &&& op == ActionOperation::OpenApplication <==> p == PolicyOperation::OpenApplication
            &&& op == ActionOperation::OpenSettingsPage <==> p == PolicyOperation::OpenSettingsPage
            &&& op == ActionOperation::LaunchUtility <==> p == PolicyOperation::LaunchUtility
            &&& op == ActionOperation::RestartService <==> p == PolicyOperation::RestartService
            &&& op == ActionOperation::StopService <==> p == PolicyOperation::StopService
            &&& op == ActionOperation::InstallPackage <==> p == PolicyOperation::InstallPackage
            &&& op == ActionOperation::RemovePackage <==> p == PolicyOperation::RemovePackage
            &&& op == ActionOperation::ModifyFile <==> p == PolicyOperation::ModifyFile
            &&& op == ActionOperation::DeleteFile <==> p == PolicyOperation::DeleteFiles
            &&& op == ActionOperation::ModifyBootConfiguration <==> p == PolicyOperation::ModifyBootloader
            &&& op == ActionOperation::EraseDisk <==> p == PolicyOperation::DiskErase
        },
{
}

/// A current intent is valid exactly when its operation, target and
/// parameters fit one another: observing the system with observation
/// parameters, opening an application or a settings page, launching a
/// utility, restarting or stopping a service, installing or removing a
/// package, modifying or deleting a file, each with its own target and
/// parameters, modifying the boot configuration of the system without
/// parameters, and erasing a whole disk.
pub proof fn lemma_valid_exactly_when_shape_fits(intent: ActionIntent, runtime_generation: u64)
    requires
        intent.spec_runtime_snapshot_generation() == runtime_generation,
    ensures
        ({
            let op = intent.spec_operation();
            let t = intent.spec_target();
            let p = intent.spec_parameters();
            let fits = {
                ||| op == ActionOperation::Observe && t is System && p is Observe
                ||| op == ActionOperation::OpenApplication && t is Application && p is Application
                ||| op == ActionOperation::OpenSettingsPage && t is SettingsPage && p is Settings
                ||| op == ActionOperation::LaunchUtility && t is Utility && p is Utility
                ||| op == ActionOperation::RestartService && t is Service && p is Service
                ||| op == ActionOperation::StopService && t is Service && p is Service
                ||| op == ActionOperation::InstallPackage && t is Package && p is Package
                ||| op == ActionOperation::RemovePackage && t is Package && p is Package
                ||| op == ActionOperation::ModifyFile && t is File && p is File
                ||| op == ActionOperation::DeleteFile && t is File && p is File
                ||| op == ActionOperation::ModifyBootConfiguration && t is System && p is NoParameters
                ||| op == ActionOperation::EraseDisk && t is Disk && p == ActionParameters::Disk { whole_device: true }
            };
            (spec_validate(intent, runtime_generation).0 == IntentValidation::Valid) <==> fits
        }),
{
}

/// Two valid intents with different action operations are never classified
/// as the same policy operation, and two with the same operation always are.
pub proof fn lemma_policy_operation_one_to_one(a: ActionIntent, b: ActionIntent, ga: u64, gb: u64)
    requires
        spec_validate(a, ga).2 is Some,
        spec_validate(b, gb).2 is Some,
    ensures
        (spec_validate(a, ga).2 == spec_validate(b, gb).2) <==> (a.spec_operation() == b.spec_operation()),
{
    lemma_policy_operation_follows_operation(a, ga);
    lemma_policy_operation_follows_operation(b, gb);
}

} // verus!

verus! {

/// Intent identifiers are equal exactly when their bytes are.
pub proof fn lemma_intent_id_eq(a: IntentId, b: IntentId)
    ensures
        (a == b) <==> (a.value() == b.value()),
{
}

} // verus!
