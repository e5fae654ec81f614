use vstd::prelude::*;

verus! {

/// Version of the policy rule set that made a decision.
#[derive(Debug, Clone, Copy, PartialEq, Eq, PartialOrd, Ord, Hash, Structural)]
pub struct PolicyVersion {
    pub major: u16,
    pub minor: u16,
}

impl PolicyVersion {
    pub fn new(major: u16, minor: u16) -> (v: Self)
        ensures
            v.major == major,
            v.minor == minor,
    {
        PolicyVersion { major, minor }
    }
}

/// Outcome of evaluating a validated intent against policy.
#[derive(Debug, Clone, Copy, PartialEq, Eq, Structural)]
pub enum PolicyResult {
    Allowed,
    ConfirmationRequired,
    Denied,
    Unknown,
}

/// Strength of the confirmation that policy asks for.
#[derive(Debug, Clone, Copy, PartialEq, Eq, Structural)]
pub enum ConfirmationLevel {
    NoConfirmation,
    Soft,
    Strong,
    Critical,
}

/// The policy operation that a well-formed intent is classified as.
#[derive(Debug, Clone, Copy, PartialEq, Eq, Structural)]
pub enum PolicyOperation {
    ObserveRuntime,
    OpenApplication,
    OpenSettingsPage,
    LaunchUtility,
    RestartService,
    StopService,
    InstallPackage,
    RemovePackage,
    ModifyFile,
    DeleteFiles,
    ModifyBootloader,
    DiskErase,
}

} // verus!
