use vstd::prelude::*;

verus! {

/// Errors reported at the brain's request boundary.
#[derive(Debug, Clone, PartialEq, Eq)]
pub enum BrainError {
    InvalidRequest(&'static str),
    UnsupportedProtocolVersion { got: u16, want: u16 },
    PayloadTooLarge { size: u32, max: u32 },
    PermissionDenied(&'static str),
    Unauthorized,
    ProviderUnavailable,
    ProviderTimeout,
    ContextBuildFailed(&'static str),
    ResponseShapingFailed(&'static str),
    Internal(&'static str),
    UnsupportedRequestKind,
    TruncatedHeader,
    TruncatedBody,
    BadEncoding,
    UnknownOperation(u16),
}

pub type BrainResult<T> = Result<T, BrainError>;

} // verus!
