//! The live state of the machine that a request is answered in.
use vstd::prelude::*;

verus! {

/// Operating system and hardware facts.
#[derive(Debug, Clone, PartialEq, Eq, Default)]
pub struct RuntimeSystemInfo {
    pub os_version: Option<String>,
    pub build: Option<String>,
    pub architecture: Option<String>,
    pub locale: Option<String>,
    pub uptime_secs: Option<u64>,
    pub hostname: Option<String>,
    pub cpu_count: Option<u32>,
    pub ram_mib: Option<u32>,
}

/// The machine's time zone.
#[derive(Debug, Clone, PartialEq, Eq, Default)]
pub struct RuntimeTimezoneInfo {
    pub identifier: Option<String>,
}

/// The current session and the mode the machine booted in.
#[derive(Debug, Clone, PartialEq, Eq, Default)]
pub struct RuntimeSessionInfo {
    pub current_user: Option<String>,
    pub boot_mode: Option<String>,
    pub desktop_mode: Option<bool>,
    pub installer_mode: Option<bool>,
    pub recovery_mode: Option<bool>,
    pub state: Option<String>,
}

/// Network reachability.
#[derive(Debug, Clone, PartialEq, Eq, Default)]
pub struct RuntimeNetworkInfo {
    pub available: Option<bool>,
    pub connected: Option<bool>,
    pub interface_count: Option<u32>,
}

/// The primary display.
#[derive(Debug, Clone, PartialEq, Eq, Default)]
pub struct RuntimeDisplayInfo {
    pub width_px: Option<u32>,
    pub height_px: Option<u32>,
    pub scale_percent: Option<u32>,
}

/// The status label of each system service that was asked, or nothing.
#[derive(Debug, Clone, PartialEq, Eq, Default)]
pub struct RuntimeServices {
    pub sunlightd: Option<String>,
    pub sessiond: Option<String>,
    pub networkd: Option<String>,
    pub resolved: Option<String>,
    pub timezone_service: Option<String>,
    pub timed: Option<String>,
    pub powerd: Option<String>,
    pub thermald: Option<String>,
    pub display: Option<String>,
}

/// One snapshot of the machine's live state; `generation` grows with each
/// new snapshot.
#[derive(Debug, Clone, PartialEq, Eq, Default)]
pub struct RuntimeContextSnapshot {
    pub available: bool,
    pub generation: u64,
    pub system: RuntimeSystemInfo,
    pub timezone: RuntimeTimezoneInfo,
    pub session: RuntimeSessionInfo,
    pub network: RuntimeNetworkInfo,
    pub display: RuntimeDisplayInfo,
    pub services: RuntimeServices,
}

} // verus!
