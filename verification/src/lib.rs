pub mod action_intent;
pub mod caps;
pub mod error;
pub mod outcome;
pub mod planner;
pub mod policy;
pub mod grounded;
pub mod diagnostics;
pub mod identity_binding;
pub mod confirmation;
pub mod coordinator;
pub mod executor;
pub mod digest;
pub mod action_receipt;
pub mod foundation;
pub mod context;
pub mod gui_bridge;
pub mod delegated_session_lifecycle;
pub mod runtime_context;
pub mod adapters;
pub mod receipt_gate;
