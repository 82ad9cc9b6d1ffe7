//! Deployment orchestration engine for an interactive VPN-setup wizard.
//!
//! The library models the wizard's finite-state machine, the provisioning
//! pipeline that drives a cloud provider's API, the bounded polling logic
//! that waits for a new instance to become ready, the bootstrap-script
//! builder, and the ordered progress queue that carries pipeline events to
//! the interactive loop.  All sequencing, timing and failure handling is
//! verified; network transport and terminal handling live outside the
//! library and interact with it through plain values.

pub mod models;
pub mod orchestrator;
pub mod poll;
pub mod progress;
pub mod script;
pub mod text;
pub mod wizard;
