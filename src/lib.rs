//! Focus tracking and restoration for a hotkey-driven snippet picker.
//!
//! Before the picker's own window takes focus, the application that the user
//! was working in is recorded; after a snippet is chosen, focus is handed back
//! to it so that the typed text lands there.  Everything here works on plain
//! names: the operating-system queries themselves are made by the caller.
//!
//! - `eligibility`: which names may be recorded and which may be activated.
//! - `resolver`: the container runtime's generic name resolved to the
//!   application it hosts.
//! - `detection`: a target chosen from the reported process lists.
//! - `history`: the last two recorded applications and the restoration
//!   target among them.
//! - `controller`: the capture-then-restore cycle.
//! - `activation`: the activation request for the scripting backend.
pub mod text;
pub mod eligibility;
pub mod resolver;
pub mod detection;
pub mod history;
pub mod controller;
pub mod activation;
