//! Moderation sanctions: role-hierarchy authorization, the pending-sanction
//! store that bridges a command and its reason form, and the sanction
//! workflow that ties them together.
pub mod context;
pub mod dispatch;
pub mod key;
pub mod permission;
pub mod policy;
pub mod resolver;
pub mod sanction;
pub mod state;
pub mod store;
pub mod workflow;
