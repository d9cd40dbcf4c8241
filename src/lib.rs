//! Houdini: a harness that runs ordered exploit attempts ("tricks") and
//! reports, step by step, whether each escape attempt was contained.

pub mod api;
pub mod exploit_status;
pub mod libvirt;
pub mod serde_defaults;
pub mod transport;
pub mod trick;
