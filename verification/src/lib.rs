//! A user-mode driver core for an NVMe storage controller, together with the
//! small pieces of VM-test plumbing that sit around it: controller bring-up,
//! per-CPU queue-pair management with fallback routing, block read/write and
//! deallocate translation, and save/restore of the driver's live state across
//! a servicing event.

pub mod backoff;
pub mod caps;
pub mod construct;
pub mod cmd;
pub mod device;
pub mod driver;
pub mod error;
pub mod hvc;
pub mod hyperv;
pub mod namespace;
pub mod powershell;
pub mod queue;
pub mod save_state;
pub mod testing;
pub mod vm_config;
