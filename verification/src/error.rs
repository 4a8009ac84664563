//! Error types surfaced by the driver.

use vstd::prelude::*;

verus! {

/// Why an I/O or admin operation failed.
#[derive(Debug, Clone, PartialEq, Eq, Structural)]
pub enum NvmeError {
    /// The controller capabilities make it unusable (zero usable queue depth).
    Capability,
    /// Allocating a ring, doorbell or interrupt vector for a queue failed.
    QueueCreation,
    /// No completion was observed within the polling bound.
    CommandTimeout,
    /// The controller reported a command failure; carries the raw status field.
    NvmeStatus(u16),
    /// The memory region cannot be described as a physical-region list.
    DmaMapping,
    /// The driver observed an internal inconsistency and is faulted.
    Faulted,
    /// The identify data describes a namespace this driver cannot drive.
    InvalidNamespace,
}

/// Why restoring a saved driver state failed.
#[derive(Debug, Clone, PartialEq, Eq, Structural)]
pub enum RestoreError {
    /// The saved state's schema version is not the one this driver writes.
    VersionMismatch,
    /// A saved queue depth exceeds the new controller's capability-derived
    /// maximum, so the queues cannot be recreated at their saved size.
    CapacityError,
    /// Reattaching to the controller failed (bring-up or queue creation).
    Nvme(NvmeError),
}

impl NvmeError {
    /// A short description of the error, for logs kept outside the library.
    pub fn describe(&self) -> (r: &'static str) {
        match self {
            NvmeError::Capability => "controller reports an unusable capability",
            NvmeError::QueueCreation => "queue pair creation failed",
            NvmeError::CommandTimeout => "command did not complete in time",
            NvmeError::NvmeStatus(_) => "controller reported a command failure",
            NvmeError::DmaMapping => "memory region cannot be mapped for dma",
            NvmeError::Faulted => "driver is faulted",
            NvmeError::InvalidNamespace => "namespace geometry is unusable",
        }
    }
}

} // verus!
