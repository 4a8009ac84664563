//! The versioned snapshot of the driver's live state taken across a
//! servicing event.
//!
//! The snapshot carries queue-pair geometry, ring locations, interrupt
//! bindings and the CPU fallback routing: what a new driver instance needs to
//! reattach to a still-running controller. It deliberately excludes the
//! discovered namespace list: namespace topology may change while the host is
//! being serviced, so it is treated as re-discoverable and never trusted from
//! a snapshot.

use vstd::prelude::*;

use crate::device::{MAX_DMA_ADDR, PAGE_SIZE};
use crate::cmd::{CQE_BYTES, SQE_BYTES};
use crate::error::RestoreError;

verus! {

/// The schema version this library writes and the only one it restores.
pub const SAVED_STATE_VERSION: u32 = 1;

/// Snapshot of one queue pair.
#[derive(Debug, Clone, PartialEq, Eq, Structural)]
pub struct SavedQueuePair {
    /// Queue index: 0 for the admin queue.
    pub qid: u16,
    /// Entries per ring.
    pub depth: u32,
    /// CPU affinity of the queue.
    pub cpu: u32,
    /// Bound MSI-X vector, if any.
    pub interrupt_vector: Option<u32>,
    /// DMA base address of the submission ring.
    pub sq_base: u64,
    /// DMA base address of the completion ring.
    pub cq_base: u64,
    /// Producer index into the submission ring.
    pub sq_tail: u32,
    /// Consumer index into the completion ring.
    pub cq_head: u32,
    /// Phase bit expected of the next new completion entry.
    pub phase: bool,
}

/// How one CPU's I/O is routed.
#[derive(Debug, Clone, Copy, PartialEq, Eq, Structural)]
pub enum CpuRoute {
    /// No I/O has been issued from this CPU; no queue is assigned yet.
    Unassigned,
    /// The CPU owns the dedicated I/O queue at this index.
    Dedicated(u16),
    /// The CPU shares the I/O queue at this index because a dedicated one
    /// could not be created; it is counted once in the fallback statistics.
    Shared(u16),
}

/// Placeholder for per-namespace data. The driver never writes entries:
/// namespaces are re-discovered after a service event rather than trusted
/// from a snapshot that may be stale.
#[derive(Debug, Clone, Copy, PartialEq, Eq, Structural)]
pub struct SavedNamespace {
    /// Namespace id.
    pub nsid: u32,
}

/// A versioned, serializable snapshot of the driver.
#[derive(Debug, Clone, PartialEq, Eq)]
pub struct SavedState {
    /// Schema version; restoring any other version fails hard.
    pub version: u32,
    /// Whether the controller was left enabled (keep-alive) at save time.
    pub controller_enabled: bool,
    /// The admin queue pair.
    pub admin: SavedQueuePair,
    /// Every I/O queue pair, in queue-index order.
    pub io_queues: Vec<SavedQueuePair>,
    /// Per-CPU routing, indexed by CPU.
    pub routing: Vec<CpuRoute>,
    /// CPUs counted as fallback, in the order they entered fallback.
    pub fallback_cpus: Vec<u32>,
    /// Always empty; see the module documentation.
    pub namespaces: Vec<SavedNamespace>,
}

/// Whether one saved queue pair can be recreated against a controller whose
/// capability-derived maximum queue depth is `max_entries`, with ring
/// addresses a well-formed queue pair can hold.
pub open spec fn spec_queue_restorable(q: SavedQueuePair, max_entries: u32) -> bool {
    &&& 2 <= q.depth <= max_entries
    &&& q.sq_base % PAGE_SIZE == 0
    &&& q.cq_base % PAGE_SIZE == 0
    &&& q.sq_base + q.depth * SQE_BYTES < MAX_DMA_ADDR
    &&& q.cq_base + q.depth * CQE_BYTES < MAX_DMA_ADDR
    &&& q.sq_tail < q.depth
    &&& q.cq_head < q.depth
}

/// Whether every queue of the snapshot fits under `max_entries`. The admin
/// queue must additionally fit the twelve-bit ring-size fields of the admin
/// queue attributes register: at most 4096 entries.
pub open spec fn spec_capacity_ok(s: SavedState, max_entries: u32) -> bool {
    &&& spec_queue_restorable(s.admin, max_entries)
    &&& s.admin.depth <= 0x1000
    &&& forall|i: int|
        0 <= i < s.io_queues@.len() ==> spec_queue_restorable(#[trigger] s.io_queues@[i], max_entries)
}

impl SavedQueuePair {
    /// Checks that this queue can be recreated under `max_entries`.
    pub fn restorable(&self, max_entries: u32) -> (r: bool)
        ensures
            r == spec_queue_restorable(*self, max_entries),
    {
        2 <= self.depth && self.depth <= max_entries && self.sq_base % PAGE_SIZE == 0
            && self.cq_base % PAGE_SIZE == 0 && self.sq_base < MAX_DMA_ADDR - (self.depth as u64)
            * SQE_BYTES && self.cq_base < MAX_DMA_ADDR - (self.depth as u64) * CQE_BYTES
            && self.sq_tail < self.depth && self.cq_head < self.depth
    }
}

impl SavedState {
    /// Validates a snapshot against the new controller's capability-derived
    /// maximum queue depth.
    ///
    /// A version mismatch is a hard failure, not a best-effort partial
    /// restore. A saved queue depth larger than what the new controller
    /// supports fails with the distinct capacity error rather than silently
    /// recreating an under-sized queue.
    pub fn validate(&self, max_entries: u32) -> (r: Result<(), RestoreError>)
        ensures
            r is Ok <==> (self.version == SAVED_STATE_VERSION && spec_capacity_ok(
                *self,
                max_entries,
            )),
            r is Err ==> r->Err_0 == (if self.version != SAVED_STATE_VERSION {
                RestoreError::VersionMismatch
            } else {
                RestoreError::CapacityError
            }),
    {
        if self.version != SAVED_STATE_VERSION {
            return Err(RestoreError::VersionMismatch);
        }
        if !self.admin.restorable(max_entries) || self.admin.depth > 0x1000 {
            return Err(RestoreError::CapacityError);
        }
        let mut i: usize = 0;
        while i < self.io_queues.len()
            invariant
                self.version == SAVED_STATE_VERSION,
                i <= self.io_queues@.len(),
                forall|j: int|
                    0 <= j < i ==> spec_queue_restorable(#[trigger] self.io_queues@[j], max_entries),
            decreases self.io_queues@.len() - i,
        {
            if !self.io_queues[i].restorable(max_entries) {
                return Err(RestoreError::CapacityError);
            }
            i = i + 1;
        }
        Ok(())
    }
}

} // verus!
