//! The controller driver: bring-up state machine, admin queue, per-CPU I/O
//! queue pairs with fallback routing, namespace discovery, and the I/O path.
//!
//! Bring-up reads the capability register, rejects unusable hardware, builds
//! the admin queue pair, enables the controller while polling the ready bit
//! under a bounded backoff, and provisions the first I/O queue. Further I/O
//! queues are created on demand, one per CPU; a CPU whose dedicated queue
//! cannot be created (for example, vector exhaustion) is recorded once in the
//! fallback routing table and shares queue 0 — a degrade-gracefully policy,
//! not an error.

use vstd::prelude::*;

use crate::backoff::Backoff;
use crate::caps::ControllerCaps;
use crate::cmd::{Command, Completion};
use crate::device::{DeviceBacking, DeviceRegisterIo, DmaClient};
use crate::error::NvmeError;
use crate::namespace::{parse_identify_namespace, Namespace};
use crate::queue::{cq_ring_pages, sq_ring_pages, QueuePair, SubmitOutcome};
use crate::error::RestoreError;
use crate::save_state::{spec_capacity_ok, CpuRoute, SavedQueuePair, SavedState, SAVED_STATE_VERSION};

verus! {

/// Controller capabilities register offset.
pub const REG_CAP: u64 = 0x0;

/// Controller configuration register offset.
pub const REG_CC: u64 = 0x14;

/// Controller status register offset.
pub const REG_CSTS: u64 = 0x1c;

/// Admin queue attributes register offset.
pub const REG_AQA: u64 = 0x24;

/// Admin submission queue base register offset.
pub const REG_ASQ: u64 = 0x28;

/// Admin completion queue base register offset.
pub const REG_ACQ: u64 = 0x30;

/// First doorbell register offset.
pub const DOORBELL_BASE: u64 = 0x1000;

/// Controller configuration value that enables the controller: enable bit,
/// 64-byte submission entries (2^6), 16-byte completion entries (2^4).
pub const CC_ENABLE: u32 = 1 | (6 << 16) | (4 << 20);

/// Most entries the driver gives the admin queue.
pub const ADMIN_QUEUE_DEPTH_MAX: u32 = 32;

/// Most entries the driver gives an I/O queue.
pub const IO_QUEUE_DEPTH_MAX: u32 = 64;

/// Polls granted while waiting for the controller-ready bit before the
/// CAP-advertised timeout is added on; covers the backoff ramp-up.
pub const READY_WAIT_ATTEMPTS_BASE: u64 = 200;

/// Ready-bit polls granted per 500 ms unit of the CAP timeout field. Once
/// the backoff has ramped up, each poll waits the 100 ms cap, so ten polls
/// cover one unit twice over.
pub const READY_WAIT_ATTEMPTS_PER_UNIT: u64 = 10;

/// Polls allowed while waiting for a command's completion. This bound stands
/// in for a caller-provided cancellation bound: a command still unanswered
/// when it runs out is surfaced as a timeout, never retried.
pub const COMPLETION_WAIT_ATTEMPTS: u64 = 4096;

/// The poll budget for a ready-bit wait against a controller advertising
/// `timeout_500ms`: enough backed-off polls to outlast the worst-case ready
/// time the controller itself declares, so no controller is rejected merely
/// for being slow within its advertised bound.
pub fn ready_wait_attempts(timeout_500ms: u8) -> (r: u64)
    ensures
        r == READY_WAIT_ATTEMPTS_BASE + READY_WAIT_ATTEMPTS_PER_UNIT * (timeout_500ms + 1),
        r >= READY_WAIT_ATTEMPTS_BASE,
{
    READY_WAIT_ATTEMPTS_BASE + READY_WAIT_ATTEMPTS_PER_UNIT * (timeout_500ms as u64 + 1)
}

/// The driver's bring-up/shutdown state machine.
#[derive(Debug, Clone, Copy, PartialEq, Eq, Structural)]
pub enum DriverState {
    /// Nothing touched yet.
    Uninitialized,
    /// CAP has been read and found usable.
    CapabilitiesRead,
    /// The admin queue pair exists and its doorbells are registered.
    AdminQueueCreated,
    /// The enable bit is set; waiting for ready.
    ControllerEnabling,
    /// The controller reports ready.
    ControllerReady,
    /// At least one I/O queue pair exists.
    IoQueuesProvisioned,
    /// Steady state; I/O is accepted.
    Operational,
    /// An internal-consistency fault was observed; no further operation is
    /// safe.
    Faulted,
    /// Teardown has begun.
    ShuttingDown,
    /// Teardown finished.
    Stopped,
}

/// The smaller of two values.
pub fn min_u32(a: u32, b: u32) -> (r: u32)
    ensures
        r == if a < b {
            a
        } else {
            b
        },
{
    if a < b {
        a
    } else {
        b
    }
}

/// Doorbell register offsets of queue `qid`: the submission-tail doorbell and
/// the completion-head doorbell, at the configured stride.
pub fn doorbell_offsets(qid: u16, stride: u32) -> (r: (u64, u64))
    requires
        4 <= stride <= 0x40000,
    ensures
        r.0 == DOORBELL_BASE + (2 * qid as u64) * stride as u64,
        r.1 == DOORBELL_BASE + (2 * qid as u64 + 1) * stride as u64,
{
    let q = qid as u64;
    let s = stride as u64;
    proof {
        assert((2 * q + 1) * s <= 0x1ffff * 0x40000 && (2 * q) * s <= (2 * q + 1) * s)
            by (nonlinear_arith)
            requires
                q <= 0xffff,
                0 < s <= 0x40000,
        ;
    }
    (DOORBELL_BASE + (2 * q) * s, DOORBELL_BASE + (2 * q + 1) * s)
}

/// A user-mode NVMe controller driver bound to one device backing.
pub struct NvmeDriver<D: DeviceBacking> {
    /// The device this driver drives.
    pub device: D,
    /// Mapped BAR 0 registers.
    pub regs: D::Registers,
    /// DMA allocator client.
    pub mem: D::Dma,
    /// Decoded controller capabilities.
    pub caps: ControllerCaps,
    /// Doorbell stride in bytes.
    pub db_stride: u32,
    /// Where the driver stands in its lifecycle.
    pub state: DriverState,
    /// The admin queue pair.
    pub admin: QueuePair,
    /// I/O queue pairs; queue `i` has queue id `i + 1`.
    pub io_queues: Vec<QueuePair>,
    /// Depth given to newly created I/O queues.
    pub io_depth: u32,
    /// Number of CPUs I/O may be issued from.
    pub cpu_count: u32,
    /// Per-CPU routing, indexed by CPU.
    pub routing: Vec<CpuRoute>,
    /// CPUs that entered fallback, in order, each recorded exactly once.
    pub fallback_cpus: Vec<u32>,
    /// Monotonic count of CPUs currently in fallback; equals the length of
    /// `fallback_cpus`. Scoped to this driver instance, not process-global.
    pub fallback_count: u64,
    /// Namespaces discovered so far.
    pub namespaces: Vec<Namespace>,
}

/// A sequence of distinct values below `bound` has at most `bound` elements:
/// the counting argument behind the fallback counter never overflowing.
proof fn lemma_distinct_u32_bounded(s: Seq<u32>, bound: int)
    requires
        s.no_duplicates(),
        forall|i: int| 0 <= i < s.len() ==> (#[trigger] s[i]) < bound,
        0 <= bound,
    ensures
        s.len() <= bound,
{
    broadcast use vstd::set::group_set_axioms;

    let to_int = |x: u32| x as int;
    let s_int = s.map_values(to_int);
    assert forall|a: int, b: int|
        0 <= a < s_int.len() && 0 <= b < s_int.len() && a != b implies s_int[a] != s_int[b] by {
        assert(s[a] != s[b]);
    }
    assert(s_int.no_duplicates());
    s_int.unique_seq_to_set();
    let range = vstd::set_lib::set_int_range(0, bound);
    vstd::set_lib::lemma_int_range(0, bound);
    assert forall|x: int| s_int.to_set().contains(x) implies range.contains(x) by {
        let j = choose|j: int| 0 <= j < s_int.len() && s_int[j] == x;
        assert(s[j] < bound);
    }
    vstd::set_lib::lemma_len_subset(s_int.to_set(), range);
}

/// The admin-queue-attributes register word for admin rings of `depth`
/// entries: the zero-based submission-ring size in bits 11:0 and the
/// zero-based completion-ring size in bits 27:16. The fields are twelve bits
/// wide, so the admin queue never exceeds 4096 entries.
pub fn aqa_word(depth: u32) -> (r: u32)
    requires
        2 <= depth <= 0x1000,
    ensures
        r == ((depth - 1) as u32 | (((depth - 1) as u32) << 16)),
{
    let half = depth - 1;
    (half | (half << 16))
}

/// The interrupt vector a restored I/O queue at index `idx` is bound to: the
/// saved binding, or the queue's default vector when none was saved.
pub open spec fn spec_restored_vector(sq: SavedQueuePair, idx: int) -> u32 {
    match sq.interrupt_vector {
        Some(v) => v,
        None => (idx + 1) as u32,
    }
}

/// Whether a route points below `n_queues`.
pub open spec fn spec_route_ok(r: CpuRoute, n_queues: int) -> bool {
    match r {
        CpuRoute::Unassigned => true,
        CpuRoute::Dedicated(i) => i < n_queues,
        CpuRoute::Shared(i) => i < n_queues,
    }
}

impl<D: DeviceBacking> NvmeDriver<D> {
    /// The route recorded for `cpu`.
    pub open spec fn spec_route(self, cpu: int) -> CpuRoute {
        self.routing@[cpu]
    }

    /// No command is outstanding or waiting anywhere: the quiescent state
    /// between operations of this synchronous driver.
    pub open spec fn spec_all_idle(self) -> bool {
        &&& self.admin.outstanding == 0
        &&& self.admin.spec_pending().len() == 0
        &&& forall|i: int|
            0 <= i < self.io_queues@.len() ==> ((#[trigger] self.io_queues@[i]).outstanding == 0
                && self.io_queues@[i].spec_pending().len() == 0)
    }

    /// Structural well-formedness, kept across every operation: queue pairs
    /// are well-formed, numbered by their index, and no deeper than the
    /// capability-derived maximum of `mqes_raw + 1` entries; routing targets
    /// exist;
    /// and the fallback accounting is exact — the counter equals the number
    /// of recorded fallback CPUs, each CPU is recorded at most once, and a
    /// CPU is recorded if and only if it is routed to a shared queue.
    pub open spec fn wf_core(self) -> bool {
        &&& self.caps.mqes_raw >= 1
        &&& self.caps.dstrd <= 0xf
        &&& 4 <= self.db_stride <= 0x40000
        &&& self.cpu_count >= 1
        &&& self.admin.wf()
        &&& self.admin.qid == 0
        &&& self.admin.depth <= self.caps.mqes_raw + 1
        &&& self.io_queues@.len() <= 0xfffe
        &&& (forall|i: int| 0 <= i < self.io_queues@.len() ==> (#[trigger] self.io_queues@[i]).wf())
        &&& (forall|i: int|
            0 <= i < self.io_queues@.len() ==> (#[trigger] self.io_queues@[i]).qid == i + 1)
        &&& (forall|i: int|
            0 <= i < self.io_queues@.len() ==> (#[trigger] self.io_queues@[i]).depth
                <= self.caps.mqes_raw + 1)
        &&& self.routing@.len() == self.cpu_count
        &&& (forall|c: int|
            0 <= c < self.routing@.len() ==> spec_route_ok(
                #[trigger] self.routing@[c],
                self.io_queues@.len() as int,
            ))
        &&& self.fallback_count == self.fallback_cpus@.len()
        &&& self.fallback_cpus@.no_duplicates()
        &&& (forall|i: int|
            0 <= i < self.fallback_cpus@.len() ==> (#[trigger] self.fallback_cpus@[i])
                < self.cpu_count && self.routing@[self.fallback_cpus@[i] as int] is Shared)
        &&& (forall|c: int|
            0 <= c < self.routing@.len() && (#[trigger] self.routing@[c]) is Shared
                ==> self.fallback_cpus@.contains(c as u32))
        &&& 2 <= self.io_depth <= self.caps.mqes_raw + 1
        &&& (self.state is Operational ==> self.io_queues@.len() >= 1)
    }

    /// Full well-formedness: in the operational state everything is also
    /// quiescent.
    pub open spec fn wf(self) -> bool {
        &&& self.wf_core()
        &&& (self.state is Operational ==> self.spec_all_idle())
    }

    /// The number of CPUs currently routed to a shared (fallback) queue.
    pub fn fallback_cpu_count(&self) -> (r: u64)
        ensures
            r == self.fallback_count,
    {
        self.fallback_count
    }

    /// Polls the controller-status ready bit until it equals `want_ready`,
    /// backing off between polls; gives up after the attempt budget.
    fn wait_ready(
        device: &mut D,
        regs: &mut D::Registers,
        want_ready: bool,
        attempts: u64,
    ) -> (r: Result<(), NvmeError>)
        ensures
            r is Err ==> r->Err_0 == NvmeError::CommandTimeout,
    {
        let mut backoff = Backoff::new(attempts);
        loop
            invariant
                backoff.max_attempts == attempts,
                backoff.attempts <= attempts,
            decreases attempts - backoff.attempts,
        {
            let csts = regs.read_u32(REG_CSTS);
            if (csts & 1 == 1) == want_ready {
                return Ok(());
            }
            if backoff.is_exhausted() {
                return Err(NvmeError::CommandTimeout);
            }
            let delay = backoff.back_off();
            device.pause_us(delay);
        }
    }

    /// Issues one admin command and polls the admin completion ring until its
    /// completion arrives. Any status is returned to the caller; a timeout or
    /// an inconsistent completion leaves the admin queue non-quiescent and
    /// the driver must be treated as faulted.
    fn run_admin(
        device: &mut D,
        mem: &mut D::Dma,
        regs: &mut D::Registers,
        admin: &mut QueuePair,
        cmd: Command,
    ) -> (r: Result<Completion, NvmeError>)
        requires
            old(admin).wf(),
            old(admin).outstanding == 0,
            old(admin).spec_pending().len() == 0,
        ensures
            final(admin).wf(),
            final(admin).same_config(*old(admin)),
            final(admin).spec_pending().len() == 0,
            r is Ok ==> final(admin).outstanding == 0,
            r is Err ==> (r->Err_0 == NvmeError::CommandTimeout || r->Err_0
                == NvmeError::Faulted),
    {
        proof {
            assert(old(admin).spec_can_issue());
        }
        let outcome = admin.submit(mem, regs, cmd);
        let cid = match outcome {
            SubmitOutcome::Issued(cid) => cid,
            SubmitOutcome::Enqueued => {
                // Unreachable: a quiescent queue always has a free id.
                proof {
                    assert(false);
                }
                return Err(NvmeError::Faulted);
            },
        };
        let mut backoff = Backoff::new(COMPLETION_WAIT_ATTEMPTS);
        loop
            invariant
                admin.wf(),
                admin.same_config(*old(admin)),
                admin.outstanding == 1,
                admin.spec_pending().len() == 0,
                backoff.max_attempts == COMPLETION_WAIT_ATTEMPTS,
                backoff.attempts <= backoff.max_attempts,
            decreases backoff.max_attempts - backoff.attempts,
        {
            let reap = match admin.process_completions(mem, regs) {
                Ok(reap) => reap,
                Err(e) => {
                    return Err(NvmeError::Faulted);
                },
            };
            if reap.completed.len() > 0 {
                if reap.completed.len() != 1 {
                    return Err(NvmeError::Faulted);
                }
                let c = reap.completed[0];
                if c.cid != cid {
                    return Err(NvmeError::Faulted);
                }
                return Ok(c);
            }
            if backoff.is_exhausted() {
                return Err(NvmeError::CommandTimeout);
            }
            let delay = backoff.back_off();
            device.pause_us(delay);
        }
    }

    /// Creates one I/O queue pair: binds an interrupt vector, allocates and
    /// registers the rings through admin create-queue commands. Failure with
    /// the queue-creation error leaves the admin queue quiescent, so the
    /// caller may degrade to fallback routing; any other error means the
    /// admin queue itself can no longer be trusted.
    fn create_io_queue(
        device: &mut D,
        mem: &mut D::Dma,
        regs: &mut D::Registers,
        admin: &mut QueuePair,
        stride: u32,
        qid: u16,
        depth: u32,
        cpu: u32,
    ) -> (r: Result<QueuePair, NvmeError>)
        requires
            old(admin).wf(),
            old(admin).outstanding == 0,
            old(admin).spec_pending().len() == 0,
            2 <= depth <= 0x10000,
            qid >= 1,
            4 <= stride <= 0x40000,
        ensures
            final(admin).wf(),
            final(admin).same_config(*old(admin)),
            final(admin).spec_pending().len() == 0,
            r is Ok ==> {
                let qp = r->Ok_0;
                &&& final(admin).outstanding == 0
                &&& qp.wf()
                &&& qp.qid == qid
                &&& qp.depth == depth
                &&& qp.cpu == cpu
                &&& qp.outstanding == 0
                &&& qp.spec_pending().len() == 0
            },
            r is Err ==> (r->Err_0 == NvmeError::QueueCreation || r->Err_0
                == NvmeError::CommandTimeout || r->Err_0 == NvmeError::Faulted),
            r is Err && r->Err_0 == NvmeError::QueueCreation ==> final(admin).outstanding == 0,
    {
        // Vector 0 is shared with the admin queue; I/O queue `qid` uses
        // vector `qid - 1`, so creation fails once the vectors run out.
        let vector = qid as u32 - 1;
        if vector >= device.max_interrupt_count() {
            return Err(NvmeError::QueueCreation);
        }
        if !device.map_interrupt(vector, cpu) {
            return Err(NvmeError::QueueCreation);
        }
        let dbs = doorbell_offsets(qid, stride);
        let qp = match QueuePair::new(mem, qid, depth, cpu, Some(vector), dbs.0, dbs.1) {
            Ok(qp) => qp,
            Err(e) => {
                return Err(NvmeError::QueueCreation);
            },
        };
        let vector16 = (vector % 0x10000) as u16;
        let ccq = Command::create_io_cq(qid, depth, qp.cq_base, vector16);
        let c = match Self::run_admin(device, mem, regs, admin, ccq) {
            Ok(c) => c,
            Err(e) => {
                return Err(e);
            },
        };
        if c.status != 0 {
            return Err(NvmeError::QueueCreation);
        }
        let csq = Command::create_io_sq(qid, depth, qp.sq_base, qid);
        let c = match Self::run_admin(device, mem, regs, admin, csq) {
            Ok(c) => c,
            Err(e) => {
                return Err(e);
            },
        };
        if c.status != 0 {
            return Err(NvmeError::QueueCreation);
        }
        Ok(qp)
    }

    /// Brings up a controller: reads and checks capabilities, builds the
    /// admin queue, enables the controller under a bounded ready-wait, and
    /// provisions the first I/O queue. A controller whose capabilities leave
    /// no usable queue depth (`mqes_raw == 0`) is rejected with the
    /// capability error: the driver never creates a zero-depth queue.
    /// Construction-time failures abort bring-up entirely; there is no
    /// partial "operational with some queues missing" state.
    pub fn new(device: D, cpu_count: u32) -> (r: Result<NvmeDriver<D>, NvmeError>)
        requires
            cpu_count >= 1,
        ensures
            r is Ok ==> {
                let d = r->Ok_0;
                &&& d.wf()
                &&& d.state is Operational
                &&& d.caps.mqes_raw >= 1
                &&& d.cpu_count == cpu_count
                &&& d.fallback_count == 0
                &&& d.namespaces@.len() == 0
            },
    {
        let mut device = device;
        let mut state = DriverState::Uninitialized;
        let mut regs = match device.map_bar(0) {
            Some(r) => r,
            None => {
                return Err(NvmeError::QueueCreation);
            },
        };
        let mut mem = device.dma_client();

        let cap = regs.read_u64(REG_CAP);
        let caps = ControllerCaps::decode(cap);
        state = DriverState::CapabilitiesRead;
        match caps.check_usable() {
            Ok(()) => (),
            Err(e) => {
                // Zero usable queue entries: unusable hardware, never queued
                // against.
                return Err(e);
            },
        }
        let max_entries = caps.max_queue_entries();
        let admin_depth = min_u32(ADMIN_QUEUE_DEPTH_MAX, max_entries);
        let io_depth = min_u32(IO_QUEUE_DEPTH_MAX, max_entries);
        let stride = caps.doorbell_stride_bytes();

        if device.max_interrupt_count() == 0 {
            return Err(NvmeError::QueueCreation);
        }
        if !device.map_interrupt(0, 0) {
            return Err(NvmeError::QueueCreation);
        }
        let dbs = doorbell_offsets(0, stride);
        let mut admin = match QueuePair::new(&mut mem, 0, admin_depth, 0, Some(0), dbs.0, dbs.1) {
            Ok(qp) => qp,
            Err(e) => {
                return Err(e);
            },
        };
        state = DriverState::AdminQueueCreated;

        // A controller left enabled is disabled first so the admin queue
        // registers may be programmed.
        let csts = regs.read_u32(REG_CSTS);
        if csts & 1 == 1 {
            regs.write_u32(REG_CC, 0);
            match Self::wait_ready(
                &mut device,
                &mut regs,
                false,
                ready_wait_attempts(caps.timeout_500ms),
            ) {
                Ok(()) => (),
                Err(e) => {
                    return Err(e);
                },
            }
        }
        regs.write_u32(REG_AQA, aqa_word(admin_depth));
        regs.write_u64(REG_ASQ, admin.sq_base);
        regs.write_u64(REG_ACQ, admin.cq_base);

        state = DriverState::ControllerEnabling;
        regs.write_u32(REG_CC, CC_ENABLE);
        // Failure to observe ready within the bounded wait is fatal to
        // construction, not a silent retry-forever loop.
        match Self::wait_ready(
            &mut device,
            &mut regs,
            true,
            ready_wait_attempts(caps.timeout_500ms),
        ) {
            Ok(()) => (),
            Err(e) => {
                return Err(e);
            },
        }
        state = DriverState::ControllerReady;

        let qp = match Self::create_io_queue(
            &mut device,
            &mut mem,
            &mut regs,
            &mut admin,
            stride,
            1,
            io_depth,
            0,
        ) {
            Ok(qp) => qp,
            Err(e) => {
                return Err(e);
            },
        };
        let mut io_queues: Vec<QueuePair> = Vec::new();
        io_queues.push(qp);
        state = DriverState::IoQueuesProvisioned;

        let mut routing: Vec<CpuRoute> = Vec::new();
        let mut c: u32 = 0;
        while c < cpu_count
            invariant
                c <= cpu_count,
                routing@.len() == c,
                forall|j: int| 0 <= j < c ==> routing@[j] is Unassigned,
            decreases cpu_count - c,
        {
            routing.push(CpuRoute::Unassigned);
            c = c + 1;
        }
        routing[0] = CpuRoute::Dedicated(0);

        state = DriverState::Operational;
        proof {
            assert forall|c: int| 0 <= c < routing@.len() implies spec_route_ok(
                #[trigger] routing@[c],
                1int,
            ) by {
                if c != 0 {
                    assert(routing@[c] is Unassigned);
                }
            }
        }
        Ok(
            NvmeDriver {
                device,
                regs,
                mem,
                caps,
                db_stride: stride,
                state,
                admin,
                io_queues,
                io_depth,
                cpu_count,
                routing,
                fallback_cpus: Vec::new(),
                fallback_count: 0,
                namespaces: Vec::new(),
            },
        )
    }

    /// Looks up — and on first use from a CPU, creates — the I/O queue that
    /// serves `cpu`, returning its index.
    ///
    /// A CPU whose dedicated queue cannot be created is routed to queue 0 and
    /// recorded in the fallback table exactly once, the moment it first
    /// enters fallback — never again on later I/O from the same CPU.
    pub fn io_queue_for_cpu(&mut self, cpu: u32) -> (r: Result<u16, NvmeError>)
        requires
            old(self).wf(),
            old(self).state is Operational,
            cpu < old(self).cpu_count,
        ensures
            final(self).wf(),
            final(self).cpu_count == old(self).cpu_count,
            final(self).caps == old(self).caps,
            final(self).namespaces@ == old(self).namespaces@,
            r is Ok ==> final(self).state is Operational && (r->Ok_0 as int) < final(self).io_queues@.len(),
            r is Err ==> final(self).state is Faulted,
            r is Err ==> (final(self).fallback_count == old(self).fallback_count
                && final(self).fallback_cpus@ == old(self).fallback_cpus@
                && final(self).routing@ == old(self).routing@),
            // An already routed CPU changes nothing at all.
            !(old(self).spec_route(cpu as int) is Unassigned) ==> *final(self) == *old(self),
            // A newly routed CPU either gets a dedicated queue and leaves the
            // fallback statistics alone, or is recorded in fallback exactly
            // once, with the counter up by exactly one.
            (old(self).spec_route(cpu as int) is Unassigned && r is Ok) ==> {
                &&& (final(self).spec_route(cpu as int) is Dedicated ==> (final(self).fallback_count
                    == old(self).fallback_count && final(self).fallback_cpus@ == old(self).fallback_cpus@))
                &&& (final(self).spec_route(cpu as int) is Shared ==> (final(self).fallback_count
                    == old(self).fallback_count + 1 && final(self).fallback_cpus@ == old(self).fallback_cpus@.push(cpu)))
                &&& (final(self).spec_route(cpu as int) is Dedicated || final(self).spec_route(
                    cpu as int,
                ) is Shared)
            },
    {
        match self.routing[cpu as usize] {
            CpuRoute::Dedicated(i) => Ok(i),
            CpuRoute::Shared(i) => Ok(i),
            CpuRoute::Unassigned => {
                let n = self.io_queues.len();
                let created = if n >= 0xfffe {
                    // The queue-id space is exhausted; treat it like any other
                    // creation failure and fall back.
                    Err(NvmeError::QueueCreation)
                } else {
                    Self::create_io_queue(
                        &mut self.device,
                        &mut self.mem,
                        &mut self.regs,
                        &mut self.admin,
                        self.db_stride,
                        (n + 1) as u16,
                        self.io_depth,
                        cpu,
                    )
                };
                match created {
                    Ok(qp) => {
                        let idx = n as u16;
                        self.io_queues.push(qp);
                        self.routing[cpu as usize] = CpuRoute::Dedicated(idx);
                        proof {
                            assert forall|c: int|
                                0 <= c < self.routing@.len() && (#[trigger] self.routing@[c])
                                    is Shared implies self.fallback_cpus@.contains(c as u32) by {
                                assert(old(self).routing@[c] is Shared);
                            }
                            assert forall|i: int|
                                0 <= i < self.io_queues@.len() implies (
                            #[trigger] self.io_queues@[i]).wf() && self.io_queues@[i].qid == i
                                + 1 by {
                                if i < n {
                                    assert(self.io_queues@[i] == old(self).io_queues@[i]);
                                }
                            }
                        }
                        Ok(idx)
                    },
                    Err(e) => {
                        if matches!(e, NvmeError::QueueCreation) {
                            // Degrade gracefully: share queue 0 and record the
                            // CPU once.
                            self.routing[cpu as usize] = CpuRoute::Shared(0);
                            proof {
                                lemma_distinct_u32_bounded(
                                    old(self).fallback_cpus@,
                                    old(self).cpu_count as int,
                                );
                                assert(!old(self).fallback_cpus@.contains(cpu)) by {
                                    if old(self).fallback_cpus@.contains(cpu) {
                                        let j = choose|j: int|
                                            0 <= j < old(self).fallback_cpus@.len()
                                                && old(self).fallback_cpus@[j] == cpu;
                                        assert(old(self).routing@[cpu as int] is Shared);
                                    }
                                }
                            }
                            self.fallback_cpus.push(cpu);
                            self.fallback_count = self.fallback_count + 1;
                            proof {
                                let fc = self.fallback_cpus@;
                                let ofc = old(self).fallback_cpus@;
                                assert forall|a: int, b: int|
                                    0 <= a < fc.len() && 0 <= b < fc.len() && a != b implies fc[a]
                                    != fc[b] by {
                                    if a < ofc.len() && b < ofc.len() {
                                        assert(ofc.no_duplicates());
                                    } else if a == ofc.len() {
                                        assert(fc[b] == ofc[b]);
                                        assert(old(self).routing@[ofc[b] as int] is Shared);
                                    } else if b == ofc.len() {
                                        assert(fc[a] == ofc[a]);
                                        assert(old(self).routing@[ofc[a] as int] is Shared);
                                    }
                                }
                                assert(fc.no_duplicates());
                                assert forall|i: int|
                                    0 <= i < fc.len() implies (#[trigger] fc[i]) < self.cpu_count
                                    && self.routing@[fc[i] as int] is Shared by {
                                    if i < ofc.len() {
                                        assert(fc[i] == ofc[i]);
                                    } else {
                                        assert(fc[i] == cpu);
                                    }
                                }
                                assert forall|c: int|
                                    0 <= c < self.routing@.len() && (#[trigger] self.routing@[c])
                                        is Shared implies fc.contains(c as u32) by {
                                    if c == cpu as int {
                                        assert(fc[ofc.len() as int] == cpu);
                                    } else {
                                        assert(old(self).routing@[c] is Shared);
                                        assert(ofc.contains(c as u32));
                                        let j = choose|j: int|
                                            0 <= j < ofc.len() && ofc[j] == c as u32;
                                        assert(fc[j] == c as u32);
                                    }
                                }
                            }
                            Ok(0)
                        } else {
                            // The admin queue itself failed: the driver is no
                            // longer safe to operate.
                            self.state = DriverState::Faulted;
                            Err(e)
                        }
                    },
                }
            },
        }
    }

    /// Issues one I/O command from `cpu` and waits for its completion under a
    /// bounded poll. The completion's status is returned as-is; translating a
    /// non-zero status into an error is the caller's concern.
    ///
    /// The poll budget stands in for a caller-provided cancellation bound. A
    /// command still unanswered when it runs out is surfaced as the timeout
    /// error and the driver faults: the command id stays owned by the
    /// controller and can never be reused safely, so accepting further work
    /// would be unsound.
    ///
    /// A CPU already routed — dedicated or fallback — never changes the
    /// fallback statistics, whatever the number of operations issued from it.
    pub fn io_command(&mut self, cpu: u32, cmd: Command) -> (r: Result<Completion, NvmeError>)
        requires
            old(self).wf(),
            old(self).state is Operational,
            cpu < old(self).cpu_count,
        ensures
            final(self).wf(),
            final(self).cpu_count == old(self).cpu_count,
            final(self).caps == old(self).caps,
            final(self).namespaces@ == old(self).namespaces@,
            r is Ok ==> final(self).state is Operational,
            r is Err ==> final(self).state is Faulted,
            !(old(self).spec_route(cpu as int) is Unassigned) ==> (final(self).fallback_count
                == old(self).fallback_count && final(self).fallback_cpus@ == old(self).fallback_cpus@
                && final(self).routing@ == old(self).routing@),
            (old(self).spec_route(cpu as int) is Unassigned && r is Ok) ==> {
                &&& (final(self).spec_route(cpu as int) is Dedicated ==> (final(self).fallback_count
                    == old(self).fallback_count && final(self).fallback_cpus@ == old(
                    self,
                ).fallback_cpus@))
                &&& (final(self).spec_route(cpu as int) is Shared ==> (final(self).fallback_count
                    == old(self).fallback_count + 1 && final(self).fallback_cpus@ == old(
                    self,
                ).fallback_cpus@.push(cpu)))
                &&& (final(self).spec_route(cpu as int) is Dedicated || final(self).spec_route(
                    cpu as int,
                ) is Shared)
            },
            final(self).fallback_count == old(self).fallback_count || final(self).fallback_count
                == old(self).fallback_count + 1,
    {
        let qidx_u16 = match self.io_queue_for_cpu(cpu) {
            Ok(i) => i,
            Err(e) => {
                return Err(e);
            },
        };
        let qidx = qidx_u16 as usize;
        let ghost routed = *self;
        let outcome = self.io_queues[qidx].submit(&mut self.mem, &mut self.regs, cmd);
        let cid = match outcome {
            SubmitOutcome::Issued(cid) => cid,
            SubmitOutcome::Enqueued => {
                // Unreachable: every queue is quiescent between operations.
                self.state = DriverState::Faulted;
                return Err(NvmeError::Faulted);
            },
        };
        let mut backoff = Backoff::new(COMPLETION_WAIT_ATTEMPTS);
        loop
            invariant
                self.wf_core(),
                self.state is Operational,
                qidx < self.io_queues@.len(),
                self.io_queues@[qidx as int].outstanding == 1,
                self.io_queues@[qidx as int].spec_pending().len() == 0,
                self.admin.outstanding == 0,
                self.admin.spec_pending().len() == 0,
                forall|i: int|
                    0 <= i < self.io_queues@.len() && i != qidx ==> ((
                    #[trigger] self.io_queues@[i]).outstanding == 0
                        && self.io_queues@[i].spec_pending().len() == 0),
                self.cpu_count == old(self).cpu_count,
                self.caps == old(self).caps,
                self.namespaces@ == old(self).namespaces@,
                self.fallback_count == routed.fallback_count,
                self.fallback_cpus@ == routed.fallback_cpus@,
                self.routing@ == routed.routing@,
                !(old(self).spec_route(cpu as int) is Unassigned) ==> (routed.fallback_count
                    == old(self).fallback_count && routed.fallback_cpus@ == old(self).fallback_cpus@
                    && routed.routing@ == old(self).routing@),
                old(self).spec_route(cpu as int) is Unassigned ==> {
                    &&& (routed.spec_route(cpu as int) is Dedicated ==> (routed.fallback_count
                        == old(self).fallback_count && routed.fallback_cpus@ == old(
                        self,
                    ).fallback_cpus@))
                    &&& (routed.spec_route(cpu as int) is Shared ==> (routed.fallback_count == old(
                        self,
                    ).fallback_count + 1 && routed.fallback_cpus@ == old(self).fallback_cpus@.push(
                        cpu,
                    )))
                    &&& (routed.spec_route(cpu as int) is Dedicated || routed.spec_route(
                        cpu as int,
                    ) is Shared)
                },
                routed.fallback_count == old(self).fallback_count || routed.fallback_count
                    == old(self).fallback_count + 1,
                backoff.max_attempts == COMPLETION_WAIT_ATTEMPTS,
                backoff.attempts <= backoff.max_attempts,
            decreases backoff.max_attempts - backoff.attempts,
        {
            let reap = match self.io_queues[qidx].process_completions(&mut self.mem, &mut self.regs)
                {
                Ok(reap) => reap,
                Err(e) => {
                    self.state = DriverState::Faulted;
                    return Err(NvmeError::Faulted);
                },
            };
            if reap.completed.len() > 0 {
                if reap.completed.len() != 1 {
                    self.state = DriverState::Faulted;
                    return Err(NvmeError::Faulted);
                }
                let c = reap.completed[0];
                if c.cid != cid {
                    // A completion with no registered waiter: fatal
                    // internal-consistency fault.
                    self.state = DriverState::Faulted;
                    return Err(NvmeError::Faulted);
                }
                return Ok(c);
            }
            if backoff.is_exhausted() {
                // The command is still owned by the controller; its id cannot
                // be reused safely, so the driver stops accepting work.
                self.state = DriverState::Faulted;
                return Err(NvmeError::CommandTimeout);
            }
            let delay = backoff.back_off();
            self.device.pause_us(delay);
        }
    }

    /// Discovers a namespace: issues Identify Namespace on the admin queue
    /// and parses the geometry. The discovered namespace is cached on the
    /// driver and returned as an immutable value.
    pub fn namespace(&mut self, nsid: u32) -> (r: Result<Namespace, NvmeError>)
        requires
            old(self).wf(),
            old(self).state is Operational,
        ensures
            final(self).wf(),
            final(self).cpu_count == old(self).cpu_count,
            final(self).caps == old(self).caps,
            final(self).fallback_count == old(self).fallback_count,
            r is Ok ==> {
                &&& r->Ok_0.wf()
                &&& r->Ok_0.nsid == nsid
                &&& final(self).state is Operational
                &&& final(self).namespaces@ == old(self).namespaces@.push(r->Ok_0)
            },
    {
        let buf = match self.mem.allocate_pages(1) {
            Some(b) => b,
            None => {
                return Err(NvmeError::DmaMapping);
            },
        };
        let cmd = Command::identify_namespace(nsid, buf);
        let c = match Self::run_admin(
            &mut self.device,
            &mut self.mem,
            &mut self.regs,
            &mut self.admin,
            cmd,
        ) {
            Ok(c) => c,
            Err(e) => {
                self.state = DriverState::Faulted;
                return Err(e);
            },
        };
        // The identify command has retired; its buffer page can go back once
        // the data is copied out.
        if c.status != 0 {
            self.mem.release_pages(buf, 1);
            return Err(NvmeError::NvmeStatus(c.status));
        }
        let data = self.mem.read_bytes(buf, 4096);
        self.mem.release_pages(buf, 1);
        match parse_identify_namespace(nsid, &data) {
            Some(ns) => {
                self.namespaces.push(ns);
                Ok(ns)
            },
            None => Err(NvmeError::InvalidNamespace),
        }
    }

    /// The saved image of one queue pair: its index, depth, affinity,
    /// interrupt binding, and ring locations and positions — what reattaching
    /// to a still-running controller needs.
    pub open spec fn spec_saved_qp(qp: QueuePair) -> SavedQueuePair {
        SavedQueuePair {
            qid: qp.qid,
            depth: qp.depth,
            cpu: qp.cpu,
            interrupt_vector: qp.interrupt_vector,
            sq_base: qp.sq_base,
            cq_base: qp.cq_base,
            sq_tail: qp.sq_tail,
            cq_head: qp.cq_head,
            phase: qp.phase,
        }
    }

    /// Snapshots one queue pair.
    fn save_qp(qp: &QueuePair) -> (r: SavedQueuePair)
        ensures
            r == Self::spec_saved_qp(*qp),
    {
        SavedQueuePair {
            qid: qp.qid,
            depth: qp.depth,
            cpu: qp.cpu,
            interrupt_vector: qp.interrupt_vector,
            sq_base: qp.sq_base,
            cq_base: qp.cq_base,
            sq_tail: qp.sq_tail,
            cq_head: qp.cq_head,
            phase: qp.phase,
        }
    }

    /// Serializes the driver's live state for a servicing event: queue-pair
    /// geometry and positions, interrupt bindings and the fallback routing.
    ///
    /// The namespace list is deliberately omitted — always empty in the
    /// snapshot, whatever the driver has discovered — because namespaces may
    /// change while the host is serviced and must be re-discovered, never
    /// trusted from a snapshot. The controller is left enabled so in-flight
    /// guest I/O is not interrupted; only a driver that already tore the
    /// controller down records it as disabled.
    ///
    /// Whatever state the driver is in, the snapshot's namespace list is
    /// empty.
    pub fn save(&self) -> (r: Result<SavedState, NvmeError>)
        requires
            self.wf(),
        ensures
            r is Ok,
            r is Ok ==> {
                let s = r->Ok_0;
                &&& s.namespaces@.len() == 0
                &&& s.version == SAVED_STATE_VERSION
                &&& s.controller_enabled == !(self.state is Stopped)
                &&& s.admin == Self::spec_saved_qp(self.admin)
                &&& s.io_queues@.len() == self.io_queues@.len()
                &&& (forall|i: int|
                    0 <= i < s.io_queues@.len() ==> s.io_queues@[i] == Self::spec_saved_qp(
                        #[trigger] self.io_queues@[i],
                    ))
                &&& s.routing@ == self.routing@
                &&& s.fallback_cpus@ == self.fallback_cpus@
            },
    {
        let mut io_queues: Vec<SavedQueuePair> = Vec::new();
        let mut i: usize = 0;
        while i < self.io_queues.len()
            invariant
                i <= self.io_queues@.len(),
                io_queues@.len() == i,
                forall|j: int|
                    0 <= j < i ==> io_queues@[j] == Self::spec_saved_qp(
                        #[trigger] self.io_queues@[j],
                    ),
            decreases self.io_queues@.len() - i,
        {
            let saved = Self::save_qp(&self.io_queues[i]);
            io_queues.push(saved);
            i = i + 1;
        }
        let mut routing: Vec<CpuRoute> = Vec::new();
        let mut c: usize = 0;
        while c < self.routing.len()
            invariant
                c <= self.routing@.len(),
                routing@.len() == c,
                forall|j: int| 0 <= j < c ==> routing@[j] == self.routing@[j],
            decreases self.routing@.len() - c,
        {
            routing.push(self.routing[c]);
            c = c + 1;
        }
        let mut fallback_cpus: Vec<u32> = Vec::new();
        let mut f: usize = 0;
        while f < self.fallback_cpus.len()
            invariant
                f <= self.fallback_cpus@.len(),
                fallback_cpus@.len() == f,
                forall|j: int| 0 <= j < f ==> fallback_cpus@[j] == self.fallback_cpus@[j],
            decreases self.fallback_cpus@.len() - f,
        {
            fallback_cpus.push(self.fallback_cpus[f]);
            f = f + 1;
        }
        proof {
            assert(routing@ =~= self.routing@);
            assert(fallback_cpus@ =~= self.fallback_cpus@);
        }
        Ok(
            SavedState {
                version: SAVED_STATE_VERSION,
                controller_enabled: !matches!(self.state, DriverState::Stopped),
                admin: Self::save_qp(&self.admin),
                io_queues,
                routing,
                fallback_cpus,
                namespaces: Vec::new(),
            },
        )
    }

    /// Reattaches to a controller from a snapshot taken before a servicing
    /// event.
    ///
    /// The snapshot is validated first: a version other than the one this
    /// driver writes fails hard with the version-mismatch error, and a saved
    /// queue depth larger than the new controller's capability-derived
    /// maximum fails with the distinct capacity error rather than silently
    /// recreating an under-sized queue. A snapshot whose routing table does
    /// not fit the new configuration is likewise incompatible.
    ///
    /// If the controller was left enabled (keep-alive), the enable step is
    /// skipped — the driver only waits for the ready bit under the usual
    /// bounded backoff and resumes the rings where the snapshot left them.
    /// Otherwise the admin queue registers are programmed from the snapshot,
    /// the controller is enabled, and the I/O queues are recreated at their
    /// saved depths and locations.
    pub fn restore(device: D, cpu_count: u32, saved: &SavedState) -> (r: Result<
        NvmeDriver<D>,
        RestoreError,
    >)
        requires
            cpu_count >= 1,
        ensures
            saved.version != SAVED_STATE_VERSION <==> (r is Err && r->Err_0
                == RestoreError::VersionMismatch),
            r is Ok ==> {
                let d = r->Ok_0;
                &&& d.wf()
                &&& d.state is Operational
                &&& d.cpu_count == cpu_count
                &&& d.namespaces@.len() == 0
                &&& d.routing@ == saved.routing@
                &&& d.io_queues@.len() == saved.io_queues@.len()
                &&& d.admin.depth == saved.admin.depth
                &&& d.admin.cpu == saved.admin.cpu
                &&& d.admin.interrupt_vector == saved.admin.interrupt_vector
                &&& d.admin.sq_base == saved.admin.sq_base
                &&& d.admin.cq_base == saved.admin.cq_base
                &&& (forall|i: int|
                    0 <= i < saved.io_queues@.len() ==> {
                        let qp = #[trigger] d.io_queues@[i];
                        let sq = saved.io_queues@[i];
                        &&& qp.depth == sq.depth
                        &&& qp.cpu == sq.cpu
                        &&& qp.sq_base == sq.sq_base
                        &&& qp.cq_base == sq.cq_base
                        &&& qp.interrupt_vector == Some(spec_restored_vector(sq, i))
                    })
            },
    {
        if saved.version != SAVED_STATE_VERSION {
            return Err(RestoreError::VersionMismatch);
        }
        let mut device = device;
        let mut regs = match device.map_bar(0) {
            Some(r) => r,
            None => {
                return Err(RestoreError::Nvme(NvmeError::QueueCreation));
            },
        };
        let mut mem = device.dma_client();
        let cap = regs.read_u64(REG_CAP);
        let caps = ControllerCaps::decode(cap);
        match caps.check_usable() {
            Ok(()) => (),
            Err(e) => {
                return Err(RestoreError::Nvme(e));
            },
        }
        let max_entries = caps.max_queue_entries();
        match saved.validate(max_entries) {
            Ok(()) => (),
            Err(e) => {
                return Err(e);
            },
        }
        if saved.io_queues.len() == 0 || saved.io_queues.len() > 0xfffe || saved.routing.len()
            != cpu_count as usize {
            // The snapshot does not fit this configuration.
            return Err(RestoreError::CapacityError);
        }
        let stride = caps.doorbell_stride_bytes();

        // Rebind the interrupt vectors recorded in the snapshot.
        let admin_vector = match saved.admin.interrupt_vector {
            Some(v) => v,
            None => 0,
        };
        if !device.map_interrupt(admin_vector, saved.admin.cpu) {
            return Err(RestoreError::Nvme(NvmeError::QueueCreation));
        }

        // Keep-alive: a controller left enabled is not re-enabled, so
        // in-flight guest I/O is not interrupted; the ready bit is still
        // awaited under the usual backoff before any command is issued.
        let csts = regs.read_u32(REG_CSTS);
        let keep_alive = csts & 1 == 1;
        let dbs = doorbell_offsets(0, stride);
        let admin: QueuePair;
        if keep_alive {
            admin = QueuePair::at(
                &mut mem,
                0,
                saved.admin.depth,
                saved.admin.cpu,
                saved.admin.interrupt_vector,
                saved.admin.sq_base,
                saved.admin.cq_base,
                saved.admin.sq_tail,
                saved.admin.cq_head,
                saved.admin.phase,
                dbs.0,
                dbs.1,
                false,
            );
            match Self::wait_ready(
                &mut device,
                &mut regs,
                true,
                ready_wait_attempts(caps.timeout_500ms),
            ) {
                Ok(()) => (),
                Err(e) => {
                    return Err(RestoreError::Nvme(e));
                },
            }
        } else {
            admin = QueuePair::at(
                &mut mem,
                0,
                saved.admin.depth,
                saved.admin.cpu,
                saved.admin.interrupt_vector,
                saved.admin.sq_base,
                saved.admin.cq_base,
                0,
                0,
                true,
                dbs.0,
                dbs.1,
                true,
            );
            regs.write_u32(REG_AQA, aqa_word(saved.admin.depth));
            regs.write_u64(REG_ASQ, admin.sq_base);
            regs.write_u64(REG_ACQ, admin.cq_base);
            regs.write_u32(REG_CC, CC_ENABLE);
            match Self::wait_ready(
                &mut device,
                &mut regs,
                true,
                ready_wait_attempts(caps.timeout_500ms),
            ) {
                Ok(()) => (),
                Err(e) => {
                    return Err(RestoreError::Nvme(e));
                },
            }
        }
        let mut admin = admin;

        // Recreate every I/O queue pair at its saved depth and location.
        let mut io_queues: Vec<QueuePair> = Vec::new();
        let mut i: usize = 0;
        while i < saved.io_queues.len()
            invariant
                i <= saved.io_queues@.len(),
                saved.io_queues@.len() <= 0xfffe,
                io_queues@.len() == i,
                forall|j: int| 0 <= j < i ==> (#[trigger] io_queues@[j]).wf(),
                forall|j: int| 0 <= j < i ==> (#[trigger] io_queues@[j]).qid == j + 1,
                forall|j: int|
                    0 <= j < i ==> ((#[trigger] io_queues@[j]).outstanding == 0
                        && io_queues@[j].spec_pending().len() == 0),
                forall|j: int|
                    0 <= j < i ==> {
                        let qp = #[trigger] io_queues@[j];
                        let sq = saved.io_queues@[j];
                        &&& qp.depth == sq.depth
                        &&& qp.cpu == sq.cpu
                        &&& qp.sq_base == sq.sq_base
                        &&& qp.cq_base == sq.cq_base
                        &&& qp.interrupt_vector == Some(spec_restored_vector(sq, j))
                    },
                admin.wf(),
                admin.qid == 0,
                admin.depth == saved.admin.depth,
                admin.cpu == saved.admin.cpu,
                admin.interrupt_vector == saved.admin.interrupt_vector,
                admin.sq_base == saved.admin.sq_base,
                admin.cq_base == saved.admin.cq_base,
                admin.outstanding == 0,
                admin.spec_pending().len() == 0,
                spec_capacity_ok(*saved, max_entries),
                max_entries <= 0x10000,
                saved.version == SAVED_STATE_VERSION,
                4 <= stride <= 0x40000,
            decreases saved.io_queues@.len() - i,
        {
            let sq = &saved.io_queues[i];
            let qid = (i + 1) as u16;
            let vector = match sq.interrupt_vector {
                Some(v) => v,
                None => qid as u32,
            };
            if !device.map_interrupt(vector, sq.cpu) {
                return Err(RestoreError::Nvme(NvmeError::QueueCreation));
            }
            let qdbs = doorbell_offsets(qid, stride);
            let qp: QueuePair;
            if keep_alive {
                qp = QueuePair::at(
                    &mut mem,
                    qid,
                    sq.depth,
                    sq.cpu,
                    Some(vector),
                    sq.sq_base,
                    sq.cq_base,
                    sq.sq_tail,
                    sq.cq_head,
                    sq.phase,
                    qdbs.0,
                    qdbs.1,
                    false,
                );
            } else {
                qp = QueuePair::at(
                    &mut mem,
                    qid,
                    sq.depth,
                    sq.cpu,
                    Some(vector),
                    sq.sq_base,
                    sq.cq_base,
                    0,
                    0,
                    true,
                    qdbs.0,
                    qdbs.1,
                    true,
                );
                let vector16 = (vector % 0x10000) as u16;
                let ccq = Command::create_io_cq(qid, sq.depth, qp.cq_base, vector16);
                let c = match Self::run_admin(&mut device, &mut mem, &mut regs, &mut admin, ccq) {
                    Ok(c) => c,
                    Err(e) => {
                        return Err(RestoreError::Nvme(e));
                    },
                };
                if c.status != 0 {
                    return Err(RestoreError::Nvme(NvmeError::QueueCreation));
                }
                let csq = Command::create_io_sq(qid, sq.depth, qp.sq_base, qid);
                let c = match Self::run_admin(&mut device, &mut mem, &mut regs, &mut admin, csq) {
                    Ok(c) => c,
                    Err(e) => {
                        return Err(RestoreError::Nvme(e));
                    },
                };
                if c.status != 0 {
                    return Err(RestoreError::Nvme(NvmeError::QueueCreation));
                }
            }
            io_queues.push(qp);
            i = i + 1;
        }

        // Rebuild the routing table, checking every saved route against the
        // recreated queues, and derive the fallback accounting from it: each
        // CPU routed to a shared queue is counted exactly once.
        let n_queues = io_queues.len();
        let mut routing: Vec<CpuRoute> = Vec::new();
        let mut fallback_cpus: Vec<u32> = Vec::new();
        let mut c: usize = 0;
        while c < cpu_count as usize
            invariant
                c <= cpu_count,
                cpu_count == saved.routing@.len(),
                saved.version == SAVED_STATE_VERSION,
                routing@.len() == c,
                n_queues == io_queues@.len(),
                forall|j: int|
                    0 <= j < c ==> spec_route_ok(#[trigger] routing@[j], n_queues as int),
                forall|j: int| 0 <= j < c ==> routing@[j] == saved.routing@[j],
                fallback_cpus@.no_duplicates(),
                forall|k: int|
                    0 <= k < fallback_cpus@.len() ==> (#[trigger] fallback_cpus@[k]) < c
                        && routing@[fallback_cpus@[k] as int] is Shared,
                forall|j: int|
                    0 <= j < c && (#[trigger] routing@[j]) is Shared ==> fallback_cpus@.contains(
                        j as u32,
                    ),
                fallback_cpus@.len() <= c,
            decreases cpu_count - c,
        {
            let route = saved.routing[c];
            let ok = match route {
                CpuRoute::Unassigned => true,
                CpuRoute::Dedicated(t) => (t as usize) < n_queues,
                CpuRoute::Shared(t) => (t as usize) < n_queues,
            };
            if !ok {
                return Err(RestoreError::CapacityError);
            }
            let ghost fc_before = fallback_cpus@;
            if matches!(route, CpuRoute::Shared(_)) {
                fallback_cpus.push(c as u32);
            }
            routing.push(route);
            proof {
                assert forall|a: int, b: int|
                    0 <= a < fallback_cpus@.len() && 0 <= b < fallback_cpus@.len() && a != b
                    implies fallback_cpus@[a] != fallback_cpus@[b] by {
                    if a < fc_before.len() && b < fc_before.len() {
                        assert(fc_before.no_duplicates());
                    }
                }
                assert(fallback_cpus@.no_duplicates());
                assert forall|j: int|
                    0 <= j < c + 1 && (#[trigger] routing@[j]) is Shared implies fallback_cpus@
                    .contains(j as u32) by {
                    if j < c {
                        assert(fc_before.contains(j as u32));
                        let k = choose|k: int| 0 <= k < fc_before.len() && fc_before[k] == j as u32;
                        assert(fallback_cpus@[k] == j as u32);
                    } else {
                        assert(fallback_cpus@[fallback_cpus@.len() - 1] == j as u32);
                    }
                }
            }
            c = c + 1;
        }
        let fallback_count = fallback_cpus.len() as u64;
        proof {
            assert(routing@ =~= saved.routing@);
        }

        let io_depth = min_u32(IO_QUEUE_DEPTH_MAX, max_entries);
        Ok(
            NvmeDriver {
                device,
                regs,
                mem,
                caps,
                db_stride: stride,
                state: DriverState::Operational,
                admin,
                io_queues,
                io_depth,
                cpu_count,
                routing,
                fallback_cpus,
                fallback_count,
                namespaces: Vec::new(),
            },
        )
    }

    /// The fallback counter counts CPUs, never operations.
    ///
    /// In every well-formed driver the counter equals the number of recorded
    /// fallback CPUs; no CPU is recorded twice; and every recorded CPU is
    /// routed to a shared queue — so once a CPU is routed, further I/O from
    /// it can never raise the counter again (an already routed CPU leaves the
    /// whole routing state unchanged, per the contract of
    /// [`NvmeDriver::io_queue_for_cpu`]).
    pub proof fn lemma_fallback_counted_once_per_cpu(self)
        requires
            self.wf_core(),
        ensures
            self.fallback_count == self.fallback_cpus@.len(),
            self.fallback_cpus@.no_duplicates(),
            forall|i: int|
                0 <= i < self.fallback_cpus@.len() ==> self.spec_route(
                    #[trigger] self.fallback_cpus@[i] as int,
                ) is Shared,
            self.fallback_count <= self.cpu_count,
    {
        lemma_distinct_u32_bounded(self.fallback_cpus@, self.cpu_count as int);
    }

    /// Tears the driver down: deletes every I/O queue through admin
    /// delete-queue commands, then disables the controller and waits for the
    /// ready bit to clear. Outstanding commands have already been retired —
    /// the driver is quiescent between operations — so nothing is cut short.
    pub fn shutdown(&mut self) -> (r: Result<(), NvmeError>)
        requires
            old(self).wf(),
            old(self).state is Operational,
        ensures
            final(self).wf(),
            r is Ok ==> final(self).state is Stopped,
            r is Err ==> final(self).state is Faulted,
    {
        self.state = DriverState::ShuttingDown;
        let mut i: usize = 0;
        let n = self.io_queues.len();
        while i < n
            invariant
                self.wf_core(),
                self.state is ShuttingDown,
                n == self.io_queues@.len(),
                self.admin.outstanding == 0,
                self.admin.spec_pending().len() == 0,
            decreases n - i,
        {
            let qid = self.io_queues[i].qid;
            let dsq = Command::delete_io_sq(qid);
            match Self::run_admin(&mut self.device, &mut self.mem, &mut self.regs, &mut self.admin, dsq) {
                Ok(_) => (),
                Err(e) => {
                    self.state = DriverState::Faulted;
                    return Err(e);
                },
            }
            let dcq = Command::delete_io_cq(qid);
            match Self::run_admin(&mut self.device, &mut self.mem, &mut self.regs, &mut self.admin, dcq) {
                Ok(_) => (),
                Err(e) => {
                    self.state = DriverState::Faulted;
                    return Err(e);
                },
            }
            i = i + 1;
        }
        self.regs.write_u32(REG_CC, 0);
        let disable_attempts = ready_wait_attempts(self.caps.timeout_500ms);
        match Self::wait_ready(&mut self.device, &mut self.regs, false, disable_attempts) {
            Ok(()) => (),
            Err(e) => {
                self.state = DriverState::Faulted;
                return Err(e);
            },
        }
        // The controller is quiesced and no command is in flight: return
        // every ring's pages to the allocator.
        let mut j: usize = 0;
        while j < self.io_queues.len()
            invariant
                self.wf_core(),
                self.state is ShuttingDown,
            decreases self.io_queues@.len() - j,
        {
            let depth = self.io_queues[j].depth;
            let sq_base = self.io_queues[j].sq_base;
            let cq_base = self.io_queues[j].cq_base;
            self.mem.release_pages(sq_base, sq_ring_pages(depth));
            self.mem.release_pages(cq_base, cq_ring_pages(depth));
            j = j + 1;
        }
        let admin_depth = self.admin.depth;
        let admin_sq = self.admin.sq_base;
        let admin_cq = self.admin.cq_base;
        self.mem.release_pages(admin_sq, sq_ring_pages(admin_depth));
        self.mem.release_pages(admin_cq, cq_ring_pages(admin_depth));
        self.state = DriverState::Stopped;
        Ok(())
    }
}

} // verus!
