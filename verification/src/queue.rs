//! Queue pairs: one submission ring, one completion ring, the doorbells, the
//! command-id allocator and the table of in-flight commands.
//!
//! The command-id space is a dense, fixed-size slot table indexed by small
//! integer ids; every id is bound to at most one outstanding command, and the
//! number of outstanding commands never exceeds the configured depth minus one
//! (one ring entry stays reserved for full/empty disambiguation, per NVMe
//! convention).
//!
//! Backpressure: when every command id is in flight, new submissions are held
//! in a first-in-first-out line and issued, one per completion, as ids free
//! up. This is the only flow-control mechanism; there is no queueing layer
//! above the rings.

use vstd::prelude::*;

use crate::cmd::{decode_cqe, Command, Completion, CQE_BYTES, SQE_BYTES};
use crate::device::{DeviceRegisterIo, DmaClient, MAX_DMA_ADDR, PAGE_SIZE};
use crate::error::NvmeError;

verus! {

/// What became of a submission.
#[derive(Debug, Clone, Copy, PartialEq, Eq, Structural)]
pub enum SubmitOutcome {
    /// The command went into the submission ring under this command id.
    Issued(u16),
    /// Every command id is in flight; the command waits its turn in line.
    Enqueued,
}

/// What one sweep of the completion ring produced.
pub struct ReapOutcome {
    /// The completions reaped, in ring order.
    pub completed: Vec<Completion>,
    /// The previously blocked submissions that this sweep issued, in the
    /// order they had been enqueued.
    pub released: Vec<Command>,
}

/// One submission/completion ring pair and its bookkeeping.
pub struct QueuePair {
    /// Queue index: 0 for the admin queue, 1 and up for I/O queues.
    pub qid: u16,
    /// Entries per ring; usable depth is one less.
    pub depth: u32,
    /// The CPU whose I/O this queue serves.
    pub cpu: u32,
    /// The MSI-X vector bound to this queue's completion ring, if any.
    pub interrupt_vector: Option<u32>,
    /// DMA base address of the submission ring.
    pub sq_base: u64,
    /// DMA base address of the completion ring.
    pub cq_base: u64,
    /// Register offset of the submission-tail doorbell.
    pub sq_db_offset: u64,
    /// Register offset of the completion-head doorbell.
    pub cq_db_offset: u64,
    /// Producer index into the submission ring.
    pub sq_tail: u32,
    /// Consumer index into the completion ring.
    pub cq_head: u32,
    /// Phase bit expected of the next new completion entry.
    pub phase: bool,
    /// Command ids not currently bound to any command.
    pub free_ids: Vec<u16>,
    /// Slot table: `inflight[id]` is whether id is bound to an outstanding
    /// command.
    pub inflight: Vec<bool>,
    /// Submissions waiting for a command id, oldest first.
    pub pending: Vec<Command>,
    /// Number of commands submitted and not yet completed.
    pub outstanding: u32,
}

/// Pages backing a submission ring of `depth` entries (64 bytes each).
pub fn sq_ring_pages(depth: u32) -> (r: u64)
    ensures
        r == depth as u64 / 64 + 1,
{
    depth as u64 / 64 + 1
}

/// Pages backing a completion ring of `depth` entries (16 bytes each).
pub fn cq_ring_pages(depth: u32) -> (r: u64)
    ensures
        r == depth as u64 / 256 + 1,
{
    depth as u64 / 256 + 1
}

impl QueuePair {
    /// The ids currently free.
    pub open spec fn spec_free_ids(self) -> Seq<u16> {
        self.free_ids@
    }

    /// The slot table of in-flight ids.
    pub open spec fn spec_inflight(self) -> Seq<bool> {
        self.inflight@
    }

    /// The line of submissions waiting for an id, oldest first.
    pub open spec fn spec_pending(self) -> Seq<Command> {
        self.pending@
    }

    /// Well-formedness: the id allocator is a dense set of reusable ids, each
    /// bound to at most one outstanding command; ring indices are in range;
    /// a submission waits in line only while no id is free; and the ring
    /// memory is page-aligned and in DMA range, so slot addresses cannot
    /// overflow.
    pub open spec fn wf(self) -> bool {
        &&& 2 <= self.depth <= 0x10000
        &&& self.spec_inflight().len() == self.depth - 1
        &&& self.spec_free_ids().no_duplicates()
        &&& (forall|i: int|
            0 <= i < self.spec_free_ids().len() ==> (#[trigger] self.spec_free_ids()[i]) < self.depth
                - 1 && !self.spec_inflight()[self.spec_free_ids()[i] as int])
        &&& (forall|id: int|
            0 <= id < self.depth - 1 && !(#[trigger] self.spec_inflight()[id])
                ==> self.spec_free_ids().contains(id as u16))
        &&& self.outstanding == self.depth - 1 - self.spec_free_ids().len()
        &&& self.sq_tail < self.depth
        &&& self.cq_head < self.depth
        &&& (self.spec_pending().len() > 0 ==> self.spec_free_ids().len() == 0)
        &&& self.sq_base % PAGE_SIZE == 0
        &&& self.cq_base % PAGE_SIZE == 0
        &&& self.sq_base + self.depth * SQE_BYTES < MAX_DMA_ADDR
        &&& self.cq_base + self.depth * CQE_BYTES < MAX_DMA_ADDR
    }

    /// The fields fixed at creation.
    pub open spec fn same_config(self, other: QueuePair) -> bool {
        &&& self.qid == other.qid
        &&& self.depth == other.depth
        &&& self.cpu == other.cpu
        &&& self.interrupt_vector == other.interrupt_vector
        &&& self.sq_base == other.sq_base
        &&& self.cq_base == other.cq_base
        &&& self.sq_db_offset == other.sq_db_offset
        &&& self.cq_db_offset == other.cq_db_offset
    }

    /// Whether a new submission can be issued at once: the number of
    /// outstanding commands is below the configured depth minus one.
    pub open spec fn spec_can_issue(self) -> bool {
        self.outstanding < self.depth - 1
    }

    /// The outstanding-command bound of every well-formed queue pair: at most
    /// depth minus one commands are ever in flight.
    pub proof fn lemma_outstanding_bounded(self)
        requires
            self.wf(),
        ensures
            self.outstanding <= self.depth - 1,
    {
    }

    /// Builds a queue pair over rings already located at `sq_base` and
    /// `cq_base`, resuming at the given ring indices with no command
    /// outstanding. Used both for fresh queues (indices zero, completion ring
    /// zeroed) and for reattaching to a still-running controller after a
    /// servicing event.
    pub fn at<M: DmaClient>(
        mem: &mut M,
        qid: u16,
        depth: u32,
        cpu: u32,
        interrupt_vector: Option<u32>,
        sq_base: u64,
        cq_base: u64,
        sq_tail: u32,
        cq_head: u32,
        phase: bool,
        sq_db_offset: u64,
        cq_db_offset: u64,
        zero_cq: bool,
    ) -> (qp: QueuePair)
        requires
            2 <= depth <= 0x10000,
            sq_base % PAGE_SIZE == 0,
            cq_base % PAGE_SIZE == 0,
            sq_base + depth * SQE_BYTES < MAX_DMA_ADDR,
            cq_base + depth * CQE_BYTES < MAX_DMA_ADDR,
            sq_tail < depth,
            cq_head < depth,
        ensures
            qp.wf(),
            qp.qid == qid,
            qp.depth == depth,
            qp.cpu == cpu,
            qp.interrupt_vector == interrupt_vector,
            qp.sq_base == sq_base,
            qp.cq_base == cq_base,
            qp.sq_db_offset == sq_db_offset,
            qp.cq_db_offset == cq_db_offset,
            qp.outstanding == 0,
            qp.spec_pending().len() == 0,
            qp.sq_tail == sq_tail,
            qp.cq_head == cq_head,
            qp.phase == phase,
    {
        if zero_cq {
            // Zero the completion ring so stale phase bits cannot be mistaken
            // for new entries.
            let cq_len: usize = (depth as usize) * (CQE_BYTES as usize);
            let zeros: Vec<u8> = vec![0u8; cq_len];
            mem.write_bytes(cq_base, &zeros);
        }
        let slots: usize = (depth - 1) as usize;
        let mut free_ids: Vec<u16> = Vec::new();
        let mut inflight: Vec<bool> = Vec::new();
        let mut i: usize = 0;
        while i < slots
            invariant
                slots == depth - 1,
                depth <= 0x10000,
                i <= slots,
                free_ids@.len() == i,
                inflight@.len() == i,
                forall|j: int| 0 <= j < i ==> free_ids@[j] == j as u16,
                forall|j: int| 0 <= j < i ==> inflight@[j] == false,
            decreases slots - i,
        {
            free_ids.push(i as u16);
            inflight.push(false);
            i = i + 1;
        }
        let qp = QueuePair {
            qid,
            depth,
            cpu,
            interrupt_vector,
            sq_base,
            cq_base,
            sq_db_offset,
            cq_db_offset,
            sq_tail,
            cq_head,
            phase,
            free_ids,
            inflight,
            pending: Vec::new(),
            outstanding: 0,
        };
        proof {
            assert forall|a: int, b: int|
                0 <= a < qp.spec_free_ids().len() && 0 <= b < qp.spec_free_ids().len() && a != b
                implies qp.spec_free_ids()[a] != qp.spec_free_ids()[b] by {
                assert(qp.spec_free_ids()[a] == a as u16);
                assert(qp.spec_free_ids()[b] == b as u16);
            }
            assert(qp.spec_free_ids().no_duplicates());
            assert forall|id: int| 0 <= id < qp.depth - 1 && !qp.spec_inflight()[id] implies qp
                .spec_free_ids().contains(id as u16) by {
                assert(qp.spec_free_ids()[id] == id as u16);
            }
        }
        qp
    }

    /// Creates a queue pair over freshly allocated rings. The completion ring
    /// is zeroed so that its phase bits read as consumed until the controller
    /// writes an entry.
    pub fn new<M: DmaClient>(
        mem: &mut M,
        qid: u16,
        depth: u32,
        cpu: u32,
        interrupt_vector: Option<u32>,
        sq_db_offset: u64,
        cq_db_offset: u64,
    ) -> (r: Result<QueuePair, NvmeError>)
        requires
            2 <= depth <= 0x10000,
        ensures
            r is Ok ==> {
                let qp = r->Ok_0;
                &&& qp.wf()
                &&& qp.qid == qid
                &&& qp.depth == depth
                &&& qp.cpu == cpu
                &&& qp.interrupt_vector == interrupt_vector
                &&& qp.sq_db_offset == sq_db_offset
                &&& qp.cq_db_offset == cq_db_offset
                &&& qp.outstanding == 0
                &&& qp.spec_pending().len() == 0
                &&& qp.sq_tail == 0
                &&& qp.cq_head == 0
                &&& qp.phase == true
            },
            r is Err ==> r->Err_0 == NvmeError::QueueCreation,
    {
        let sq_pages: u64 = sq_ring_pages(depth);
        let cq_pages: u64 = cq_ring_pages(depth);
        let sq_base = match mem.allocate_pages(sq_pages) {
            Some(a) => a,
            None => {
                return Err(NvmeError::QueueCreation);
            },
        };
        let cq_base = match mem.allocate_pages(cq_pages) {
            Some(a) => a,
            None => {
                // The submission ring was already allocated; hand it back
                // rather than leak it.
                mem.release_pages(sq_base, sq_pages);
                return Err(NvmeError::QueueCreation);
            },
        };
        proof {
            let d = depth as int;
            let qs = d / 64;
            let rs = d % 64;
            let qc = d / 256;
            let rc = d % 256;
            assert(d == 64 * qs + rs && 0 <= rs < 64);
            assert(d == 256 * qc + rc && 0 <= rc < 256);
            assert(64 * (64 * qs + rs) <= 4096 * qs + 4096) by (nonlinear_arith)
                requires
                    0 <= rs < 64,
            ;
            assert(16 * (256 * qc + rc) <= 4096 * qc + 4096) by (nonlinear_arith)
                requires
                    0 <= rc < 256,
            ;
            assert(d * SQE_BYTES <= sq_pages * PAGE_SIZE);
            assert(d * CQE_BYTES <= cq_pages * PAGE_SIZE);
        }
        Ok(
            QueuePair::at(
                mem,
                qid,
                depth,
                cpu,
                interrupt_vector,
                sq_base,
                cq_base,
                0,
                0,
                true,
                sq_db_offset,
                cq_db_offset,
                true,
            ),
        )
    }

    /// Entries per ring; one stays reserved, so at most `depth() - 1`
    /// commands are ever outstanding.
    pub fn depth(&self) -> (r: u32)
        ensures
            r == self.depth,
    {
        self.depth
    }

    /// Number of commands submitted and not yet completed.
    pub fn outstanding_count(&self) -> (r: u32)
        ensures
            r == self.outstanding,
    {
        self.outstanding
    }

    /// Writes the submission-queue entry for `cmd` under `cid` into the next
    /// free ring slot, advances the producer index and rings the submission
    /// doorbell.
    fn write_sqe<M: DmaClient, R: DeviceRegisterIo>(
        &mut self,
        mem: &mut M,
        regs: &mut R,
        cmd: Command,
        cid: u16,
    )
        requires
            2 <= old(self).depth <= 0x10000,
            old(self).sq_tail < old(self).depth,
            old(self).sq_base + old(self).depth * SQE_BYTES < MAX_DMA_ADDR,
        ensures
            *final(self) == (QueuePair {
                sq_tail: (((old(self).sq_tail + 1) as int % old(self).depth as int)) as u32,
                ..(*old(self))
            }),
    {
        let sqe = cmd.encode_sqe(cid);
        let slot_addr: u64 = self.sq_base + (self.sq_tail as u64) * SQE_BYTES;
        mem.write_bytes(slot_addr, &sqe);
        self.sq_tail = (self.sq_tail + 1) % self.depth;
        regs.write_u32(self.sq_db_offset, self.sq_tail);
    }

    /// Submits a command. If a command id is free the command is issued at
    /// once under that id; otherwise every id is in flight and the command
    /// joins the back of the waiting line, to be issued when a completion
    /// frees an id.
    pub fn submit<M: DmaClient, R: DeviceRegisterIo>(
        &mut self,
        mem: &mut M,
        regs: &mut R,
        cmd: Command,
    ) -> (r: SubmitOutcome)
        requires
            old(self).wf(),
        ensures
            final(self).wf(),
            final(self).same_config(*old(self)),
            final(self).cq_head == old(self).cq_head,
            final(self).phase == old(self).phase,
            (r is Issued) == old(self).spec_can_issue(),
            r is Issued ==> {
                &&& final(self).outstanding == old(self).outstanding + 1
                &&& final(self).spec_pending() == old(self).spec_pending()
                &&& r->Issued_0 < old(self).depth - 1
            },
            r is Enqueued ==> {
                &&& final(self).outstanding == old(self).outstanding
                &&& final(self).spec_pending() == old(self).spec_pending().push(cmd)
                &&& final(self).sq_tail == old(self).sq_tail
            },
    {
        proof {
            if old(self).spec_can_issue() {
                assert(old(self).spec_free_ids().len() > 0);
            }
        }
        match self.free_ids.pop() {
            Some(cid) => {
                proof {
                    let fs = old(self).spec_free_ids();
                    assert(cid == fs[fs.len() - 1]);
                    assert(!old(self).spec_inflight()[cid as int]);
                }
                self.inflight[cid as usize] = true;
                self.outstanding = self.outstanding + 1;
                self.write_sqe(mem, regs, cmd, cid);
                proof {
                    let fs = old(self).spec_free_ids();
                    let fs2 = self.spec_free_ids();
                    assert(fs2 =~= fs.drop_last());
                    assert forall|i: int|
                        0 <= i < fs2.len() implies (#[trigger] fs2[i]) < self.depth - 1 && !self
                        .spec_inflight()[fs2[i] as int] by {
                        assert(fs2[i] == fs[i]);
                        assert(fs[i] != cid);  // no duplicates: cid sits at the last index only
                    }
                    assert forall|id: int|
                        0 <= id < self.depth - 1 && !(#[trigger] self.spec_inflight()[id]) implies
                        fs2.contains(id as u16) by {
                        assert(!old(self).spec_inflight()[id]);
                        assert(fs.contains(id as u16));
                        let j = choose|j: int| 0 <= j < fs.len() && fs[j] == id as u16;
                        assert(id != cid);
                        assert(j != fs.len() - 1);
                        assert(fs2[j] == id as u16);
                    }
                }
                SubmitOutcome::Issued(cid)
            },
            None => {
                self.pending.push(cmd);
                proof {
                    assert(old(self).spec_free_ids().len() == 0);
                    assert(!old(self).spec_can_issue());
                }
                SubmitOutcome::Enqueued
            },
        }
    }

    /// Retires the in-flight command id `cid`. If a submission is waiting in
    /// line, the oldest one is issued at once under the freed id and
    /// returned; otherwise the id goes back to the allocator.
    fn complete_one<M: DmaClient, R: DeviceRegisterIo>(
        &mut self,
        mem: &mut M,
        regs: &mut R,
        cid: u16,
    ) -> (rel: Option<Command>)
        requires
            old(self).wf(),
            cid < old(self).depth - 1,
            old(self).spec_inflight()[cid as int],
        ensures
            final(self).wf(),
            final(self).same_config(*old(self)),
            final(self).cq_head == old(self).cq_head,
            final(self).phase == old(self).phase,
            old(self).spec_pending().len() > 0 ==> {
                &&& rel == Some(old(self).spec_pending()[0])
                &&& final(self).spec_pending() == old(self).spec_pending().skip(1)
                &&& final(self).outstanding == old(self).outstanding
            },
            old(self).spec_pending().len() == 0 ==> {
                &&& rel is None
                &&& final(self).spec_pending().len() == 0
                &&& final(self).outstanding == old(self).outstanding - 1
            },
    {
        if self.pending.len() > 0 {
            // The freed id is immediately bound to the oldest waiting
            // submission: first in, first released.
            let cmd = self.pending.remove(0);
            self.write_sqe(mem, regs, cmd, cid);
            proof {
                assert(self.spec_pending() =~= old(self).spec_pending().skip(1));
            }
            Some(cmd)
        } else {
            self.inflight[cid as usize] = false;
            proof {
                // cid was in flight, so it is not among the free ids and the
                // allocator is not full.
                assert(!old(self).spec_free_ids().contains(cid)) by {
                    if old(self).spec_free_ids().contains(cid) {
                        let j = choose|j: int|
                            0 <= j < old(self).spec_free_ids().len() && old(self).spec_free_ids()[j]
                                == cid;
                        assert(!old(self).spec_inflight()[cid as int]);
                    }
                }
                assert(old(self).spec_free_ids().len() < old(self).depth - 1) by {
                    if old(self).spec_free_ids().len() == old(self).depth - 1 {
                        // A full free list would have to contain cid.
                        assert(old(self).spec_inflight()[cid as int]);
                        assert(false) by {
                            lemma_full_free_list_contains(
                                old(self).spec_free_ids(),
                                old(self).spec_inflight(),
                                cid,
                            );
                        }
                    }
                }
            }
            self.free_ids.push(cid);
            self.outstanding = self.outstanding - 1;
            proof {
                let fs = old(self).spec_free_ids();
                let fs2 = self.spec_free_ids();
                assert(fs2 =~= fs.push(cid));
                assert forall|a: int, b: int|
                    0 <= a < fs2.len() && 0 <= b < fs2.len() && a != b implies fs2[a] != fs2[b] by {
                    if a < fs.len() && b < fs.len() {
                        assert(fs.no_duplicates());
                    } else if a == fs.len() {
                        assert(fs2[b] == fs[b]);
                        assert(!old(self).spec_inflight()[fs[b] as int]);
                    } else if b == fs.len() {
                        assert(fs2[a] == fs[a]);
                        assert(!old(self).spec_inflight()[fs[a] as int]);
                    }
                }
                assert(fs2.no_duplicates());
                assert forall|id: int|
                    0 <= id < self.depth - 1 && !(#[trigger] self.spec_inflight()[id]) implies
                    fs2.contains(id as u16) by {
                    if id == cid {
                        assert(fs2[fs.len() as int] == cid);
                    } else {
                        assert(!old(self).spec_inflight()[id]);
                        assert(fs.contains(id as u16));
                        let j = choose|j: int| 0 <= j < fs.len() && fs[j] == id as u16;
                        assert(fs2[j] == id as u16);
                    }
                }
            }
            None
        }
    }

    /// Sweeps the completion ring: dequeues every new entry, retires its
    /// command id (issuing blocked submissions first in, first out), and
    /// rings the completion doorbell.
    ///
    /// Completions carry no ordering guarantee from the controller;
    /// correlation is solely by command id. A completion whose command id is
    /// not bound to an outstanding command is an internal-consistency fault:
    /// the sweep stops and the caller must treat the driver as faulted.
    pub fn process_completions<M: DmaClient, R: DeviceRegisterIo>(
        &mut self,
        mem: &mut M,
        regs: &mut R,
    ) -> (r: Result<ReapOutcome, NvmeError>)
        requires
            old(self).wf(),
        ensures
            final(self).wf(),
            final(self).same_config(*old(self)),
            r is Ok ==> {
                let out = r->Ok_0;
                &&& out.released@.len() <= old(self).spec_pending().len()
                &&& out.released@ == old(self).spec_pending().take(out.released@.len() as int)
                &&& final(self).spec_pending() == old(self).spec_pending().skip(
                    out.released@.len() as int,
                )
                &&& out.released@.len() <= out.completed@.len()
                &&& final(self).outstanding == old(self).outstanding - out.completed@.len()
                    + out.released@.len()
            },
            r is Err ==> r->Err_0 == NvmeError::Faulted,
            // Even a faulting sweep only ever pops the waiting line from the
            // front.
            r is Err ==> final(self).spec_pending().len() <= old(self).spec_pending().len()
                && final(self).spec_pending() == old(self).spec_pending().skip(
                old(self).spec_pending().len() - final(self).spec_pending().len(),
            ),
    {
        let mut completed: Vec<Completion> = Vec::new();
        let mut released: Vec<Command> = Vec::new();
        loop
            invariant
                self.wf(),
                self.same_config(*old(self)),
                released@.len() <= old(self).spec_pending().len(),
                released@ == old(self).spec_pending().take(released@.len() as int),
                self.spec_pending() == old(self).spec_pending().skip(released@.len() as int),
                released@.len() <= completed@.len(),
                self.outstanding == old(self).outstanding - completed@.len() + released@.len(),
            decreases self.outstanding + self.spec_pending().len(),
        {
            let slot_addr: u64 = self.cq_base + (self.cq_head as u64) * CQE_BYTES;
            let raw = mem.read_bytes(slot_addr, CQE_BYTES);
            let entry = decode_cqe(&raw);
            if entry.phase != self.phase {
                // No new entry: the sweep is done.
                break;
            }
            if (entry.cid as u32) >= self.depth - 1 {
                return Err(NvmeError::Faulted);
            }
            let was_inflight = self.inflight[entry.cid as usize];
            if !was_inflight {
                // A completion nobody is waiting for: hardware or driver bug.
                return Err(NvmeError::Faulted);
            }
            let rel = self.complete_one(mem, regs, entry.cid);
            match rel {
                Some(cmd) => {
                    released.push(cmd);
                    proof {
                        let n = released@.len() as int;
                        assert(old(self).spec_pending().skip(n - 1)[0] == old(
                            self,
                        ).spec_pending()[n - 1]);
                        assert(released@ =~= old(self).spec_pending().take(n));
                        assert(old(self).spec_pending().skip(n - 1).skip(1) =~= old(
                            self,
                        ).spec_pending().skip(n));
                    }
                },
                None => {
                },
            }
            completed.push(entry);
            // Consume the ring slot; on wrap-around the expected phase flips.
            if self.cq_head + 1 == self.depth {
                self.cq_head = 0;
                self.phase = !self.phase;
            } else {
                self.cq_head = self.cq_head + 1;
            }
        }
        if completed.len() > 0 {
            regs.write_u32(self.cq_db_offset, self.cq_head);
        }
        Ok(ReapOutcome { completed, released })
    }
}

/// Blocked submitters are released first in, first out.
///
/// `submit` appends a blocked submission at the back of the waiting line, and
/// every completion sweep releases a prefix of the line, in order (see the
/// contracts of [`QueuePair::submit`] and [`QueuePair::process_completions`]).
/// This law states that successive prefix releases preserve the original
/// submission order: a sweep releasing `k1` submissions followed by one
/// releasing `k2` more releases exactly the first `k1 + k2` submissions of
/// the line, in the order they were enqueued — even though the completions
/// that free the ids may arrive in any order.
pub proof fn lemma_fifo_release(pending: Seq<Command>, k1: int, k2: int)
    requires
        0 <= k1,
        0 <= k2,
        k1 + k2 <= pending.len(),
    ensures
        pending.take(k1) + pending.skip(k1).take(k2) == pending.take(k1 + k2),
        pending.skip(k1).skip(k2) == pending.skip(k1 + k2),
{
    assert(pending.take(k1) + pending.skip(k1).take(k2) =~= pending.take(k1 + k2));
    assert(pending.skip(k1).skip(k2) =~= pending.skip(k1 + k2));
}

/// A free list that is full (holds `depth - 1` distinct ids all below
/// `depth - 1`) contains every id below `depth - 1`: the pigeonhole argument
/// behind "an in-flight id is never also free".
proof fn lemma_full_free_list_contains(fs: Seq<u16>, inflight: Seq<bool>, cid: u16)
    requires
        fs.no_duplicates(),
        forall|i: int| 0 <= i < fs.len() ==> (#[trigger] fs[i]) < inflight.len(),
        fs.len() == inflight.len(),
        cid < inflight.len(),
    ensures
        fs.contains(cid),
{
    broadcast use vstd::set::group_set_axioms;

    if !fs.contains(cid) {
        let bound = inflight.len() as int;
        let to_int = |x: u16| x as int;
        let fs_int = fs.map_values(to_int);
        assert forall|a: int, b: int|
            0 <= a < fs_int.len() && 0 <= b < fs_int.len() && a != b implies fs_int[a]
            != fs_int[b] by {
            assert(fs[a] != fs[b]);
        }
        assert(fs_int.no_duplicates());
        fs_int.unique_seq_to_set();
        let range = vstd::set_lib::set_int_range(0, bound);
        vstd::set_lib::lemma_int_range(0, bound);
        let holes = range.remove(cid as int);
        assert forall|x: int| fs_int.to_set().contains(x) implies holes.contains(x) by {
            let j = choose|j: int| 0 <= j < fs_int.len() && fs_int[j] == x;
            assert(fs[j] < bound);
            assert(fs[j] != cid) by {
                if fs[j] == cid {
                    assert(fs.contains(cid));
                }
            }
        }
        assert(holes.len() == bound - 1);
        vstd::set_lib::lemma_len_subset(fs_int.to_set(), holes);
        assert(fs.len() <= bound - 1);
        assert(false);
    }
}

} // verus!
