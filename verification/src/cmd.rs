//! The NVMe command and completion wire format.
//!
//! Submission-queue entries are 64 bytes (sixteen little-endian dwords) and
//! completion-queue entries are 16 bytes (four dwords), laid out per the NVMe
//! specification. This driver does not invent new fields: everything it does
//! not use is encoded as zero.

use vstd::bytes::*;
use vstd::prelude::*;

verus! {

/// NVM command set: write.
pub const OPCODE_WRITE: u8 = 0x01;

/// NVM command set: read.
pub const OPCODE_READ: u8 = 0x02;

/// NVM command set: dataset management (deallocate).
pub const OPCODE_DSM: u8 = 0x09;

/// Admin command set: delete I/O submission queue.
pub const ADMIN_DELETE_IO_SQ: u8 = 0x00;

/// Admin command set: create I/O submission queue.
pub const ADMIN_CREATE_IO_SQ: u8 = 0x01;

/// Admin command set: delete I/O completion queue.
pub const ADMIN_DELETE_IO_CQ: u8 = 0x04;

/// Admin command set: create I/O completion queue.
pub const ADMIN_CREATE_IO_CQ: u8 = 0x05;

/// Admin command set: identify.
pub const ADMIN_IDENTIFY: u8 = 0x06;

/// Size in bytes of one submission-queue entry.
pub const SQE_BYTES: u64 = 64;

/// Size in bytes of one completion-queue entry.
pub const CQE_BYTES: u64 = 16;

/// One command, in structured form, before it is encoded into a
/// submission-queue slot.
#[derive(Debug, Clone, Copy, PartialEq, Eq, Structural)]
pub struct Command {
    /// Command opcode.
    pub opcode: u8,
    /// Namespace the command addresses, or 0 for admin commands without one.
    pub nsid: u32,
    /// First physical-region-page pointer.
    pub prp1: u64,
    /// Second physical-region-page pointer, or pointer to a PRP list.
    pub prp2: u64,
    /// Command dword 10.
    pub cdw10: u32,
    /// Command dword 11.
    pub cdw11: u32,
    /// Command dword 12.
    pub cdw12: u32,
}

/// Command dword 0: opcode in bits 7:0, command id in bits 31:16.
pub open spec fn spec_cdw0(opcode: u8, cid: u16) -> u32 {
    (opcode as u32) | ((cid as u32) << 16)
}

/// The 64-byte submission-queue entry for `c` issued under command id `cid`.
pub open spec fn spec_encode_sqe(c: Command, cid: u16) -> Seq<u8> {
    spec_u32_to_le_bytes(spec_cdw0(c.opcode, cid)) + spec_u32_to_le_bytes(c.nsid)
        + spec_u64_to_le_bytes(0) + spec_u64_to_le_bytes(0)  // cdw2-5: unused
        + spec_u64_to_le_bytes(c.prp1) + spec_u64_to_le_bytes(c.prp2)
        + spec_u32_to_le_bytes(c.cdw10) + spec_u32_to_le_bytes(c.cdw11)
        + spec_u32_to_le_bytes(c.cdw12)
        + spec_u32_to_le_bytes(0) + spec_u32_to_le_bytes(0) + spec_u32_to_le_bytes(0)  // cdw13-15
}

/// Appends the four little-endian bytes of `x` to `v`.
pub fn push_u32_le(v: &mut Vec<u8>, x: u32)
    ensures
        final(v)@ == old(v)@ + spec_u32_to_le_bytes(x),
        final(v)@.len() == old(v)@.len() + 4,
{
    proof {
        lemma_auto_spec_u32_to_from_le_bytes();
    }
    let mut b = u32_to_le_bytes(x);
    v.append(&mut b);
}

/// Appends the eight little-endian bytes of `x` to `v`.
pub fn push_u64_le(v: &mut Vec<u8>, x: u64)
    ensures
        final(v)@ == old(v)@ + spec_u64_to_le_bytes(x),
        final(v)@.len() == old(v)@.len() + 8,
{
    proof {
        lemma_auto_spec_u64_to_from_le_bytes();
    }
    let mut b = u64_to_le_bytes(x);
    v.append(&mut b);
}

impl Command {
    /// Encodes the command as the 64-byte submission-queue entry it occupies
    /// once issued under command id `cid`.
    pub fn encode_sqe(&self, cid: u16) -> (r: Vec<u8>)
        ensures
            r@ == spec_encode_sqe(*self, cid),
            r@.len() == SQE_BYTES,
    {
        let cdw0: u32 = (self.opcode as u32) | ((cid as u32) << 16);
        proof {
            assert((cid as u32) << 16 <= 0xffff0000) by (bit_vector);
            lemma_auto_spec_u32_to_from_le_bytes();
            lemma_auto_spec_u64_to_from_le_bytes();
        }
        let mut r: Vec<u8> = Vec::new();
        push_u32_le(&mut r, cdw0);
        push_u32_le(&mut r, self.nsid);
        push_u64_le(&mut r, 0);
        push_u64_le(&mut r, 0);
        push_u64_le(&mut r, self.prp1);
        push_u64_le(&mut r, self.prp2);
        push_u32_le(&mut r, self.cdw10);
        push_u32_le(&mut r, self.cdw11);
        push_u32_le(&mut r, self.cdw12);
        push_u32_le(&mut r, 0);
        push_u32_le(&mut r, 0);
        push_u32_le(&mut r, 0);
        assert(r@ =~= spec_encode_sqe(*self, cid));
        r
    }

    /// An NVM read: `block_count` logical blocks starting at `lba`.
    /// The block count is encoded zero-based in dword 12.
    pub fn read(nsid: u32, lba: u64, block_count: u32, prp1: u64, prp2: u64) -> (r: Command)
        requires
            1 <= block_count <= 0x10000,
        ensures
            r.opcode == OPCODE_READ,
            r.nsid == nsid,
            r.prp1 == prp1,
            r.prp2 == prp2,
            r.cdw10 == lba as u32 as int,
            r.cdw11 == lba >> 32,
            r.cdw12 == block_count - 1,
    {
        proof {
            assert(lba >> 32 <= 0xffffffff) by (bit_vector);
        }
        Command {
            opcode: OPCODE_READ,
            nsid,
            prp1,
            prp2,
            cdw10: lba as u32,
            cdw11: (lba >> 32) as u32,
            cdw12: block_count - 1,
        }
    }

    /// An NVM write: `block_count` logical blocks starting at `lba`;
    /// bit 30 of dword 12 is the force-unit-access flag.
    pub fn write(nsid: u32, lba: u64, block_count: u32, fua: bool, prp1: u64, prp2: u64) -> (r:
        Command)
        requires
            1 <= block_count <= 0x10000,
        ensures
            r.opcode == OPCODE_WRITE,
            r.nsid == nsid,
            r.prp1 == prp1,
            r.prp2 == prp2,
            r.cdw10 == lba as u32 as int,
            r.cdw11 == lba >> 32,
            r.cdw12 == (block_count - 1) as u32 | (if fua {
                0x4000_0000u32
            } else {
                0u32
            }),
    {
        proof {
            assert(lba >> 32 <= 0xffffffff) by (bit_vector);
        }
        Command {
            opcode: OPCODE_WRITE,
            nsid,
            prp1,
            prp2,
            cdw10: lba as u32,
            cdw11: (lba >> 32) as u32,
            cdw12: (block_count - 1) | (if fua {
                0x4000_0000u32
            } else {
                0u32
            }),
        }
    }

    /// A dataset-management deallocate over `range_count` ranges, whose
    /// 16-byte descriptors `prp1` points at. The range count is encoded
    /// zero-based in dword 10; bit 2 of dword 11 selects deallocation.
    pub fn dataset_management(nsid: u32, range_count: u32, prp1: u64) -> (r: Command)
        requires
            1 <= range_count <= 256,
        ensures
            r.opcode == OPCODE_DSM,
            r.nsid == nsid,
            r.prp1 == prp1,
            r.prp2 == 0,
            r.cdw10 == range_count - 1,
            r.cdw11 == 0x4,
            r.cdw12 == 0,
    {
        Command {
            opcode: OPCODE_DSM,
            nsid,
            prp1,
            prp2: 0,
            cdw10: range_count - 1,
            cdw11: 0x4,
            cdw12: 0,
        }
    }

    /// An admin identify-namespace command; `prp1` receives the 4096-byte
    /// identify structure.
    pub fn identify_namespace(nsid: u32, prp1: u64) -> (r: Command)
        ensures
            r.opcode == ADMIN_IDENTIFY,
            r.nsid == nsid,
            r.prp1 == prp1,
            r.cdw10 == 0,
            r.prp2 == 0,
            r.cdw11 == 0,
            r.cdw12 == 0,
    {
        Command { opcode: ADMIN_IDENTIFY, nsid, prp1, prp2: 0, cdw10: 0, cdw11: 0, cdw12: 0 }
    }

    /// An admin create-I/O-completion-queue command for queue `qid` with
    /// `depth` entries (encoded zero-based), physically contiguous, with
    /// interrupts enabled on vector `iv`.
    pub fn create_io_cq(qid: u16, depth: u32, base: u64, iv: u16) -> (r: Command)
        requires
            2 <= depth <= 0x10000,
        ensures
            r.opcode == ADMIN_CREATE_IO_CQ,
            r.nsid == 0,
            r.prp1 == base,
            r.cdw10 == (qid as u32) | (((depth - 1) as u32) << 16),
            r.cdw11 == 3u32 | ((iv as u32) << 16),
            r.prp2 == 0,
            r.cdw12 == 0,
    {
        Command {
            opcode: ADMIN_CREATE_IO_CQ,
            nsid: 0,
            prp1: base,
            prp2: 0,
            cdw10: (qid as u32) | (((depth - 1) as u32) << 16),
            cdw11: 3u32 | ((iv as u32) << 16),
            cdw12: 0,
        }
    }

    /// An admin create-I/O-submission-queue command for queue `qid` with
    /// `depth` entries (encoded zero-based), physically contiguous, completing
    /// onto completion queue `cqid`.
    pub fn create_io_sq(qid: u16, depth: u32, base: u64, cqid: u16) -> (r: Command)
        requires
            2 <= depth <= 0x10000,
        ensures
            r.opcode == ADMIN_CREATE_IO_SQ,
            r.nsid == 0,
            r.prp1 == base,
            r.cdw10 == (qid as u32) | (((depth - 1) as u32) << 16),
            r.cdw11 == 1u32 | ((cqid as u32) << 16),
            r.prp2 == 0,
            r.cdw12 == 0,
    {
        Command {
            opcode: ADMIN_CREATE_IO_SQ,
            nsid: 0,
            prp1: base,
            prp2: 0,
            cdw10: (qid as u32) | (((depth - 1) as u32) << 16),
            cdw11: 1u32 | ((cqid as u32) << 16),
            cdw12: 0,
        }
    }

    /// An admin delete-I/O-submission-queue command.
    pub fn delete_io_sq(qid: u16) -> (r: Command)
        ensures
            r.opcode == ADMIN_DELETE_IO_SQ,
            r.cdw10 == qid,
            r.nsid == 0,
            r.prp1 == 0,
            r.prp2 == 0,
            r.cdw11 == 0,
            r.cdw12 == 0,
    {
        Command {
            opcode: ADMIN_DELETE_IO_SQ,
            nsid: 0,
            prp1: 0,
            prp2: 0,
            cdw10: qid as u32,
            cdw11: 0,
            cdw12: 0,
        }
    }

    /// An admin delete-I/O-completion-queue command.
    pub fn delete_io_cq(qid: u16) -> (r: Command)
        ensures
            r.opcode == ADMIN_DELETE_IO_CQ,
            r.cdw10 == qid,
            r.nsid == 0,
            r.prp1 == 0,
            r.prp2 == 0,
            r.cdw11 == 0,
            r.cdw12 == 0,
    {
        Command {
            opcode: ADMIN_DELETE_IO_CQ,
            nsid: 0,
            prp1: 0,
            prp2: 0,
            cdw10: qid as u32,
            cdw11: 0,
            cdw12: 0,
        }
    }
}

/// One decoded completion-queue entry.
#[derive(Debug, Clone, Copy, PartialEq, Eq, Structural)]
pub struct Completion {
    /// Command id of the command this entry completes.
    pub cid: u16,
    /// Status field (dword 3 bits 31:17): zero on success.
    pub status: u16,
    /// The entry's phase bit.
    pub phase: bool,
    /// Command-specific dword 0.
    pub dw0: u32,
}

/// The command id held in a raw 16-byte completion entry.
pub open spec fn spec_cqe_cid(b: Seq<u8>) -> u16 {
    spec_u16_from_le_bytes(b.subrange(12, 14))
}

/// The status field held in a raw completion entry.
pub open spec fn spec_cqe_status(b: Seq<u8>) -> u16 {
    spec_u16_from_le_bytes(b.subrange(14, 16)) >> 1
}

/// The phase bit held in a raw completion entry.
pub open spec fn spec_cqe_phase(b: Seq<u8>) -> bool {
    spec_u16_from_le_bytes(b.subrange(14, 16)) & 1 == 1
}

/// Decodes a raw 16-byte completion-queue entry.
pub fn decode_cqe(b: &Vec<u8>) -> (r: Completion)
    requires
        b@.len() == CQE_BYTES,
    ensures
        r.cid == spec_cqe_cid(b@),
        r.status == spec_cqe_status(b@),
        r.phase == spec_cqe_phase(b@),
        r.dw0 == spec_u32_from_le_bytes(b@.subrange(0, 4)),
{
    let s = b.as_slice();
    let dw0_bytes = vstd::slice::slice_subrange(s, 0, 4);
    let cid_bytes = vstd::slice::slice_subrange(s, 12, 14);
    let sp_bytes = vstd::slice::slice_subrange(s, 14, 16);
    let dw0 = u32_from_le_bytes(dw0_bytes);
    let cid = u16_from_le_bytes(cid_bytes);
    let sp = u16_from_le_bytes(sp_bytes);
    Completion { cid, status: sp >> 1, phase: sp & 1 == 1, dw0 }
}

/// One range of a dataset-management (deallocate) command.
#[derive(Debug, Clone, Copy, PartialEq, Eq, Structural)]
pub struct DsmRange {
    /// Context attributes; passed through to the controller.
    pub context_attributes: u32,
    /// Number of logical blocks in the range.
    pub lba_count: u32,
    /// First logical block of the range.
    pub starting_lba: u64,
}

/// The 16-byte descriptor of one dataset-management range.
pub open spec fn spec_encode_dsm_range(r: DsmRange) -> Seq<u8> {
    spec_u32_to_le_bytes(r.context_attributes) + spec_u32_to_le_bytes(r.lba_count)
        + spec_u64_to_le_bytes(r.starting_lba)
}

/// The buffer of descriptors for `ranges`, in the order given. Ranges are
/// passed through exactly as the caller supplied them: the driver neither
/// coalesces, reorders nor checks them for overlap.
pub open spec fn spec_encode_dsm_ranges(ranges: Seq<DsmRange>) -> Seq<u8>
    decreases ranges.len(),
{
    if ranges.len() == 0 {
        Seq::empty()
    } else {
        spec_encode_dsm_ranges(ranges.drop_last()) + spec_encode_dsm_range(ranges.last())
    }
}

/// Each range occupies 16 bytes of the descriptor buffer.
pub proof fn lemma_dsm_ranges_len(ranges: Seq<DsmRange>)
    ensures
        spec_encode_dsm_ranges(ranges).len() == 16 * ranges.len(),
    decreases ranges.len(),
{
    lemma_auto_spec_u32_to_from_le_bytes();
    lemma_auto_spec_u64_to_from_le_bytes();
    if ranges.len() > 0 {
        lemma_dsm_ranges_len(ranges.drop_last());
    }
}

/// Encodes the descriptor buffer for a dataset-management command.
pub fn encode_dsm_ranges(ranges: &Vec<DsmRange>) -> (r: Vec<u8>)
    ensures
        r@ == spec_encode_dsm_ranges(ranges@),
        r@.len() == 16 * ranges@.len(),
{
    let mut r: Vec<u8> = Vec::new();
    let mut i: usize = 0;
    while i < ranges.len()
        invariant
            i <= ranges@.len(),
            r@ == spec_encode_dsm_ranges(ranges@.take(i as int)),
        decreases ranges@.len() - i,
    {
        let rg = ranges[i];
        push_u32_le(&mut r, rg.context_attributes);
        push_u32_le(&mut r, rg.lba_count);
        push_u64_le(&mut r, rg.starting_lba);
        proof {
            assert(ranges@.take(i + 1).drop_last() =~= ranges@.take(i as int));
            assert(ranges@.take(i + 1).last() == ranges@[i as int]);
        }
        i = i + 1;
    }
    proof {
        assert(ranges@.take(ranges@.len() as int) =~= ranges@);
        lemma_dsm_ranges_len(ranges@);
    }
    r
}

} // verus!
