//! Namespaces: per-namespace views exposing read, write and deallocate.
//!
//! A namespace's geometry (logical block size and block count) is learned via
//! an Identify Namespace admin command and is immutable once created. I/O on
//! a namespace routes through the queue pair selected for the calling CPU by
//! the driver's fallback routing table.

use vstd::bytes::{spec_u64_from_le_bytes, spec_u64_to_le_bytes, u64_from_le_bytes};
use vstd::prelude::*;

use crate::cmd::{encode_dsm_ranges, push_u64_le, Command, DsmRange};
use crate::device::{DeviceBacking, DmaClient, MAX_DMA_ADDR, PAGE_SIZE};
use crate::driver::NvmeDriver;
use crate::error::NvmeError;

verus! {

/// Smallest logical block size the driver accepts (2^9 bytes).
pub const MIN_LBA_SHIFT: u8 = 9;

/// Largest logical block size the driver accepts (2^24 bytes).
pub const MAX_LBA_SHIFT: u8 = 24;

/// One namespace's identity and geometry.
#[derive(Debug, Clone, Copy, PartialEq, Eq, Structural)]
pub struct Namespace {
    /// Namespace id.
    pub nsid: u32,
    /// Number of logical blocks.
    pub block_count: u64,
    /// Bytes per logical block; a power of two.
    pub block_shift: u8,
}

impl Namespace {
    /// Geometry the rest of the driver relies on: the block size is a power
    /// of two between 512 bytes and 16 MiB.
    pub open spec fn wf(self) -> bool {
        MIN_LBA_SHIFT <= self.block_shift <= MAX_LBA_SHIFT
    }

    /// Bytes per logical block.
    pub fn block_size(&self) -> (r: u32)
        requires
            self.wf(),
        ensures
            r == (1u32 << self.block_shift as u32),
            512 <= r <= 0x100_0000,
    {
        let r: u32 = 1u32 << (self.block_shift as u32);
        proof {
            let s = self.block_shift as u32;
            assert(9 <= s <= 24 ==> 512 <= (1u32 << s) <= 0x100_0000) by (bit_vector);
        }
        r
    }
}

/// Field offsets within the 4096-byte identify-namespace structure: the
/// namespace size in blocks.
pub open spec fn spec_identify_nsze(data: Seq<u8>) -> u64 {
    spec_u64_from_le_bytes(data.subrange(0, 8))
}

/// The selected LBA-format index: low nibble of the byte at offset 26.
pub open spec fn spec_identify_flbas(data: Seq<u8>) -> u8 {
    data[26] & 0xf
}

/// The block-size exponent of LBA format `idx`: byte 2 of the 4-byte format
/// descriptor at offset 128 + 4 * idx.
pub open spec fn spec_identify_lbads(data: Seq<u8>, idx: u8) -> u8 {
    data[128 + 4 * (idx as int) + 2]
}

/// Parses the identify-namespace structure into a [`Namespace`], rejecting
/// geometry the driver cannot drive (a block size outside 2^9..2^24 bytes, or
/// a namespace of zero blocks).
pub fn parse_identify_namespace(nsid: u32, data: &Vec<u8>) -> (r: Option<Namespace>)
    requires
        data@.len() == 4096,
    ensures
        r is Some ==> {
            let ns = r->Some_0;
            &&& ns.wf()
            &&& ns.nsid == nsid
            &&& ns.block_count == spec_identify_nsze(data@)
            &&& ns.block_shift == spec_identify_lbads(data@, spec_identify_flbas(data@))
        },
        r is Some <==> (spec_identify_nsze(data@) > 0 && MIN_LBA_SHIFT <= spec_identify_lbads(
            data@,
            spec_identify_flbas(data@),
        ) <= MAX_LBA_SHIFT),
{
    let nsze_bytes = vstd::slice::slice_subrange(data.as_slice(), 0, 8);
    let nsze = u64_from_le_bytes(nsze_bytes);
    let flbas: u8 = data[26] & 0xf;
    proof {
        let b = data@[26];
        assert(b & 0xf <= 0xf) by (bit_vector);
    }
    let lbads: u8 = data[128 + 4 * (flbas as usize) + 2];
    if nsze == 0 || lbads < MIN_LBA_SHIFT || lbads > MAX_LBA_SHIFT {
        return None;
    }
    Some(Namespace { nsid, block_count: nsze, block_shift: lbads })
}

/// A caller-provided memory region an I/O command reads from or writes to.
///
/// When the backing memory is not DMA-capable, the driver copies through an
/// internally owned bounce buffer before or after submission; the caller
/// observes the same bytes either way.
#[derive(Debug, Clone, Copy, PartialEq, Eq, Structural)]
pub struct DmaRegion {
    /// First byte address of the region.
    pub base: u64,
    /// Length of the region in bytes.
    pub len: u64,
    /// Whether the controller may address this memory directly.
    pub dma_capable: bool,
}

/// Most physical-region-page entries one command can carry: one list page.
pub const PRP_LIST_ENTRIES: u64 = 512;

/// Pages a transfer starting at `base % PAGE_SIZE` of `len` bytes touches.
pub open spec fn spec_region_pages(base: u64, len: u64) -> int {
    (base % PAGE_SIZE + len + (PAGE_SIZE - 1)) as int / PAGE_SIZE as int
}

/// Whether a transfer over `[base, base + len)` can be described as a
/// physical-region list: dword-aligned, non-empty, within the DMA address
/// space, and spanning at most one list page's worth of pages.
pub open spec fn spec_region_mappable(base: u64, len: u64) -> bool {
    &&& base % 4 == 0
    &&& 1 <= len
    &&& base + len < MAX_DMA_ADDR
    &&& spec_region_pages(base, len) <= PRP_LIST_ENTRIES + 1
}

/// The physical-region list entries after the first: the addresses of the
/// `count` page boundaries following `first_page`, each as eight
/// little-endian bytes.
pub open spec fn spec_prp_list(first_page: u64, count: int) -> Seq<u8>
    decreases count,
{
    if count <= 0 {
        Seq::empty()
    } else {
        spec_prp_list(first_page, count - 1) + spec_u64_to_le_bytes(
            (first_page + count * PAGE_SIZE) as u64,
        )
    }
}

/// The physical-region pointers of one command, together with the list page
/// that carries the overflow entries when the transfer spans more than two
/// pages. The caller owns the list page and returns it to the allocator once
/// the command has retired.
#[derive(Debug, Clone, Copy)]
pub struct PrpSet {
    /// First physical-region pointer.
    pub prp1: u64,
    /// Second physical-region pointer, or the list page address.
    pub prp2: u64,
    /// The allocated list page, when one was needed; equals `prp2` then.
    pub list_page: Option<u64>,
}

/// Builds the physical-region pointers for a transfer over
/// `[base, base + len)`: the first pointer carries the region's page offset;
/// a second page is pointed at directly; more pages go through a list written
/// into a freshly allocated page.
pub fn build_prps<M: DmaClient>(mem: &mut M, base: u64, len: u64) -> (r: Result<
    PrpSet,
    NvmeError,
>)
    ensures
        !spec_region_mappable(base, len) ==> (r is Err && r->Err_0 == NvmeError::DmaMapping),
        // A transfer that needs no list page involves no allocation and
        // always succeeds; only a list-page transfer may fail through the
        // allocator.
        (spec_region_mappable(base, len) && spec_region_pages(base, len) <= 2) ==> r is Ok,
        r is Ok ==> {
            &&& spec_region_mappable(base, len)
            &&& r->Ok_0.prp1 == base
            &&& (spec_region_pages(base, len) == 1 ==> (r->Ok_0.prp2 == 0 && r->Ok_0.list_page
                is None))
            &&& (spec_region_pages(base, len) == 2 ==> (r->Ok_0.prp2 == base - (base % PAGE_SIZE)
                + PAGE_SIZE && r->Ok_0.list_page is None))
            &&& (spec_region_pages(base, len) > 2 ==> r->Ok_0.list_page == Some(r->Ok_0.prp2))
        },
        r is Err ==> r->Err_0 == NvmeError::DmaMapping,
{
    if base % 4 != 0 || len == 0 {
        return Err(NvmeError::DmaMapping);
    }
    if base >= MAX_DMA_ADDR || MAX_DMA_ADDR - base <= len {
        return Err(NvmeError::DmaMapping);
    }
    let offset = base % PAGE_SIZE;
    let first_page = base - offset;
    let n_pages = (offset + len + (PAGE_SIZE - 1)) / PAGE_SIZE;
    if n_pages > PRP_LIST_ENTRIES + 1 {
        return Err(NvmeError::DmaMapping);
    }
    if n_pages == 1 {
        return Ok(PrpSet { prp1: base, prp2: 0, list_page: None });
    }
    if n_pages == 2 {
        return Ok(PrpSet { prp1: base, prp2: first_page + PAGE_SIZE, list_page: None });
    }
    // More than two pages: write the remaining page addresses into one list
    // page and point the second pointer at it.
    let list_addr = match mem.allocate_pages(1) {
        Some(a) => a,
        None => {
            return Err(NvmeError::DmaMapping);
        },
    };
    let mut entries: Vec<u8> = Vec::new();
    let mut k: u64 = 1;
    proof {
        assert(first_page + n_pages * PAGE_SIZE < MAX_DMA_ADDR + 2 * PAGE_SIZE);
    }
    while k < n_pages
        invariant
            1 <= k <= n_pages,
            2 < n_pages <= PRP_LIST_ENTRIES + 1,
            first_page + n_pages * PAGE_SIZE < MAX_DMA_ADDR + 2 * PAGE_SIZE,
            first_page % PAGE_SIZE == 0,
            entries@ == spec_prp_list(first_page, k - 1),
        decreases n_pages - k,
    {
        push_u64_le(&mut entries, first_page + k * PAGE_SIZE);
        k = k + 1;
    }
    mem.write_bytes(list_addr, &entries);
    Ok(PrpSet { prp1: base, prp2: list_addr, list_page: Some(list_addr) })
}

/// Bytes moved by a transfer of `block_count` logical blocks of `ns`.
pub open spec fn spec_transfer_bytes(ns: Namespace, block_count: u32) -> int {
    (block_count as int) * ((1u32 << (ns.block_shift as u32)) as int)
}

impl Namespace {
    /// Builds, submits and awaits one read or write, copying through a bounce
    /// buffer when the caller's region is not DMA-capable. The bytes the
    /// caller observes are the same on either path. Staging pages go back to
    /// the allocator once the matching completion retires the command — never
    /// while the controller may still address them.
    fn transfer<D: DeviceBacking>(
        &self,
        driver: &mut NvmeDriver<D>,
        target_cpu: u32,
        lba: u64,
        block_count: u32,
        is_write: bool,
        fua: bool,
        mem_region: &DmaRegion,
    ) -> (r: Result<(), NvmeError>)
        requires
            self.wf(),
            old(driver).wf(),
            old(driver).state is Operational,
            target_cpu < old(driver).cpu_count,
            1 <= block_count <= 0x10000,
        ensures
            final(driver).wf(),
            final(driver).cpu_count == old(driver).cpu_count,
            final(driver).caps == old(driver).caps,
            r is Ok ==> final(driver).state is Operational,
            // A region too small for the transfer is the library's own
            // mapping error, raised before anything reaches the device.
            spec_transfer_bytes(*self, block_count) > mem_region.len ==> (r is Err && r->Err_0
                == NvmeError::DmaMapping),
            // A direct region that cannot be described as a physical-region
            // list never succeeds.
            (mem_region.dma_capable && spec_transfer_bytes(*self, block_count) <= mem_region.len
                && !spec_region_mappable(
                mem_region.base,
                spec_transfer_bytes(*self, block_count) as u64,
            )) ==> r is Err,
            !(old(driver).spec_route(target_cpu as int) is Unassigned) ==> (final(driver).fallback_count == old(driver).fallback_count && final(driver).fallback_cpus@ == old(driver).fallback_cpus@ && final(driver).routing@ == old(driver).routing@),
            (old(driver).spec_route(target_cpu as int) is Unassigned && r is Ok) ==> {
                &&& (final(driver).spec_route(target_cpu as int) is Dedicated ==> (final(driver).fallback_count == old(driver).fallback_count && final(driver).fallback_cpus@
                    == old(driver).fallback_cpus@))
                &&& (final(driver).spec_route(target_cpu as int) is Shared ==> (final(driver).fallback_count == old(driver).fallback_count + 1 && final(driver).fallback_cpus@
                    == old(driver).fallback_cpus@.push(target_cpu)))
                &&& (final(driver).spec_route(target_cpu as int) is Dedicated || final(driver).spec_route(target_cpu as int) is Shared)
            },
            final(driver).fallback_count == old(driver).fallback_count || final(driver).fallback_count == old(driver).fallback_count + 1,
    {
        let block_size = self.block_size();
        proof {
            assert((block_count as u64) * (block_size as u64) <= 0x10000 * 0x100_0000)
                by (nonlinear_arith)
                requires
                    block_count <= 0x10000,
                    block_size <= 0x100_0000,
            ;
        }
        let len: u64 = (block_count as u64) * (block_size as u64);
        if len > mem_region.len {
            return Err(NvmeError::DmaMapping);
        }
        let direct = mem_region.dma_capable;
        let data_base: u64;
        let mut bounce_pages: u64 = 0;
        if direct {
            data_base = mem_region.base;
        } else {
            // Bounce buffering: the transfer runs over driver-owned pages,
            // exclusively held for this one command.
            bounce_pages = len / PAGE_SIZE + 1;
            data_base = match driver.mem.allocate_pages(bounce_pages) {
                Some(a) => a,
                None => {
                    return Err(NvmeError::DmaMapping);
                },
            };
            if is_write {
                // Stage the caller's bytes into the bounce buffer.
                let data = driver.mem.read_bytes(mem_region.base, len);
                driver.mem.write_bytes(data_base, &data);
            }
        }
        let prps = match build_prps(&mut driver.mem, data_base, len) {
            Ok(p) => p,
            Err(e) => {
                if !direct {
                    // Nothing reached the device; the bounce pages can go
                    // straight back.
                    driver.mem.release_pages(data_base, bounce_pages);
                }
                return Err(e);
            },
        };
        let cmd = if is_write {
            Command::write(self.nsid, lba, block_count, fua, prps.prp1, prps.prp2)
        } else {
            Command::read(self.nsid, lba, block_count, prps.prp1, prps.prp2)
        };
        let c = match driver.io_command(target_cpu, cmd) {
            Ok(c) => c,
            Err(e) => {
                // The command may still be owned by the controller and still
                // addressing the staging pages: they must not be freed until
                // a completion (or shutdown) retires it.
                return Err(e);
            },
        };
        // The matching completion arrived: the command has retired and its
        // staging pages can go back to the allocator.
        if c.status != 0 {
            if let Some(list) = prps.list_page {
                driver.mem.release_pages(list, 1);
            }
            if !direct {
                driver.mem.release_pages(data_base, bounce_pages);
            }
            return Err(NvmeError::NvmeStatus(c.status));
        }
        if !direct && !is_write {
            // Unstage: hand the controller's bytes back to the caller.
            let data = driver.mem.read_bytes(data_base, len);
            driver.mem.write_bytes(mem_region.base, &data);
        }
        if let Some(list) = prps.list_page {
            driver.mem.release_pages(list, 1);
        }
        if !direct {
            driver.mem.release_pages(data_base, bounce_pages);
        }
        Ok(())
    }

    /// Reads `block_count` logical blocks starting at `lba` into
    /// `mem_region`, routed through the queue pair serving `target_cpu`.
    /// A zero-length read completes at once; a region too small or not
    /// describable as a physical-region list is the mapping error. A non-zero
    /// completion status is returned as the structured status error; nothing
    /// is retried.
    pub fn read<D: DeviceBacking>(
        &self,
        driver: &mut NvmeDriver<D>,
        target_cpu: u32,
        lba: u64,
        block_count: u32,
        mem_region: &DmaRegion,
    ) -> (r: Result<(), NvmeError>)
        requires
            self.wf(),
            old(driver).wf(),
            old(driver).state is Operational,
            target_cpu < old(driver).cpu_count,
        ensures
            final(driver).wf(),
            final(driver).cpu_count == old(driver).cpu_count,
            final(driver).caps == old(driver).caps,
            block_count == 0 ==> (r is Ok && *final(driver) == *old(driver)),
            block_count > 0x10000 ==> (r is Err && r->Err_0 == NvmeError::DmaMapping),
            (1 <= block_count <= 0x10000 && spec_transfer_bytes(*self, block_count)
                > mem_region.len) ==> (r is Err && r->Err_0 == NvmeError::DmaMapping),
            (1 <= block_count <= 0x10000 && mem_region.dma_capable && spec_transfer_bytes(
                *self,
                block_count,
            ) <= mem_region.len && !spec_region_mappable(
                mem_region.base,
                spec_transfer_bytes(*self, block_count) as u64,
            )) ==> r is Err,
            r is Ok ==> final(driver).state is Operational,
            !(old(driver).spec_route(target_cpu as int) is Unassigned) ==> (final(driver).fallback_count == old(driver).fallback_count && final(driver).fallback_cpus@ == old(driver).fallback_cpus@ && final(driver).routing@ == old(driver).routing@),
            (old(driver).spec_route(target_cpu as int) is Unassigned && r is Ok && block_count > 0)
                ==> {
                &&& (final(driver).spec_route(target_cpu as int) is Dedicated ==> (final(driver).fallback_count == old(driver).fallback_count && final(driver).fallback_cpus@
                    == old(driver).fallback_cpus@))
                &&& (final(driver).spec_route(target_cpu as int) is Shared ==> (final(driver).fallback_count == old(driver).fallback_count + 1 && final(driver).fallback_cpus@
                    == old(driver).fallback_cpus@.push(target_cpu)))
                &&& (final(driver).spec_route(target_cpu as int) is Dedicated || final(driver).spec_route(target_cpu as int) is Shared)
            },
            final(driver).fallback_count == old(driver).fallback_count || final(driver).fallback_count == old(driver).fallback_count + 1,
    {
        if block_count == 0 {
            return Ok(());
        }
        if block_count > 0x10000 {
            return Err(NvmeError::DmaMapping);
        }
        self.transfer(driver, target_cpu, lba, block_count, false, false, mem_region)
    }

    /// Writes `block_count` logical blocks starting at `lba` from
    /// `mem_region`, routed through the queue pair serving `target_cpu`;
    /// `fua` forces unit access. A zero-length write completes at once; a
    /// region too small or not describable as a physical-region list is the
    /// mapping error.
    pub fn write<D: DeviceBacking>(
        &self,
        driver: &mut NvmeDriver<D>,
        target_cpu: u32,
        lba: u64,
        block_count: u32,
        fua: bool,
        mem_region: &DmaRegion,
    ) -> (r: Result<(), NvmeError>)
        requires
            self.wf(),
            old(driver).wf(),
            old(driver).state is Operational,
            target_cpu < old(driver).cpu_count,
        ensures
            final(driver).wf(),
            final(driver).cpu_count == old(driver).cpu_count,
            final(driver).caps == old(driver).caps,
            block_count == 0 ==> (r is Ok && *final(driver) == *old(driver)),
            block_count > 0x10000 ==> (r is Err && r->Err_0 == NvmeError::DmaMapping),
            (1 <= block_count <= 0x10000 && spec_transfer_bytes(*self, block_count)
                > mem_region.len) ==> (r is Err && r->Err_0 == NvmeError::DmaMapping),
            (1 <= block_count <= 0x10000 && mem_region.dma_capable && spec_transfer_bytes(
                *self,
                block_count,
            ) <= mem_region.len && !spec_region_mappable(
                mem_region.base,
                spec_transfer_bytes(*self, block_count) as u64,
            )) ==> r is Err,
            r is Ok ==> final(driver).state is Operational,
            !(old(driver).spec_route(target_cpu as int) is Unassigned) ==> (final(driver).fallback_count == old(driver).fallback_count && final(driver).fallback_cpus@ == old(driver).fallback_cpus@ && final(driver).routing@ == old(driver).routing@),
            (old(driver).spec_route(target_cpu as int) is Unassigned && r is Ok && block_count > 0)
                ==> {
                &&& (final(driver).spec_route(target_cpu as int) is Dedicated ==> (final(driver).fallback_count == old(driver).fallback_count && final(driver).fallback_cpus@
                    == old(driver).fallback_cpus@))
                &&& (final(driver).spec_route(target_cpu as int) is Shared ==> (final(driver).fallback_count == old(driver).fallback_count + 1 && final(driver).fallback_cpus@
                    == old(driver).fallback_cpus@.push(target_cpu)))
                &&& (final(driver).spec_route(target_cpu as int) is Dedicated || final(driver).spec_route(target_cpu as int) is Shared)
            },
            final(driver).fallback_count == old(driver).fallback_count || final(driver).fallback_count == old(driver).fallback_count + 1,
    {
        if block_count == 0 {
            return Ok(());
        }
        if block_count > 0x10000 {
            return Err(NvmeError::DmaMapping);
        }
        self.transfer(driver, target_cpu, lba, block_count, true, fua, mem_region)
    }

    /// Marks the given logical-block ranges as deallocated through one
    /// dataset-management command. The ranges are encoded exactly as given —
    /// never coalesced, reordered or checked for overlap — and at most 256 of
    /// them fit one command. An empty list completes at once.
    pub fn deallocate<D: DeviceBacking>(
        &self,
        driver: &mut NvmeDriver<D>,
        target_cpu: u32,
        ranges: &Vec<DsmRange>,
    ) -> (r: Result<(), NvmeError>)
        requires
            self.wf(),
            old(driver).wf(),
            old(driver).state is Operational,
            target_cpu < old(driver).cpu_count,
        ensures
            final(driver).wf(),
            final(driver).cpu_count == old(driver).cpu_count,
            final(driver).caps == old(driver).caps,
            ranges@.len() == 0 ==> (r is Ok && *final(driver) == *old(driver)),
            ranges@.len() > 256 ==> (r is Err && r->Err_0 == NvmeError::DmaMapping),
            r is Ok ==> final(driver).state is Operational,
            !(old(driver).spec_route(target_cpu as int) is Unassigned) ==> (final(driver).fallback_count == old(driver).fallback_count && final(driver).fallback_cpus@ == old(driver).fallback_cpus@ && final(driver).routing@ == old(driver).routing@),
            (old(driver).spec_route(target_cpu as int) is Unassigned && r is Ok && ranges@.len()
                > 0) ==> {
                &&& (final(driver).spec_route(target_cpu as int) is Dedicated ==> (final(driver).fallback_count == old(driver).fallback_count && final(driver).fallback_cpus@
                    == old(driver).fallback_cpus@))
                &&& (final(driver).spec_route(target_cpu as int) is Shared ==> (final(driver).fallback_count == old(driver).fallback_count + 1 && final(driver).fallback_cpus@
                    == old(driver).fallback_cpus@.push(target_cpu)))
                &&& (final(driver).spec_route(target_cpu as int) is Dedicated || final(driver).spec_route(target_cpu as int) is Shared)
            },
            final(driver).fallback_count == old(driver).fallback_count || final(driver).fallback_count == old(driver).fallback_count + 1,
    {
        if ranges.len() == 0 {
            return Ok(());
        }
        if ranges.len() > 256 {
            return Err(NvmeError::DmaMapping);
        }
        let buf = encode_dsm_ranges(ranges);
        let page = match driver.mem.allocate_pages(1) {
            Some(a) => a,
            None => {
                return Err(NvmeError::DmaMapping);
            },
        };
        driver.mem.write_bytes(page, &buf);
        let cmd = Command::dataset_management(self.nsid, ranges.len() as u32, page);
        let c = match driver.io_command(target_cpu, cmd) {
            Ok(c) => c,
            Err(e) => {
                // The command may still be in flight and reading the
                // descriptor page; it is not freed until something retires
                // the command.
                return Err(e);
            },
        };
        // The command has retired; the descriptor page can go back.
        driver.mem.release_pages(page, 1);
        if c.status != 0 {
            return Err(NvmeError::NvmeStatus(c.status));
        }
        Ok(())
    }
}

} // verus!
