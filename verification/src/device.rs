//! The register/backing adapter the driver is driven against.
//!
//! The PCI transport, BAR mapping, DMA memory and interrupt delivery are
//! collaborators of this library, not part of it: real hardware, an
//! in-process emulated controller and a test harness with mocked register
//! responses are all valid implementations of these traits. The driver is
//! polymorphic over exactly this capability set: map a BAR, provide DMA
//! memory, map an interrupt.
//!
//! Register reads are device-controlled and nothing is assumed of their
//! results: every driver decision is verified for every value a read can
//! return. The two clauses stated on [`DmaClient`] are the allocator's
//! interface contract (page-aligned, in-range allocations that are read back
//! at their full length); an implementation that breaks them is outside this
//! library's guarantees.

use vstd::prelude::*;

verus! {

/// Size in bytes of one page of DMA-addressable memory.
pub const PAGE_SIZE: u64 = 4096;

/// Exclusive upper bound on DMA addresses handed out by an allocator.
pub const MAX_DMA_ADDR: u64 = 0x1_0000_0000_0000;

/// Mapped controller registers. Offsets follow the NVMe register layout:
/// capabilities at offset 0, controller configuration at offset 0x14,
/// controller status adjacent per the NVMe specification.
pub trait DeviceRegisterIo: Sized {
    /// Reads a 32-bit register.
    fn read_u32(&mut self, offset: u64) -> u32;

    /// Reads a 64-bit register.
    fn read_u64(&mut self, offset: u64) -> u64;

    /// Writes a 32-bit register.
    fn write_u32(&mut self, offset: u64, data: u32);

    /// Writes a 64-bit register.
    fn write_u64(&mut self, offset: u64, data: u64);
}

/// Allocator and accessor for DMA-addressable memory shared with the
/// controller.
pub trait DmaClient: Sized {
    /// Allocates `pages` contiguous pages. A successful allocation is
    /// page-aligned and lies below [`MAX_DMA_ADDR`], so that page arithmetic
    /// within it cannot overflow.
    fn allocate_pages(&mut self, pages: u64) -> (r: Option<u64>)
        ensures
            r is Some ==> (r->Some_0 % PAGE_SIZE == 0 && r->Some_0 + pages * PAGE_SIZE
                < MAX_DMA_ADDR),
    ;

    /// Reads `len` bytes at `addr`, returning exactly `len` bytes.
    fn read_bytes(&mut self, addr: u64, len: u64) -> (r: Vec<u8>)
        ensures
            r@.len() == len,
    ;

    /// Writes `data` at `addr`.
    fn write_bytes(&mut self, addr: u64, data: &Vec<u8>);

    /// Returns `pages` pages at `base` to the allocator. The driver releases
    /// memory only once no in-flight command can still address it.
    fn release_pages(&mut self, base: u64, pages: u64);
}

/// One device as the driver sees it: registers, DMA memory, interrupts.
pub trait DeviceBacking: Sized {
    /// The mapped-register type this backing hands out.
    type Registers: DeviceRegisterIo;

    /// The DMA allocator type this backing hands out.
    type Dma: DmaClient;

    /// An identifier for diagnostics.
    fn id(&self) -> String;

    /// Maps base address register `n`.
    fn map_bar(&mut self, n: u8) -> Option<Self::Registers>;

    /// Hands out a client of the device's DMA allocator.
    fn dma_client(&mut self) -> Self::Dma;

    /// Number of interrupt vectors the device offers.
    fn max_interrupt_count(&self) -> u32;

    /// Binds interrupt vector `msix` for delivery to `cpu`; fails when the
    /// vector cannot be mapped (for example, vector exhaustion).
    fn map_interrupt(&mut self, msix: u32, cpu: u32) -> bool;

    /// Sleeps for `delay_us` microseconds between register polls, so that a
    /// bounded wait does not busy-spin the CPU.
    fn pause_us(&mut self, delay_us: u64);
}

} // verus!
