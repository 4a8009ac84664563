//! End-to-end tests of the driver against an in-process emulated controller.

use std::cell::RefCell;
use std::collections::HashMap;
use std::rc::Rc;

use nvme_driver::cmd::{Command, DsmRange};
use nvme_driver::device::{DeviceBacking, DeviceRegisterIo, DmaClient};
use nvme_driver::driver::NvmeDriver;
use nvme_driver::error::{NvmeError, RestoreError};
use nvme_driver::namespace::DmaRegion;
use nvme_driver::queue::SubmitOutcome;
use nvme_driver::save_state::SAVED_STATE_VERSION;

const PAGE: u64 = 4096;
const MEM_BYTES: usize = 8 << 20;

struct Memory {
    bytes: Vec<u8>,
    next_page: u64,
}

type SharedMem = Rc<RefCell<Memory>>;

fn new_memory() -> SharedMem {
    Rc::new(RefCell::new(Memory {
        bytes: vec![0u8; MEM_BYTES],
        // Leave the low half for caller-managed buffers.
        next_page: (MEM_BYTES as u64) / 2 / PAGE,
    }))
}

fn mem_read(mem: &SharedMem, addr: u64, len: u64) -> Vec<u8> {
    let m = mem.borrow();
    let a = addr as usize;
    m.bytes[a..a + len as usize].to_vec()
}

fn mem_write(mem: &SharedMem, addr: u64, data: &[u8]) {
    let mut m = mem.borrow_mut();
    let a = addr as usize;
    m.bytes[a..a + data.len()].copy_from_slice(data);
}

struct TestDma {
    mem: SharedMem,
}

impl DmaClient for TestDma {
    fn allocate_pages(&mut self, pages: u64) -> Option<u64> {
        let mut m = self.mem.borrow_mut();
        let start = m.next_page;
        if (start + pages) * PAGE > MEM_BYTES as u64 {
            return None;
        }
        m.next_page += pages;
        Some(start * PAGE)
    }

    fn read_bytes(&mut self, addr: u64, len: u64) -> Vec<u8> {
        mem_read(&self.mem, addr, len)
    }

    fn write_bytes(&mut self, addr: u64, data: &Vec<u8>) {
        mem_write(&self.mem, addr, data);
    }

    fn release_pages(&mut self, _base: u64, _pages: u64) {
        // The bump allocator does not reclaim; releases are a no-op.
    }
}

struct NsState {
    block_size: u32,
    blocks: u64,
    data: Vec<u8>,
}

struct QState {
    sq_base: u64,
    sq_size: u32,
    sq_head: u32,
    cq_base: u64,
    cq_size: u32,
    cq_tail: u32,
    cq_phase: bool,
    cqid: u16,
}

struct Controller {
    mem: SharedMem,
    mqes_z: u16,
    ready_stuck: bool,
    cc: u32,
    aqa: u32,
    asq: u64,
    acq: u64,
    admin: Option<QState>,
    io_cqs: HashMap<u16, (u64, u32, u32, bool)>, // base, size, tail, phase
    io_sqs: HashMap<u16, (u64, u32, u32, u16)>,  // base, size, head, cqid
    namespaces: HashMap<u32, NsState>,
}

impl Controller {
    fn new(mqes_z: u16) -> Controller {
        Controller {
            mem: new_memory(),
            mqes_z,
            ready_stuck: false,
            cc: 0,
            aqa: 0,
            asq: 0,
            acq: 0,
            admin: None,
            io_cqs: HashMap::new(),
            io_sqs: HashMap::new(),
            namespaces: HashMap::new(),
        }
    }

    fn add_namespace(&mut self, nsid: u32, block_size: u32, blocks: u64) {
        self.namespaces.insert(
            nsid,
            NsState {
                block_size,
                blocks,
                data: vec![0u8; (block_size as u64 * blocks) as usize],
            },
        );
    }

    fn cap(&self) -> u64 {
        // MQES in bits 15:0, a ready timeout in bits 31:24, DSTRD zero.
        (self.mqes_z as u64) | (10u64 << 24)
    }

    fn ready(&self) -> bool {
        self.cc & 1 == 1 && !self.ready_stuck
    }

    fn sync_admin(&mut self) {
        if self.ready() && self.admin.is_none() {
            self.admin = Some(QState {
                sq_base: self.asq,
                sq_size: (self.aqa & 0xfff) + 1,
                sq_head: 0,
                cq_base: self.acq,
                cq_size: ((self.aqa >> 16) & 0xfff) + 1,
                cq_tail: 0,
                cq_phase: true,
                cqid: 0,
            });
        }
        if !self.ready() {
            self.admin = None;
            self.io_cqs.clear();
            self.io_sqs.clear();
        }
    }

    fn read_sqe(&self, base: u64, idx: u32) -> [u32; 16] {
        let raw = mem_read(&self.mem, base + idx as u64 * 64, 64);
        let mut dw = [0u32; 16];
        for i in 0..16 {
            dw[i] = u32::from_le_bytes(raw[i * 4..i * 4 + 4].try_into().unwrap());
        }
        dw
    }

    fn post_completion(&mut self, cqid: u16, cid: u16, status: u16) {
        let (base, size, tail, phase) = if cqid == 0 {
            let a = self.admin.as_ref().unwrap();
            (a.cq_base, a.cq_size, a.cq_tail, a.cq_phase)
        } else {
            *self.io_cqs.get(&cqid).unwrap()
        };
        let mut cqe = [0u8; 16];
        let dw3: u32 = (cid as u32) | ((phase as u32) << 16) | ((status as u32) << 17);
        cqe[12..16].copy_from_slice(&dw3.to_le_bytes());
        mem_write(&self.mem, base + tail as u64 * 16, &cqe);
        let new_tail = (tail + 1) % size;
        let new_phase = if new_tail == 0 { !phase } else { phase };
        if cqid == 0 {
            let a = self.admin.as_mut().unwrap();
            a.cq_tail = new_tail;
            a.cq_phase = new_phase;
        } else {
            self.io_cqs.insert(cqid, (base, size, new_tail, new_phase));
        }
    }

    /// The data pages a command's physical-region pointers describe.
    fn prp_addrs(&self, prp1: u64, prp2: u64, len: u64) -> Vec<(u64, u64)> {
        // Returns (address, byte count) chunks covering `len` bytes.
        let mut chunks = Vec::new();
        let first_len = (PAGE - prp1 % PAGE).min(len);
        chunks.push((prp1, first_len));
        let mut remaining = len - first_len;
        if remaining == 0 {
            return chunks;
        }
        let pages_left = remaining.div_ceil(PAGE);
        if pages_left == 1 {
            chunks.push((prp2, remaining));
            return chunks;
        }
        // prp2 points at a list of page addresses.
        let list = mem_read(&self.mem, prp2, pages_left * 8);
        for k in 0..pages_left {
            let addr = u64::from_le_bytes(list[(k * 8) as usize..(k * 8 + 8) as usize].try_into().unwrap());
            let n = remaining.min(PAGE);
            chunks.push((addr, n));
            remaining -= n;
        }
        chunks
    }

    fn exec_admin(&mut self, dw: [u32; 16]) -> u16 {
        let opcode = (dw[0] & 0xff) as u8;
        let nsid = dw[1];
        let prp1 = (dw[6] as u64) | ((dw[7] as u64) << 32);
        match opcode {
            0x06 => {
                // Identify namespace.
                match self.namespaces.get(&nsid) {
                    Some(ns) => {
                        let mut buf = vec![0u8; 4096];
                        buf[0..8].copy_from_slice(&ns.blocks.to_le_bytes());
                        buf[26] = 0;
                        let lbads = ns.block_size.trailing_zeros() as u8;
                        buf[128] = 0;
                        buf[129] = 0;
                        buf[130] = lbads;
                        buf[131] = 0;
                        mem_write(&self.mem, prp1, &buf);
                        0
                    }
                    None => 0x0b,
                }
            }
            0x05 => {
                // Create I/O completion queue.
                let qid = (dw[10] & 0xffff) as u16;
                let size = (dw[10] >> 16) + 1;
                self.io_cqs.insert(qid, (prp1, size, 0, true));
                0
            }
            0x01 => {
                // Create I/O submission queue.
                let qid = (dw[10] & 0xffff) as u16;
                let size = (dw[10] >> 16) + 1;
                let cqid = (dw[11] >> 16) as u16;
                self.io_sqs.insert(qid, (prp1, size, 0, cqid));
                0
            }
            0x00 => {
                let qid = (dw[10] & 0xffff) as u16;
                self.io_sqs.remove(&qid);
                0
            }
            0x04 => {
                let qid = (dw[10] & 0xffff) as u16;
                self.io_cqs.remove(&qid);
                0
            }
            _ => 1,
        }
    }

    fn exec_io(&mut self, dw: [u32; 16]) -> u16 {
        let opcode = (dw[0] & 0xff) as u8;
        let nsid = dw[1];
        let prp1 = (dw[6] as u64) | ((dw[7] as u64) << 32);
        let prp2 = (dw[8] as u64) | ((dw[9] as u64) << 32);
        let Some(ns) = self.namespaces.get(&nsid) else {
            return 0x0b;
        };
        let bs = ns.block_size as u64;
        match opcode {
            0x01 | 0x02 => {
                let lba = (dw[10] as u64) | ((dw[11] as u64) << 32);
                let count = ((dw[12] & 0xffff) + 1) as u64;
                if lba + count > ns.blocks {
                    return 0x80;
                }
                let len = count * bs;
                let chunks = self.prp_addrs(prp1, prp2, len);
                let start = (lba * bs) as usize;
                if opcode == 0x02 {
                    // Read: namespace data to memory.
                    let data = self.namespaces.get(&nsid).unwrap().data
                        [start..start + len as usize]
                        .to_vec();
                    let mut off = 0usize;
                    for (addr, n) in chunks {
                        mem_write(&self.mem, addr, &data[off..off + n as usize]);
                        off += n as usize;
                    }
                } else {
                    // Write: memory to namespace data.
                    let mut data = Vec::with_capacity(len as usize);
                    for (addr, n) in chunks {
                        data.extend_from_slice(&mem_read(&self.mem, addr, n));
                    }
                    let ns = self.namespaces.get_mut(&nsid).unwrap();
                    ns.data[start..start + len as usize].copy_from_slice(&data);
                }
                0
            }
            0x09 => {
                // Dataset management: deallocate reads back as zeroes.
                let count = ((dw[10] & 0xff) + 1) as u64;
                let ranges = mem_read(&self.mem, prp1, count * 16);
                for k in 0..count as usize {
                    let lba_count =
                        u32::from_le_bytes(ranges[k * 16 + 4..k * 16 + 8].try_into().unwrap())
                            as u64;
                    let lba =
                        u64::from_le_bytes(ranges[k * 16 + 8..k * 16 + 16].try_into().unwrap());
                    let ns = self.namespaces.get_mut(&nsid).unwrap();
                    let from = ((lba * bs) as usize).min(ns.data.len());
                    let to = (((lba + lba_count) * bs) as usize).min(ns.data.len());
                    ns.data[from..to].fill(0);
                }
                0
            }
            _ => 1,
        }
    }

    fn sq_doorbell(&mut self, qid: u16, tail: u32) {
        if qid == 0 {
            loop {
                let (base, size, head, cq_tail_done) = {
                    let a = self.admin.as_ref().unwrap();
                    (a.sq_base, a.sq_size, a.sq_head, a.sq_head == tail % a.sq_size)
                };
                if cq_tail_done {
                    break;
                }
                let dw = self.read_sqe(base, head);
                let cid = (dw[0] >> 16) as u16;
                let status = self.exec_admin(dw);
                {
                    let a = self.admin.as_mut().unwrap();
                    a.sq_head = (head + 1) % size;
                }
                self.post_completion(0, cid, status);
            }
        } else {
            loop {
                let Some(&(base, size, head, cqid)) = self.io_sqs.get(&qid) else {
                    return;
                };
                if head == tail % size {
                    break;
                }
                let dw = self.read_sqe(base, head);
                let cid = (dw[0] >> 16) as u16;
                let status = self.exec_io(dw);
                self.io_sqs.insert(qid, (base, size, (head + 1) % size, cqid));
                self.post_completion(cqid, cid, status);
            }
        }
    }
}

type SharedCtrl = Rc<RefCell<Controller>>;

struct TestRegisters {
    ctrl: SharedCtrl,
}

impl DeviceRegisterIo for TestRegisters {
    fn read_u32(&mut self, offset: u64) -> u32 {
        let c = self.ctrl.borrow();
        match offset {
            0x1c => c.ready() as u32,
            0x14 => c.cc,
            _ => 0,
        }
    }

    fn read_u64(&mut self, offset: u64) -> u64 {
        let c = self.ctrl.borrow();
        match offset {
            0x0 => c.cap(),
            _ => 0,
        }
    }

    fn write_u32(&mut self, offset: u64, data: u32) {
        let mut c = self.ctrl.borrow_mut();
        match offset {
            0x14 => {
                c.cc = data;
                c.sync_admin();
            }
            0x24 => c.aqa = data,
            _ => {
                if offset >= 0x1000 {
                    let index = (offset - 0x1000) / 4;
                    let qid = (index / 2) as u16;
                    if index % 2 == 0 {
                        c.sq_doorbell(qid, data);
                    }
                }
            }
        }
    }

    fn write_u64(&mut self, offset: u64, data: u64) {
        let mut c = self.ctrl.borrow_mut();
        match offset {
            0x28 => c.asq = data,
            0x30 => c.acq = data,
            _ => {}
        }
    }
}

struct TestDevice {
    ctrl: SharedCtrl,
    msix_count: u32,
}

impl DeviceBacking for TestDevice {
    type Registers = TestRegisters;
    type Dma = TestDma;

    fn id(&self) -> String {
        "emulated-test-controller".to_string()
    }

    fn map_bar(&mut self, n: u8) -> Option<TestRegisters> {
        if n == 0 {
            Some(TestRegisters { ctrl: self.ctrl.clone() })
        } else {
            None
        }
    }

    fn dma_client(&mut self) -> TestDma {
        TestDma { mem: self.ctrl.borrow().mem.clone() }
    }

    fn max_interrupt_count(&self) -> u32 {
        self.msix_count
    }

    fn map_interrupt(&mut self, msix: u32, _cpu: u32) -> bool {
        msix < self.msix_count
    }

    fn pause_us(&mut self, _delay_us: u64) {}
}

fn test_device(mqes_z: u16, msix_count: u32, with_ns: bool) -> (TestDevice, SharedMem) {
    let mut ctrl = Controller::new(mqes_z);
    if with_ns {
        ctrl.add_namespace(1, 512, 4096);
    }
    let mem = ctrl.mem.clone();
    (TestDevice { ctrl: Rc::new(RefCell::new(ctrl)), msix_count }, mem)
}

#[test]
fn test_nvme_ioqueue_invalid_mqes() {
    // A controller reporting zero usable queue entries is rejected at
    // construction with the capability error.
    let (device, _mem) = test_device(0, 2, false);
    let driver = NvmeDriver::new(device, 64);
    assert!(matches!(driver, Err(NvmeError::Capability)));
}

#[test]
fn test_nvme_ioqueue_max_mqes() {
    // The largest representable queue capability succeeds.
    let (device, _mem) = test_device(65535, 2, false);
    let driver = NvmeDriver::new(device, 64);
    assert!(driver.is_ok());
}

fn run_io_roundtrip(dma_capable: bool) {
    let (device, mem) = test_device(65535, 2, true);
    let mut driver = NvmeDriver::new(device, 64).unwrap();
    let ns = driver.namespace(1).unwrap();
    assert_eq!(ns.nsid, 1);
    assert_eq!(ns.block_size(), 512);
    assert_eq!(ns.block_count, 4096);

    // Write 1,024 bytes of pattern 0xAA at LBA 0 for 2 blocks.
    let src = DmaRegion { base: 0, len: 1024, dma_capable };
    mem_write(&mem, 0, &[0xAA; 1024]);
    ns.write(&mut driver, 0, 0, 2, false, &src).unwrap();

    // Read 2 blocks at LBA 0 back into a different buffer.
    let dst = DmaRegion { base: 8192, len: 1024, dma_capable };
    ns.read(&mut driver, 1, 0, 2, &dst).unwrap();
    assert_eq!(mem_read(&mem, 8192, 1024), vec![0xAA; 1024]);

    // Deallocate two disjoint ranges; the written blocks lie outside both.
    let ranges = vec![
        DsmRange { context_attributes: 0, starting_lba: 1000, lba_count: 2000 },
        DsmRange { context_attributes: 0, starting_lba: 2, lba_count: 2 },
    ];
    ns.deallocate(&mut driver, 0, &ranges).unwrap();

    // The data outside the deallocated ranges is untouched.
    let dst2 = DmaRegion { base: 16384, len: 1024, dma_capable };
    ns.read(&mut driver, 0, 0, 2, &dst2).unwrap();
    assert_eq!(mem_read(&mem, 16384, 1024), vec![0xAA; 1024]);

    // A read over a deallocated range observes zeroes.
    let dst3 = DmaRegion { base: 20480, len: 1024, dma_capable };
    ns.read(&mut driver, 0, 2, 2, &dst3).unwrap();
    assert_eq!(mem_read(&mem, 20480, 1024), vec![0u8; 1024]);

    assert_eq!(driver.fallback_cpu_count(), 0);

    // I/O from a CPU whose interrupt vector cannot be mapped records the CPU
    // in fallback exactly once, not once per operation.
    let dst4 = DmaRegion { base: 24576, len: 1024, dma_capable };
    ns.read(&mut driver, 63, 0, 2, &dst4).unwrap();
    assert_eq!(driver.fallback_cpu_count(), 1);
    assert_eq!(mem_read(&mem, 24576, 1024), vec![0xAA; 1024]);

    ns.read(&mut driver, 63, 0, 2, &dst4).unwrap();
    ns.read(&mut driver, 63, 0, 2, &dst4).unwrap();
    assert_eq!(driver.fallback_cpu_count(), 1);

    driver.shutdown().unwrap();
}

#[test]
fn test_nvme_driver_direct_dma() {
    run_io_roundtrip(true);
}

#[test]
fn test_nvme_driver_bounce_buffer() {
    run_io_roundtrip(false);
}

#[test]
fn test_nvme_driver_large_transfer() {
    // A transfer spanning more than two pages goes through a PRP list.
    let (device, mem) = test_device(65535, 2, true);
    let mut driver = NvmeDriver::new(device, 4).unwrap();
    let ns = driver.namespace(1).unwrap();
    let pattern: Vec<u8> = (0..16384u32).map(|i| (i % 251) as u8).collect();
    mem_write(&mem, 0, &pattern);
    let src = DmaRegion { base: 0, len: 16384, dma_capable: true };
    ns.write(&mut driver, 0, 0, 32, false, &src).unwrap();
    let dst = DmaRegion { base: 65536, len: 16384, dma_capable: true };
    ns.read(&mut driver, 0, 0, 32, &dst).unwrap();
    assert_eq!(mem_read(&mem, 65536, 16384), pattern);
}

#[test]
fn test_nvme_save_restore() {
    let (device, mem) = test_device(65535, 2, true);
    let mut driver = NvmeDriver::new(device, 64).unwrap();
    let _ns1 = driver.namespace(1).unwrap();
    let saved = driver.save().unwrap();
    // Namespace data is never persisted: it may have changed during
    // servicing and is re-discovered instead.
    assert_eq!(saved.namespaces.len(), 0);
    assert_eq!(saved.version, SAVED_STATE_VERSION);
    assert_eq!(saved.io_queues.len(), 1);

    // Reattach against a fresh controller over the same memory.
    let mut ctrl = Controller::new(65535);
    ctrl.add_namespace(1, 512, 4096);
    ctrl.mem = mem.clone();
    let new_device = TestDevice { ctrl: Rc::new(RefCell::new(ctrl)), msix_count: 2 };
    let mut restored = NvmeDriver::restore(new_device, 64, &saved).unwrap();
    // The queues come back at exactly their saved geometry.
    assert_eq!(restored.admin.depth(), saved.admin.depth);
    assert_eq!(restored.io_queues[0].depth(), saved.io_queues[0].depth);
    assert_eq!(restored.io_queues[0].cpu, saved.io_queues[0].cpu);
    assert_eq!(restored.io_queues[0].sq_base, saved.io_queues[0].sq_base);
    assert_eq!(restored.io_queues[0].cq_base, saved.io_queues[0].cq_base);
    assert_eq!(
        restored.io_queues[0].interrupt_vector,
        saved.io_queues[0].interrupt_vector
    );
    let ns = restored.namespace(1).unwrap();
    let src = DmaRegion { base: 0, len: 512, dma_capable: true };
    mem_write(&mem, 0, &[0x5A; 512]);
    ns.write(&mut restored, 0, 7, 1, false, &src).unwrap();
    let dst = DmaRegion { base: 4096, len: 512, dma_capable: true };
    ns.read(&mut restored, 0, 7, 1, &dst).unwrap();
    assert_eq!(mem_read(&mem, 4096, 512), vec![0x5A; 512]);
}

#[test]
fn test_restore_version_mismatch() {
    let (device, _mem) = test_device(65535, 2, true);
    let driver = NvmeDriver::new(device, 8).unwrap();
    let mut saved = driver.save().unwrap();
    saved.version = SAVED_STATE_VERSION + 1;
    let (new_device, _mem2) = test_device(65535, 2, true);
    let r = NvmeDriver::restore(new_device, 8, &saved);
    assert!(matches!(r, Err(RestoreError::VersionMismatch)));
}

#[test]
fn test_restore_capacity_error() {
    // A saved queue depth larger than the new controller's capability-derived
    // maximum fails with the capacity error rather than silently recreating
    // an under-sized queue.
    let (device, _mem) = test_device(65535, 2, true);
    let driver = NvmeDriver::new(device, 8).unwrap();
    let saved = driver.save().unwrap();
    assert_eq!(saved.io_queues[0].depth, 64);
    // The new controller admits at most 31 entries per queue.
    let (new_device, _mem2) = test_device(30, 2, true);
    let r = NvmeDriver::restore(new_device, 8, &saved);
    assert!(matches!(r, Err(RestoreError::CapacityError)));
}

#[test]
fn test_backpressure_fifo_release() {
    // With mqes_z == 3 every queue has 4 entries, so 3 command ids: the
    // fourth and fifth concurrent submissions must wait, and are released
    // first in, first out as completions free ids.
    let (device, mem) = test_device(3, 2, true);
    let mut driver = NvmeDriver::new(device, 4).unwrap();
    let ns = driver.namespace(1).unwrap();
    mem_write(&mem, 0, &[0x11; 2048]);

    assert_eq!(driver.io_queues[0].depth(), 4);
    let mk = |lba: u64| Command::read(ns.nsid, lba, 1, 1024 * 1024, 0);
    let c1 = mk(0);
    let c2 = mk(1);
    let c3 = mk(2);
    let c4 = mk(3);
    let c5 = mk(4);
    let r1 = driver.io_queues[0].submit(&mut driver.mem, &mut driver.regs, c1);
    let r2 = driver.io_queues[0].submit(&mut driver.mem, &mut driver.regs, c2);
    let r3 = driver.io_queues[0].submit(&mut driver.mem, &mut driver.regs, c3);
    assert!(matches!(r1, SubmitOutcome::Issued(_)));
    assert!(matches!(r2, SubmitOutcome::Issued(_)));
    assert!(matches!(r3, SubmitOutcome::Issued(_)));
    assert_eq!(driver.io_queues[0].outstanding_count(), 3);
    // The queue is at depth minus one: further submissions suspend.
    let r4 = driver.io_queues[0].submit(&mut driver.mem, &mut driver.regs, c4);
    let r5 = driver.io_queues[0].submit(&mut driver.mem, &mut driver.regs, c5);
    assert!(matches!(r4, SubmitOutcome::Enqueued));
    assert!(matches!(r5, SubmitOutcome::Enqueued));
    assert_eq!(driver.io_queues[0].outstanding_count(), 3);

    // The emulated controller completed synchronously; one sweep reaps the
    // first three completions, releasing the blocked submissions in order,
    // and then their completions as well.
    let out = driver.io_queues[0].process_completions(&mut driver.mem, &mut driver.regs).unwrap();
    assert_eq!(out.released, vec![c4, c5]);
    assert_eq!(out.completed.len(), 5);
    assert_eq!(driver.io_queues[0].outstanding_count(), 0);
}

#[test]
fn test_queue_creation_error_without_vectors() {
    // A device offering no interrupt vectors cannot host even the admin
    // queue's binding: construction aborts with the queue-creation error.
    let (device, _mem) = test_device(65535, 0, false);
    let driver = NvmeDriver::new(device, 4);
    assert!(matches!(driver, Err(NvmeError::QueueCreation)));
}

#[test]
fn test_enable_timeout() {
    // A controller that never raises the ready bit fails construction after
    // the bounded wait instead of retrying forever.
    let mut ctrl = Controller::new(65535);
    ctrl.ready_stuck = true;
    let device = TestDevice { ctrl: Rc::new(RefCell::new(ctrl)), msix_count: 2 };
    let driver = NvmeDriver::new(device, 4);
    assert!(matches!(driver, Err(NvmeError::CommandTimeout)));
}

#[test]
fn test_read_beyond_capacity_reports_status() {
    // The controller's failure status is carried back raw.
    let (device, _mem) = test_device(65535, 2, true);
    let mut driver = NvmeDriver::new(device, 4).unwrap();
    let ns = driver.namespace(1).unwrap();
    let dst = DmaRegion { base: 0, len: 1024, dma_capable: true };
    let r = ns.read(&mut driver, 0, 5000, 2, &dst);
    assert_eq!(r, Err(NvmeError::NvmeStatus(0x80)));
}

#[test]
fn test_identify_missing_namespace() {
    let (device, _mem) = test_device(65535, 2, true);
    let mut driver = NvmeDriver::new(device, 4).unwrap();
    let r = driver.namespace(9);
    assert_eq!(r, Err(NvmeError::NvmeStatus(0x0b)));
}

#[test]
fn test_invalid_namespace_geometry() {
    // A namespace whose block size the driver cannot drive is rejected after
    // a successful identify.
    let mut ctrl = Controller::new(65535);
    ctrl.add_namespace(2, 16, 128);
    let device = TestDevice { ctrl: Rc::new(RefCell::new(ctrl)), msix_count: 2 };
    let mut driver = NvmeDriver::new(device, 4).unwrap();
    let r = driver.namespace(2);
    assert_eq!(r, Err(NvmeError::InvalidNamespace));
}

#[test]
fn test_zero_length_and_oversized_operations() {
    let (device, mem) = test_device(65535, 2, true);
    let mut driver = NvmeDriver::new(device, 4).unwrap();
    let ns = driver.namespace(1).unwrap();

    // Zero blocks: nothing to do, nothing submitted.
    let region = DmaRegion { base: 0, len: 1024, dma_capable: true };
    assert_eq!(ns.read(&mut driver, 0, 0, 0, &region), Ok(()));
    assert_eq!(ns.write(&mut driver, 0, 0, 0, false, &region), Ok(()));

    // An empty range list completes at once; one beyond a single command's
    // capacity cannot be described.
    assert_eq!(ns.deallocate(&mut driver, 0, &Vec::new()), Ok(()));
    let many: Vec<DsmRange> = (0..257)
        .map(|i| DsmRange { context_attributes: 0, starting_lba: i * 4, lba_count: 2 })
        .collect();
    assert_eq!(ns.deallocate(&mut driver, 0, &many), Err(NvmeError::DmaMapping));

    // A region smaller than the transfer cannot be mapped.
    let small = DmaRegion { base: 0, len: 100, dma_capable: true };
    assert_eq!(ns.read(&mut driver, 0, 0, 2, &small), Err(NvmeError::DmaMapping));
    let _ = mem;
}
