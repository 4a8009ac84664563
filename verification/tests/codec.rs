//! Unit tests of the wire-format codec, capability decoding, backoff and
//! physical-region-list building.

use nvme_driver::backoff::Backoff;
use nvme_driver::caps::ControllerCaps;
use nvme_driver::cmd::{decode_cqe, encode_dsm_ranges, Command, DsmRange};
use nvme_driver::device::DmaClient;
use nvme_driver::driver::{aqa_word, doorbell_offsets};
use nvme_driver::error::NvmeError;
use nvme_driver::namespace::{build_prps, parse_identify_namespace};

#[test]
fn test_cap_decode() {
    let cap: u64 = 0x00ff | (0x20 << 24) | (3 << 32);
    let caps = ControllerCaps::decode(cap);
    assert_eq!(caps.mqes_raw, 0x00ff);
    assert_eq!(caps.timeout_500ms, 0x20);
    assert_eq!(caps.dstrd, 3);
    assert_eq!(caps.max_queue_entries(), 0x100);
    assert!(caps.usable());
    assert_eq!(caps.doorbell_stride_bytes(), 32);
}

#[test]
fn test_cap_zero_mqes_unusable() {
    let caps = ControllerCaps::decode(0);
    assert_eq!(caps.mqes_raw, 0);
    assert!(!caps.usable());
    assert_eq!(caps.max_queue_entries(), 1);
}

#[test]
fn test_check_usable_classification() {
    // Zero usable entries is the capability error, and nothing else ever is.
    assert_eq!(
        ControllerCaps::decode(0).check_usable(),
        Err(NvmeError::Capability)
    );
    assert_eq!(ControllerCaps::decode(1).check_usable(), Ok(()));
    assert_eq!(ControllerCaps::decode(0xffff).check_usable(), Ok(()));
}

#[test]
fn test_aqa_word() {
    // Zero-based submission size low, completion size in bits 27:16.
    assert_eq!(aqa_word(32), 31 | (31 << 16));
    assert_eq!(aqa_word(2), 1 | (1 << 16));
}

#[test]
fn test_encode_read_sqe() {
    let cmd = Command::read(5, 0x0000_0001_0000_0002, 8, 0x2000, 0);
    let sqe = cmd.encode_sqe(7);
    assert_eq!(sqe.len(), 64);
    let mut expected = vec![0u8; 64];
    expected[0..4].copy_from_slice(&0x0007_0002u32.to_le_bytes()); // opcode, cid
    expected[4..8].copy_from_slice(&5u32.to_le_bytes()); // nsid
    expected[24..32].copy_from_slice(&0x2000u64.to_le_bytes()); // prp1
    expected[40..44].copy_from_slice(&2u32.to_le_bytes()); // lba low
    expected[44..48].copy_from_slice(&1u32.to_le_bytes()); // lba high
    expected[48..52].copy_from_slice(&7u32.to_le_bytes()); // blocks - 1
    assert_eq!(sqe, expected);
}

#[test]
fn test_encode_write_fua() {
    let cmd = Command::write(1, 4, 2, true, 0x3000, 0);
    assert_eq!(cmd.cdw12, 1 | 0x4000_0000);
    let cmd = Command::write(1, 4, 2, false, 0x3000, 0);
    assert_eq!(cmd.cdw12, 1);
}

#[test]
fn test_decode_cqe() {
    let mut raw = vec![0u8; 16];
    let dw3: u32 = 0x1234 | (1 << 16) | (0x55 << 17);
    raw[12..16].copy_from_slice(&dw3.to_le_bytes());
    raw[0..4].copy_from_slice(&0xdead_beefu32.to_le_bytes());
    let c = decode_cqe(&raw);
    assert_eq!(c.cid, 0x1234);
    assert!(c.phase);
    assert_eq!(c.status, 0x55);
    assert_eq!(c.dw0, 0xdead_beef);
}

#[test]
fn test_encode_dsm_ranges_exact() {
    // The descriptor buffer carries the ranges exactly as given, in order,
    // 16 bytes each: attributes, block count, starting block.
    let ranges = vec![
        DsmRange { context_attributes: 0, starting_lba: 1000, lba_count: 2000 },
        DsmRange { context_attributes: 0, starting_lba: 2, lba_count: 2 },
    ];
    let buf = encode_dsm_ranges(&ranges);
    assert_eq!(buf.len(), 32);
    let mut expected = vec![0u8; 32];
    expected[4..8].copy_from_slice(&2000u32.to_le_bytes());
    expected[8..16].copy_from_slice(&1000u64.to_le_bytes());
    expected[20..24].copy_from_slice(&2u32.to_le_bytes());
    expected[24..32].copy_from_slice(&2u64.to_le_bytes());
    assert_eq!(buf, expected);
}

#[test]
fn test_dsm_command_encoding() {
    let cmd = Command::dataset_management(3, 2, 0x5000);
    assert_eq!(cmd.opcode, 0x09);
    assert_eq!(cmd.nsid, 3);
    assert_eq!(cmd.cdw10, 1); // zero-based range count
    assert_eq!(cmd.cdw11, 0x4); // deallocate attribute
    assert_eq!(cmd.prp1, 0x5000);
}

#[test]
fn test_backoff_delays_and_exhaustion() {
    let mut b = Backoff::new(3);
    assert!(!b.is_exhausted());
    assert_eq!(b.back_off(), 500);
    assert_eq!(b.back_off(), 1000);
    assert_eq!(b.back_off(), 1500);
    assert!(b.is_exhausted());
}

#[test]
fn test_parse_identify_namespace() {
    let mut buf = vec![0u8; 4096];
    buf[0..8].copy_from_slice(&4096u64.to_le_bytes());
    buf[26] = 1; // second LBA format selected
    buf[130] = 9; // format 0: 512-byte blocks
    buf[134] = 12; // format 1: 4096-byte blocks
    let ns = parse_identify_namespace(7, &buf).unwrap();
    assert_eq!(ns.nsid, 7);
    assert_eq!(ns.block_count, 4096);
    assert_eq!(ns.block_shift, 12);
    assert_eq!(ns.block_size(), 4096);

    // A zero-sized namespace is rejected.
    let zero = vec![0u8; 4096];
    assert!(parse_identify_namespace(7, &zero).is_none());

    // An absurd block size is rejected.
    buf[134] = 40;
    assert!(parse_identify_namespace(7, &buf).is_none());
}

struct MiniDma {
    next: u64,
}

impl DmaClient for MiniDma {
    fn allocate_pages(&mut self, pages: u64) -> Option<u64> {
        let r = self.next;
        self.next += pages * 4096;
        Some(r)
    }

    fn read_bytes(&mut self, _addr: u64, len: u64) -> Vec<u8> {
        vec![0u8; len as usize]
    }

    fn write_bytes(&mut self, _addr: u64, _data: &Vec<u8>) {}

    fn release_pages(&mut self, _base: u64, _pages: u64) {}
}

#[test]
fn test_build_prps() {
    let mut dma = MiniDma { next: 0x10_0000 };
    // One page: no second pointer, no list.
    let p = build_prps(&mut dma, 4096, 100).unwrap();
    assert_eq!((p.prp1, p.prp2), (4096, 0));
    assert!(p.list_page.is_none());
    // Two pages: the second pointer is the next page boundary, no list.
    let p = build_prps(&mut dma, 4096 + 8, 4096).unwrap();
    assert_eq!((p.prp1, p.prp2), (4096 + 8, 8192));
    assert!(p.list_page.is_none());
    // More pages: the second pointer is a freshly allocated list page.
    let p = build_prps(&mut dma, 0x8000, 3 * 4096).unwrap();
    assert_eq!(p.prp1, 0x8000);
    assert_eq!(p.prp2, 0x10_0000);
    assert_eq!(p.list_page, Some(0x10_0000));
    // Misaligned or oversized regions cannot be described.
    assert_eq!(build_prps(&mut dma, 5, 100).unwrap_err(), NvmeError::DmaMapping);
    assert_eq!(build_prps(&mut dma, 0, 0).unwrap_err(), NvmeError::DmaMapping);
    assert_eq!(
        build_prps(&mut dma, 4096, 514 * 4096).unwrap_err(),
        NvmeError::DmaMapping
    );
}

#[test]
fn test_doorbell_offsets() {
    // Queue 0's doorbells open the doorbell region; with the minimum stride
    // of 4 bytes, queue 3's pair sits 24 and 28 bytes in.
    assert_eq!(doorbell_offsets(0, 4), (0x1000, 0x1004));
    assert_eq!(doorbell_offsets(3, 4), (0x1000 + 24, 0x1000 + 28));
    assert_eq!(doorbell_offsets(1, 32), (0x1000 + 64, 0x1000 + 96));
}
