//! Decoding of the controller capability (CAP) register.

use vstd::prelude::*;

use crate::error::NvmeError;

verus! {

/// Maximum-queue-entries field of CAP: bits 15:0, zero-based.
pub open spec fn spec_cap_mqes(cap: u64) -> u64 {
    cap & 0xffff
}

/// Doorbell-stride field of CAP: bits 35:32, as a power-of-two multiplier of 4 bytes.
pub open spec fn spec_cap_dstrd(cap: u64) -> u64 {
    (cap >> 32) & 0xf
}

/// Worst-case time the controller may take to become ready, CAP bits 31:24,
/// in 500 ms units.
pub open spec fn spec_cap_to(cap: u64) -> u64 {
    (cap >> 24) & 0xff
}

/// Fields decoded from the controller's CAP register.
///
/// `mqes_raw` is a zero-based count: a controller able to hold `n + 1` entries
/// per queue reports `n`. A controller reporting `0` offers no usable queue
/// depth (one entry is reserved for full/empty disambiguation) and must be
/// rejected, never queued against.
#[derive(Debug, Clone, Copy, PartialEq, Eq, Structural)]
pub struct ControllerCaps {
    /// Maximum queue entries supported, zero-based.
    pub mqes_raw: u16,
    /// Doorbell stride exponent.
    pub dstrd: u8,
    /// Ready timeout in 500 ms units.
    pub timeout_500ms: u8,
}

impl ControllerCaps {
    /// Decodes the raw 64-bit CAP register value.
    pub fn decode(cap: u64) -> (r: ControllerCaps)
        ensures
            r.mqes_raw == spec_cap_mqes(cap),
            r.dstrd == spec_cap_dstrd(cap),
            r.timeout_500ms == spec_cap_to(cap),
            r.dstrd <= 0xf,
    {
        let mqes_raw: u16 = (cap & 0xffff) as u16;
        let dstrd: u8 = ((cap >> 32) & 0xf) as u8;
        let timeout_500ms: u8 = ((cap >> 24) & 0xff) as u8;
        proof {
            assert(cap & 0xffff <= 0xffff) by (bit_vector);
            assert((cap >> 32) & 0xf <= 0xf) by (bit_vector);
            assert((cap >> 24) & 0xff <= 0xff) by (bit_vector);
        }
        ControllerCaps { mqes_raw, dstrd, timeout_500ms }
    }

    /// The number of usable entries a queue pair may have: `mqes_raw + 1`.
    ///
    /// A result of 1 (that is, `mqes_raw == 0`) leaves no room for any
    /// outstanding command once the reserved slot is taken out, and is the
    /// invalid-hardware condition the driver rejects at construction.
    pub fn max_queue_entries(&self) -> (r: u32)
        ensures
            r == self.mqes_raw + 1,
            1 <= r <= 0x10000,
    {
        self.mqes_raw as u32 + 1
    }

    /// Whether the capabilities admit at least one outstanding command per
    /// queue pair; false exactly when `mqes_raw == 0`.
    pub fn usable(&self) -> (r: bool)
        ensures
            r == (self.mqes_raw != 0),
    {
        self.mqes_raw != 0
    }

    /// Classifies the capabilities for bring-up: a controller reporting zero
    /// usable queue entries is rejected with the capability error — the one
    /// error an unusable capability ever produces — and any other controller
    /// passes. Driver construction and restore gate on this check, so the
    /// driver never attempts to create a zero-depth queue.
    pub fn check_usable(&self) -> (r: Result<(), NvmeError>)
        ensures
            r is Ok <==> self.mqes_raw >= 1,
            r is Err ==> r->Err_0 == NvmeError::Capability,
    {
        if self.mqes_raw == 0 {
            Err(NvmeError::Capability)
        } else {
            Ok(())
        }
    }

    /// Distance in bytes between consecutive doorbell registers.
    pub fn doorbell_stride_bytes(&self) -> (r: u32)
        requires
            self.dstrd <= 0xf,
        ensures
            r == (4u32 << self.dstrd as u32),
            4 <= r <= 0x40000,
    {
        let r: u32 = 4u32 << (self.dstrd as u32);
        proof {
            let d = self.dstrd as u32;
            assert(d <= 0xf ==> 4 <= (4u32 << d) <= 0x40000) by (bit_vector);
        }
        r
    }
}

} // verus!
