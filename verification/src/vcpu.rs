//! The register state of the virtual CPU that the monitor reads and sets.

use vstd::prelude::*;

verus! {

/// Bit 1 of the flags register is reserved and always reads as set.
pub const RFLAGS_RESERVED: u64 = 0x2;

/// The limit of a segment that spans the whole 32-bit address space.
pub const FLAT_LIMIT: u32 = 0xffff_ffff;

/// One segment register.
#[derive(Debug, Clone, Copy, PartialEq, Eq, Structural)]
pub struct Segment {
    pub base: u64,
    pub selector: u16,
    pub limit: u32,
}

/// A snapshot of the registers the monitor cares about. It is read from the
/// hypervisor whenever it is needed and never kept across run steps.
#[derive(Debug, Clone, Copy, PartialEq, Eq, Structural)]
pub struct VcpuState {
    pub rip: u64,
    pub rflags: u64,
    pub cs: Segment,
    pub ds: Segment,
    pub es: Segment,
    pub fs: Segment,
    pub gs: Segment,
    pub ss: Segment,
}

impl VcpuState {
    /// The state in which the guest starts at `entrypoint`: the instruction
    /// pointer is the entry point, the code segment is flat with base
    /// `segment_base`, selector 0 and no limit, the flags are `flags` with
    /// the reserved bit set, and the data segments are as they were.
    pub open spec fn spec_initialize(self, entrypoint: u64, segment_base: u64, flags: u64) -> VcpuState {
        VcpuState {
            rip: entrypoint,
            rflags: flags | RFLAGS_RESERVED,
            cs: Segment { base: segment_base, selector: 0, limit: FLAT_LIMIT },
            ds: self.ds,
            es: self.es,
            fs: self.fs,
            gs: self.gs,
            ss: self.ss,
        }
    }

    /// The linear address of the next instruction in real mode, sixteen
    /// times the code selector plus the instruction pointer, where that is
    /// an address.
    pub open spec fn spec_linear_rip(self) -> Option<u64> {
        if self.cs.selector * 16 + self.rip <= u64::MAX {
            Some((self.cs.selector * 16 + self.rip) as u64)
        } else {
            None
        }
    }

    /// Prepares the registers read from a fresh vCPU for a start at
    /// `entrypoint`.
    pub fn initialize(self, entrypoint: u64, segment_base: u64, flags: u64) -> (state: VcpuState)
        ensures
            state == self.spec_initialize(entrypoint, segment_base, flags),
            state.rflags & RFLAGS_RESERVED == RFLAGS_RESERVED,
    {
        let rflags: u64 = flags | RFLAGS_RESERVED;
        assert((flags | 0x2u64) & 0x2u64 == 0x2u64) by (bit_vector);
        VcpuState {
            rip: entrypoint,
            rflags,
            cs: Segment { base: segment_base, selector: 0, limit: FLAT_LIMIT },
            ds: self.ds,
            es: self.es,
            fs: self.fs,
            gs: self.gs,
            ss: self.ss,
        }
    }

    /// The usual start: a code segment at base 0 and flags with nothing but
    /// the reserved bit.
    pub fn boot(self, entrypoint: u64) -> (state: VcpuState)
        ensures
            state == self.spec_initialize(entrypoint, 0, RFLAGS_RESERVED),
            state.rip == entrypoint,
            state.rflags == RFLAGS_RESERVED,
            state.cs == (Segment { base: 0, selector: 0, limit: FLAT_LIMIT }),
    {
        assert(0x2u64 | 0x2u64 == 0x2u64) by (bit_vector);
        self.initialize(entrypoint, 0, RFLAGS_RESERVED)
    }

    /// The instruction pointer.
    pub fn get_rip(&self) -> (rip: u64)
        ensures
            rip == self.rip,
    {
        self.rip
    }

    /// The linear address of the next instruction in real mode.
    pub fn linear_rip(&self) -> (addr: Option<u64>)
        ensures
            addr == self.spec_linear_rip(),
    {
        let base: u64 = self.cs.selector as u64 * 16;
        base.checked_add(self.rip)
    }
}

} // verus!
