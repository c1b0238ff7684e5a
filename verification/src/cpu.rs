//! The CPU state that instruction timing reads and changes.

use vstd::prelude::*;

use crate::branch_cache::BranchCache060;

verus! {

/// CPU model selection.
#[derive(Debug, Clone, Copy, PartialEq, Eq, Structural)]
pub enum CpuType {
    /// Original 68000 (24-bit address bus).
    M68000,
    /// 68010 with virtual memory support.
    M68010,
    /// 68020 embedded controller (no MMU).
    M68EC020,
    /// Full 68020 with 32-bit address bus.
    M68020,
    /// 68030 embedded controller (no MMU).
    M68EC030,
    /// Full 68030 with on-chip MMU.
    M68030,
    /// 68040 embedded controller (no FPU/MMU).
    M68EC040,
    /// 68040 lite (no FPU).
    M68LC040,
    /// Full 68040 with FPU and MMU.
    M68040,
    /// Superscalar 68060 with FPU and MMU.
    M68060,
    /// Philips SCC68070 variant.
    SCC68070,
}

/// PCR.ESS: enables superscalar dispatch on the 68060.
pub const PCR_ESS: u32 = 0x0000_0001;

/// CACR.EBC: enables the branch cache on the 68060.
pub const CACR_060_EBC: u32 = 0x0080_0000;

/// An instruction resident in the pOEP with its sOEP slot still open,
/// waiting for the next instruction to try the dispatch test.
#[derive(Debug, Clone, Copy, PartialEq, Eq, Structural)]
pub struct PendingHead060 {
    /// Registers the head writes (D0-D7 = bits 0-7, A0-A7 = 8-15).
    pub def_mask: u16,
    /// The head defines the CCR (late CCR consumers cannot pair behind it).
    pub defines_ccr: bool,
    /// The head has a memory operand (at most one per pair).
    pub accessed_mem: bool,
    /// The head's opcode fetch hit the instruction cache.
    pub head_cached: bool,
}

impl Default for PendingHead060 {
    fn default() -> (head: Self)
        ensures
            head == (PendingHead060 {
                def_mask: 0,
                defines_ccr: false,
                accessed_mem: false,
                head_cached: false,
            }),
    {
        PendingHead060 {
            def_mask: 0,
            defines_ccr: false,
            accessed_mem: false,
            head_cached: false,
        }
    }
}

/// 68060 pipeline timing state carried on the CPU (part of a machine's saved
/// state: it changes future cycle counts, and cycle counts change chipset
/// interleaving).
#[derive(Debug, PartialEq, Eq)]
pub struct Oep060Timing {
    /// Direct-mapped 68060 branch-prediction cache.
    pub branch_cache: BranchCache060,
    /// Retrospective pairing: the previous instruction, when it left an
    /// sOEP slot open. None after any pipeline break.
    pub pending_head: Option<PendingHead060>,
}

impl Clone for Oep060Timing {
    fn clone(&self) -> (copy: Self)
        ensures
            copy.branch_cache@ == self.branch_cache@,
            copy.pending_head == self.pending_head,
    {
        Oep060Timing {
            branch_cache: self.branch_cache.clone(),
            pending_head: self.pending_head,
        }
    }
}

impl Default for Oep060Timing {
    /// A cold pipeline with an empty branch cache.
    fn default() -> (timing: Self)
        ensures
            timing.branch_cache@.tags == Seq::new(256, |i: int| 0u32),
            timing.branch_cache@.state == Seq::new(256, |i: int| 0u8),
            timing.pending_head is None,
    {
        Oep060Timing { branch_cache: BranchCache060::default(), pending_head: None }
    }
}

/// What instruction timing needs to know of a CPU.
#[derive(Debug)]
pub struct CpuCore {
    /// The CPU model.
    pub cpu_type: CpuType,
    /// Address of the next instruction.
    pub pc: u32,
    /// Address of the instruction that just retired.
    pub ppc: u32,
    /// Instruction register. The opcode is in its low word.
    pub ir: u32,
    /// The instruction that just retired changed the flow of control.
    pub change_of_flow: bool,
    /// The CPU is in supervisor mode.
    pub supervisor: bool,
    /// Cache control register.
    pub cacr: u32,
    /// Processor configuration register (68060).
    pub pcr: u32,
    /// 68060 pipeline timing state.
    pub oep060: Oep060Timing,
}

impl CpuCore {
    /// The opcode word of the instruction that just retired.
    pub open spec fn opcode(&self) -> u16 {
        (self.ir as int % 0x1_0000) as u16
    }

    /// Superscalar dispatch is enabled.
    pub open spec fn superscalar(&self) -> bool {
        self.pcr % 2 == 1
    }

    /// The branch cache is enabled.
    pub open spec fn branch_cache_enabled(&self) -> bool {
        (self.cacr / CACR_060_EBC) % 2 == 1
    }

    /// Whether the CPU is in supervisor mode.
    pub fn is_supervisor(&self) -> (supervisor: bool)
        ensures
            supervisor == self.supervisor,
    {
        self.supervisor
    }
}

} // verus!
