//! 68060 instruction timing: superscalar pairing, branch folding and the cost
//! of retired instructions.
//!
//! The classification behind it is deliberately pessimistic where the
//! manual's rules are finer than an opcode-word decode can see (pessimism
//! under-pairs; it never over-pairs). The per-instruction constants are estimates for pipeline effects that the
//! opcode classification alone cannot derive.

use vstd::prelude::*;

use crate::branch_cache::BranchTable;
use crate::classify;
use crate::classify::{CYC_060_BRANCH_TAKEN, CYC_060_DBCC_EXPIRED};
use crate::cpu::{CpuCore, CpuType, PendingHead060, CACR_060_EBC, PCR_ESS};
use crate::entry_060::{
    Info060, OepClass, Timing060, F_BRANCH, F_DBCC, F_DEFINES_CCR, F_EA_INDEXED, F_READS_MEM,
    F_UNCLASSIFIED, F_USES_CCR_LATE, F_VARIABLE, F_WRITES_MEM,
};
use crate::info_table::info_060;
use crate::reg_masks;
use crate::reg_masks::reg_masks_060;
use crate::timing_laws;

verus! {

/// Clocks of a not-taken conditional branch.
pub const CYC_060_BRANCH_NOT_TAKEN: i32 = 1;

/// Clocks of a DBcc that loops (counter not expired, condition false).
pub const CYC_060_DBCC_TAKEN: i32 = 2;

/// Floor for non-branch flow changes (JMP/JSR/RTS/RTE...): refill cost.
pub const CYC_060_FLOW_MIN: i32 = 5;

/// Clocks of a mispredicted (or unpredicted-taken) branch with the branch
/// cache on.
pub const CYC_060_MISPREDICT: i32 = 7;

/// A 4-clock 68000 register operation is 1 clock on the 68060, which is also
/// the least that an instruction costs.
pub open spec fn fallback(raw: i32) -> int {
    if raw >= 4 {
        raw as int / 4
    } else {
        1
    }
}

/// The clocks of a straight-line instruction on its own.
pub open spec fn own_cycles(t: Timing060, raw: i32) -> int {
    (if t.variable || t.unclassified {
        fallback(raw)
    } else {
        t.cycles
    }) + (if t.ea_indexed {
        1int
    } else {
        0int
    })
}

/// No register that `written` holds is in one of the other masks: there is no
/// same-cycle forwarding from the pOEP to the sOEP, so RAW and WAW both block.
pub open spec fn masks_independent(written: u16, use_mask: u16, def_mask: u16) -> bool {
    forall|k: u16|
        k < 16 && #[trigger] reg_masks::in_mask(written, k) ==> !reg_masks::in_mask(
            use_mask,
            k,
        ) && !reg_masks::in_mask(def_mask, k)
}

/// The opcode neither uses nor defines a register that `written` holds.
pub open spec fn opcode_independent(written: u16, op: u16) -> bool {
    forall|k: u16|
        k < 16 && #[trigger] reg_masks::in_mask(written, k)
            ==> !reg_masks::uses_register(op, k) && !reg_masks::defines_register(op, k)
}

/// The rules of MC68060UM Table 10-1's dispatch test that do not speak of
/// registers: an instruction with timing `t` may execute in the sOEP beside
/// `head`.
pub open spec fn dispatch_rules(
    superscalar: bool,
    head: PendingHead060,
    t: Timing060,
    fetch_cached: bool,
) -> bool {
    // PCR.ESS gates superscalar dispatch globally.
    &&& superscalar
    // An uncached fetch stream is bus-limited and cannot feed two OEPs.
    &&& head.head_cached && fetch_cached
    // Only pOEP|sOEP instructions with a simple EA may dispatch to the
    // secondary pipeline.
    &&& t.class == OepClass::PoepSoep && !t.ea_indexed && !t.unclassified
        && !t.variable
    // A late CCR consumer cannot pair behind a CCR producer.
    &&& !(t.uses_ccr_late
        && head.defines_ccr)
    // At most one memory operand per pair.
    &&& !(head.accessed_mem && (t.reads_mem || t.writes_mem))
}

/// The instruction that just retired executed in the sOEP beside the one
/// before it.
pub open spec fn pairs(core: CpuCore, fetch_cached: bool) -> bool {
    core.oep060.pending_head matches Some(head) && {
        &&& dispatch_rules(
            core.superscalar(),
            head,
            classify::opcode_timing(core.opcode()),
            fetch_cached,
        )
        &&& opcode_independent(head.def_mask, core.opcode())
    }
}

/// `head` describes the instruction with opcode `op`, whose sOEP slot is open.
pub open spec fn is_head_of(head: PendingHead060, op: u16, fetch_cached: bool) -> bool {
    let t = classify::opcode_timing(op);
    &&& forall|k: u16|
        k < 16 ==> #[trigger] reg_masks::in_mask(head.def_mask, k)
            == reg_masks::defines_register(op, k)
    &&& head.defines_ccr == t.defines_ccr
    &&& head.accessed_mem == (t.reads_mem || t.writes_mem)
    &&& head.head_cached == fetch_cached
}

/// The branch that just retired was taken. A DBcc raises no change of flow; a
/// loop is visible as a PC that is not the fall-through.
pub open spec fn branch_taken(core: CpuCore) -> bool {
    if classify::opcode_timing(core.opcode()).dbcc {
        core.pc != (core.ppc + 4) % 0x1_0000_0000
    } else {
        core.change_of_flow
    }
}

/// The branch cache takes part in a branch whose fetch was cached or not.
pub open spec fn cache_used(core: CpuCore, fetch_cached: bool) -> bool {
    core.branch_cache_enabled() && fetch_cached
}

/// The clocks of the branch that just retired at `ppc`. With the branch cache
/// in use, a correctly predicted taken branch costs nothing if it can be
/// folded onto the previous instruction and one clock if not, a correct
/// not-taken costs one, and everything else pays the mispredict refill.
pub open spec fn branch_cost(
    core: CpuCore,
    taken: bool,
    is_dbcc: bool,
    fetch_cached: bool,
    fold_target_open: bool,
) -> int {
    let predicted = core.oep060.branch_cache@.prediction(core.ppc) == Some(true);
    if !cache_used(core, fetch_cached) {
        if is_dbcc && taken {
            CYC_060_DBCC_TAKEN as int
        } else if is_dbcc {
            CYC_060_DBCC_EXPIRED as int
        } else if taken {
            CYC_060_BRANCH_TAKEN as int
        } else {
            CYC_060_BRANCH_NOT_TAKEN as int
        }
    } else if predicted != taken {
        CYC_060_MISPREDICT as int
    } else if taken && fold_target_open {
        0
    } else {
        1
    }
}

/// The branch cache after the branch that just retired at `ppc`.
pub open spec fn branch_table_after(core: CpuCore, taken: bool, fetch_cached: bool) -> BranchTable {
    if cache_used(core, fetch_cached) {
        core.oep060.branch_cache@.updated(core.ppc, taken, !core.supervisor)
    } else {
        core.oep060.branch_cache@
    }
}

/// The instruction that just retired on `pre` costs `cost` clocks and leaves
/// the CPU as `post`, on a 68060.
pub open spec fn retires(
    pre: CpuCore,
    raw: i32,
    fetch_cached: bool,
    cost: int,
    post: CpuCore,
) -> bool {
    let op = pre.opcode();
    let t = classify::opcode_timing(op);
    let head = pre.oep060.pending_head;
    &&& same_but_timing(pre, post)
    &&& if t.branch {
        let taken = branch_taken(pre);
        &&& cost == branch_cost(pre, taken, t.dbcc, fetch_cached, head is Some)
        &&& post.oep060.branch_cache@ == branch_table_after(pre, taken, fetch_cached)
        &&& post.oep060.pending_head is None
    } else {
        &&& post.oep060.branch_cache@ == pre.oep060.branch_cache@
        &&& if pre.change_of_flow {
            &&& cost == if fallback(raw) >= CYC_060_FLOW_MIN {
                fallback(raw)
            } else {
                CYC_060_FLOW_MIN as int
            }
            &&& post.oep060.pending_head is None
        } else if pairs(pre, fetch_cached) {
            &&& cost == own_cycles(t, raw) - 1
            &&& post.oep060.pending_head is None
        } else {
            &&& cost == own_cycles(t, raw)
            &&& match post.oep060.pending_head {
                Some(head) => t.class != OepClass::PoepOnly && is_head_of(head, op, fetch_cached),
                None => t.class == OepClass::PoepOnly,
            }
        }
    }
}

/// The two CPUs differ in their 68060 timing state at most.
pub open spec fn same_but_timing(a: CpuCore, b: CpuCore) -> bool {
    b == (CpuCore { oep060: b.oep060, ..a })
}

/// The 68060 rule of thumb for costs not in the table: a 4-clock 68000
/// register operation is 1 clock on the 060.
pub fn fallback_cycles(raw: i32) -> (cycles: i32)
    ensures
        cycles == fallback(raw),
{
    (raw / 4).max(1)
}

/// Where the cost of a retired instruction comes from.
#[derive(Debug, Clone, Copy, PartialEq, Eq, Structural)]
pub enum FinalCycles {
    /// The instruction costs this many clocks.
    Charged(i32),
    /// The 68020/68030 cost tables apply to this raw count.
    Tables020 { raw: i32, fetch_cached: bool },
    /// The single-issue 68040 pipeline model applies to this raw count.
    Pipeline040 { raw: i32 },
    /// This raw 68000 count is scaled for the CPU model.
    Scaled { raw: i32 },
}

impl CpuCore {
    /// 68060 cycle cost for the instruction that just retired normally
    /// (exception entries keep the handlers' own costs). `raw` is the
    /// handler's 68000-reference count, used for data-dependent fallbacks;
    /// `fetch_cached` says whether the opcode fetch hit the instruction
    /// cache (pairing and branch folding need a cached stream).
    pub fn cycles_060(&mut self, raw: i32, fetch_cached: bool) -> (cost: i32)
        ensures
            retires(*old(self), raw, fetch_cached, cost as int, *final(self)),
            cost >= 0,
    {
        let ir: u32 = self.ir;
        assert(ir as u16 == ir % 0x1_0000) by (bit_vector);
        let op: u16 = #[verifier::truncate] (ir as u16);
        let info: Info060 = info_060(op);
        let flowed: bool = self.change_of_flow;
        proof {
            timing_laws::occupancy_is_in_range(op);
        }

        if info.has(F_BRANCH) {
            let taken: bool = if info.has(F_DBCC) {
                self.pc != self.ppc.wrapping_add(4)
            } else {
                flowed
            };
            // A folded branch needs an instruction to fold onto: only an open
            // pairing window lets it retire for free. This also guarantees
            // progress - a bare predicted `bra self` idle loop still costs a
            // clock per iteration instead of freezing emulated time.
            let fold_target_open: bool = self.oep060.pending_head.is_some();
            // A branch ends any open pairing window; the target starts cold.
            self.oep060.pending_head = None;
            return self.branch_cost_060(taken, info.has(F_DBCC), fetch_cached, fold_target_open);
        }
        if flowed {
            // JMP/JSR/RTS/RTE/RTR and friends: pipeline refill floor.
            self.oep060.pending_head = None;
            return fallback_cycles(raw).max(CYC_060_FLOW_MIN);
        }
        let mut cycles: i32 = if info.has(F_VARIABLE) || info.has(F_UNCLASSIFIED) {
            fallback_cycles(raw)
        } else {
            info.cycles()
        };
        if info.has(F_EA_INDEXED) {
            cycles += 1;
        }
        // Superscalar dispatch (retrospective pairing): if the previous
        // instruction left its sOEP slot open and this one satisfies the
        // dispatch test, it executes in the same clock - refund all but the
        // pair's shared cycle.

        let (use_mask, def_mask) = reg_masks_060(op);
        if let Some(head) = self.oep060.pending_head {
            if self.soep_dispatch_test(&head, info, use_mask, def_mask, fetch_cached) {
                self.oep060.pending_head = None;
                return (cycles - 1).max(0);
            }
        }
        // This instruction becomes the new head when its class leaves the
        // sOEP slot open (pOEP-only occupies both dispatch positions).

        self.oep060.pending_head = match info.class() {
            OepClass::PoepSoep | OepClass::PoepButAllowsSoep | OepClass::PoepUntilLast => Some(
                PendingHead060 {
                    def_mask,
                    defines_ccr: info.has(F_DEFINES_CCR),
                    accessed_mem: info.has(F_READS_MEM) || info.has(F_WRITES_MEM),
                    head_cached: fetch_cached,
                },
            ),
            OepClass::PoepOnly => None,
        };
        cycles
    }

    /// MC68060UM Table 10-1's dispatch test, one predicate so the manual's
    /// rules stand in one place. Deliberately pessimistic where the opcode
    /// word cannot express the full rule (under-pairing is the safe
    /// direction).
    pub fn soep_dispatch_test(
        &self,
        head: &PendingHead060,
        info: Info060,
        use_mask: u16,
        def_mask: u16,
        fetch_cached: bool,
    ) -> (dispatches: bool)
        ensures
            dispatches == (dispatch_rules(self.superscalar(), *head, info@, fetch_cached)
                && masks_independent(head.def_mask, use_mask, def_mask)),
    {
        let pcr: u32 = self.pcr;
        assert(pcr & 1 == pcr % 2) by (bit_vector);
        proof {
            lemma_masks_independent(head.def_mask, use_mask, def_mask);
        }
        if pcr & PCR_ESS == 0 {
            return false;
        }
        if !(head.head_cached && fetch_cached) {
            return false;
        }
        if info.class() != OepClass::PoepSoep || info.has(F_EA_INDEXED) || info.has(F_UNCLASSIFIED)
            || info.has(F_VARIABLE) {
            return false;
        }
        if (use_mask | def_mask) & head.def_mask != 0 {
            return false;
        }
        if info.has(F_USES_CCR_LATE) && head.defines_ccr {
            return false;
        }
        if head.accessed_mem && (info.has(F_READS_MEM) || info.has(F_WRITES_MEM)) {
            return false;
        }
        true
    }

    /// Clear any open pairing window.
    pub fn break_060_pipeline(&mut self)
        ensures
            same_but_timing(*old(self), *final(self)),
            final(self).oep060.pending_head is None,
            final(self).oep060.branch_cache@ == old(self).oep060.branch_cache@,
    {
        self.oep060.pending_head = None;
    }

    /// Branch cost: static refill numbers with the branch cache disabled;
    /// with CACR.EBC set, a correctly predicted taken branch folds to zero
    /// cycles if there is an instruction to fold onto, a correct not-taken
    /// costs one, and everything else pays the mispredict refill.
    pub fn branch_cost_060(
        &mut self,
        taken: bool,
        is_dbcc: bool,
        fetch_cached: bool,
        fold_target_open: bool,
    ) -> (cost: i32)
        ensures
            cost == branch_cost(*old(self), taken, is_dbcc, fetch_cached, fold_target_open),
            same_but_timing(*old(self), *final(self)),
            final(self).oep060.branch_cache@ == branch_table_after(
                *old(self),
                taken,
                fetch_cached,
            ),
            final(self).oep060.pending_head == old(self).oep060.pending_head,
    {
        let cacr: u32 = self.cacr;
        assert((cacr & 0x0080_0000 != 0) == ((cacr / 0x0080_0000) % 2 == 1)) by (bit_vector);
        if cacr & CACR_060_EBC == 0 || !fetch_cached {
            return match (is_dbcc, taken) {
                (true, true) => CYC_060_DBCC_TAKEN,
                (true, false) => CYC_060_DBCC_EXPIRED,
                (false, true) => CYC_060_BRANCH_TAKEN,
                (false, false) => CYC_060_BRANCH_NOT_TAKEN,
            };
        }
        let user: bool = !self.is_supervisor();
        let predicted_taken: bool = self.oep060.branch_cache.predict(self.ppc).unwrap_or(false);
        let cost: i32 = match (predicted_taken, taken) {
            // Folded out of the stream when it can ride the previous
            // instruction's cycle; a lone branch still issues for a clock.
            (true, true) => if fold_target_open {
                0
            } else {
                1
            },
            (false, false) => 1,
            _ => CYC_060_MISPREDICT,
        };
        self.oep060.branch_cache.update(self.ppc, taken, user);
        cost
    }

    /// Picks the timing model of the CPU. The 68030 runs the MC68020UM
    /// section-8 tables: its integer core is the 020's. The 68040 has its own
    /// single-issue pipeline model. Only the 68060 is costed here; for the
    /// others nothing changes, and the result says which model to apply.
    pub fn finalize_cycles(&mut self, raw: i32, fetch_cached: bool) -> (cycles: FinalCycles)
        ensures
            match old(self).cpu_type {
                CpuType::M68060 => cycles matches FinalCycles::Charged(cost) && retires(
                    *old(self),
                    raw,
                    fetch_cached,
                    cost as int,
                    *final(self),
                ),
                CpuType::M68EC020 | CpuType::M68020 | CpuType::M68EC030 | CpuType::M68030 => cycles
                    == (FinalCycles::Tables020 { raw, fetch_cached }) && *final(self)
                    == *old(self),
                CpuType::M68EC040 | CpuType::M68LC040 | CpuType::M68040 => cycles
                    == (FinalCycles::Pipeline040 { raw }) && *final(self) == *old(self),
                CpuType::M68000 | CpuType::M68010 | CpuType::SCC68070 => cycles
                    == (FinalCycles::Scaled { raw }) && *final(self) == *old(self),
            },
    {
        match self.cpu_type {
            CpuType::M68EC020 | CpuType::M68020 | CpuType::M68EC030 | CpuType::M68030 =>
                FinalCycles::Tables020 { raw, fetch_cached },
            CpuType::M68EC040 | CpuType::M68LC040 | CpuType::M68040 => FinalCycles::Pipeline040 {
                raw,
            },
            CpuType::M68060 => FinalCycles::Charged(self.cycles_060(raw, fetch_cached)),
            _ => FinalCycles::Scaled { raw },
        }
    }
}

/// Masks that have no bit in common are independent, and the other way round.
proof fn lemma_masks_independent(written: u16, use_mask: u16, def_mask: u16)
    ensures
        ((use_mask | def_mask) & written == 0) == masks_independent(written, use_mask, def_mask),
{
    assert((((use_mask | def_mask) & written) == 0) == (use_mask & written == 0 && def_mask
        & written == 0)) by (bit_vector);
    reg_masks::disjoint_masks(use_mask, written);
    reg_masks::disjoint_masks(def_mask, written);
}

} // verus!
