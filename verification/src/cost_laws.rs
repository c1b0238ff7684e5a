//! What a retired 68060 instruction costs and leaves behind, call by call.
//!
//! The laws speak of calls and of their results: the packed entry that
//! `classify_060_opcode` gives for the opcode in the low word of the
//! instruction register, the masks that `reg_masks_060` gives for it, and the
//! registers, the pairing window and the branch cache of the CPU. Of a packed
//! entry, the two low bits are the dispatch class (0 for either pipeline, 1
//! for the primary one alone, 2 for the primary one until its last clock), the
//! next five are the clocks, and the others are flags.

use vstd::prelude::*;

use crate::branch_cache::BranchCache060;
use crate::classify::classify_060_opcode;
use crate::cpu::{CpuCore, CpuType, Oep060Timing, PendingHead060};
use crate::entry_060::{
    Info060, F_BRANCH, F_DBCC, F_DEFINES_CCR, F_EA_INDEXED, F_READS_MEM, F_UNCLASSIFIED,
    F_USES_CCR_LATE, F_VARIABLE, F_WRITES_MEM,
};
use crate::reg_masks;
use crate::reg_masks::reg_masks_060;
use crate::timing_060;
use crate::timing_060::{fallback_cycles, FinalCycles};
use crate::timing_laws;

verus! {

/// The opcode word in an instruction register.
pub open spec fn opcode_word(ir: u32) -> u16 {
    (ir % 0x1_0000) as u16
}

/// The packed entry has no flag for a branch, and the flow did not change:
/// the instruction ran on straight.
pub open spec fn runs_straight(cpu: &CpuCore, info: Info060) -> bool {
    info.0 & F_BRANCH == 0 && !cpu.change_of_flow
}

/// The packed entry says that the cost depends on data.
pub open spec fn is_data_dependent(info: Info060) -> bool {
    info.0 & F_VARIABLE != 0 || info.0 & F_UNCLASSIFIED != 0
}

/// The packed entry has a memory operand.
pub open spec fn has_memory_operand(info: Info060) -> bool {
    info.0 & F_READS_MEM != 0 || info.0 & F_WRITES_MEM != 0
}

/// The branch at `pc` is predicted taken: its slot is valid, holds its
/// address, and its counter is 2 or 3.
pub open spec fn predicts_taken(cache: &BranchCache060, pc: u32) -> bool {
    let slot = ((pc / 2) % 256) as int;
    let state = cache@.state[slot];
    (state / 4) % 2 == 1 && cache@.tags[slot] == pc && (state % 4 == 2 || state % 4 == 3)
}

/// CACR.EBC (bit 23) is set and the fetch was cached: the branch cache takes
/// part.
pub open spec fn uses_branch_cache(cpu: &CpuCore, cached: bool) -> bool {
    (cpu.cacr / 0x80_0000) % 2 == 1 && cached
}

/// A raw 68000 count scales down by four, to one clock at least.
pub proof fn raw_counts_scale_by_four()
    ensures
        forall|raw: i32, clocks: i32| #[trigger]
            call_ensures(fallback_cycles, (raw,), clocks) ==> {
                &&& raw < 8 ==> clocks == 1
                &&& raw >= 4 ==> 4 * clocks <= raw < 4 * clocks + 4
            },
{
}

/// A straight-line instruction whose cost depends on data costs a quarter of
/// its raw count, rounded down and at least one clock, and one clock more for
/// an indexed address. This holds of every raw count, however large, and with
/// or without an open window: it never pairs.
pub proof fn data_dependent_cost()
    ensures
        forall|cpu: &mut CpuCore, raw: i32, cached: bool, cost: i32, info: Info060|
            #![trigger call_ensures(CpuCore::cycles_060, (cpu, raw, cached), cost), call_ensures(classify_060_opcode, (opcode_word((&*cpu).ir),), info)]
            call_ensures(CpuCore::cycles_060, (cpu, raw, cached), cost) && call_ensures(
                classify_060_opcode,
                (opcode_word((&*cpu).ir),),
                info,
            ) && runs_straight(&*cpu, info) && is_data_dependent(info) ==> {
                let extra: int = if info.0 & F_EA_INDEXED != 0 {
                    1
                } else {
                    0
                };
                &&& raw < 8 ==> cost == 1 + extra
                &&& raw >= 4 ==> 4 * (cost - extra) <= raw < 4 * (cost - extra) + 4
            },
{
}

/// Four raw clocks more are one clock more, without bound, wherever the cost
/// depends on data.
pub proof fn data_dependent_cost_grows_with_raw()
    ensures
        forall|
            a: &mut CpuCore,
            b: &mut CpuCore,
            raw_a: i32,
            raw_b: i32,
            cached_a: bool,
            cached_b: bool,
            cost_a: i32,
            cost_b: i32,
            info: Info060,
        |
            #![trigger call_ensures(CpuCore::cycles_060, (a, raw_a, cached_a), cost_a), call_ensures(CpuCore::cycles_060, (b, raw_b, cached_b), cost_b), call_ensures(classify_060_opcode, (opcode_word((&*a).ir),), info)]
            call_ensures(CpuCore::cycles_060, (a, raw_a, cached_a), cost_a) && call_ensures(
                CpuCore::cycles_060,
                (b, raw_b, cached_b),
                cost_b,
            ) && call_ensures(classify_060_opcode, (opcode_word((&*a).ir),), info) && opcode_word(
                (&*a).ir,
            ) == opcode_word((&*b).ir) && runs_straight(&*a, info) && runs_straight(&*b, info)
                && is_data_dependent(info) && raw_a >= 4 && raw_b == raw_a + 4 ==> cost_b == cost_a
                + 1,
{
}

/// A straight-line instruction whose cost does not depend on data costs its
/// packed clocks, one more for an indexed address, and one less if it pairs,
/// whatever its raw count is. With no window open it does not pair.
pub proof fn packed_cost()
    ensures
        forall|cpu: &mut CpuCore, raw: i32, cached: bool, cost: i32, info: Info060|
            #![trigger call_ensures(CpuCore::cycles_060, (cpu, raw, cached), cost), call_ensures(classify_060_opcode, (opcode_word((&*cpu).ir),), info)]
            call_ensures(CpuCore::cycles_060, (cpu, raw, cached), cost) && call_ensures(
                classify_060_opcode,
                (opcode_word((&*cpu).ir),),
                info,
            ) && runs_straight(&*cpu, info) && !is_data_dependent(info) ==> {
                let alone: int = (info.0 / 4) % 32 + if info.0 & F_EA_INDEXED != 0 {
                    1int
                } else {
                    0int
                };
                &&& cost == alone || cost == alone - 1
                &&& (&*cpu).oep060.pending_head is None ==> cost == alone
            },
{
}

/// An instruction pairs exactly if all of this holds: a window is open;
/// PCR.ESS (bit 0) is set; both fetches were cached; its class is the one for
/// either pipeline; its address is not indexed, its cost does not depend on
/// data; it neither uses nor defines a register that the head defines; it does
/// not consume the CCR late behind a head that defines it; and not both it and
/// the head have a memory operand. It then costs one clock less than alone.
pub proof fn pairing_conditions()
    ensures
        forall|cpu: &mut CpuCore, raw: i32, cached: bool, cost: i32, info: Info060, masks: (u16, u16)|
            #![trigger call_ensures(CpuCore::cycles_060, (cpu, raw, cached), cost), call_ensures(classify_060_opcode, (opcode_word((&*cpu).ir),), info), call_ensures(reg_masks_060, (opcode_word((&*cpu).ir),), masks)]
            call_ensures(CpuCore::cycles_060, (cpu, raw, cached), cost) && call_ensures(
                classify_060_opcode,
                (opcode_word((&*cpu).ir),),
                info,
            ) && call_ensures(
                reg_masks_060,
                (opcode_word((&*cpu).ir),),
                masks,
            ) && runs_straight(&*cpu, info) && !is_data_dependent(info) ==> {
                let alone: int = (info.0 / 4) % 32 + if info.0 & F_EA_INDEXED != 0 {
                    1int
                } else {
                    0int
                };
                let pairs = (&*cpu).oep060.pending_head matches Some(head) && {
                    &&& (&*cpu).pcr % 2 == 1
                    &&& head.head_cached && cached
                    &&& info.0 % 4 == 0
                    &&& info.0 & F_EA_INDEXED == 0
                    &&& (masks.0 | masks.1) & head.def_mask == 0
                    &&& !(info.0 & F_USES_CCR_LATE != 0 && head.defines_ccr)
                    &&& !(has_memory_operand(info) && head.accessed_mem)
                };
                cost == if pairs {
                    alone - 1
                } else {
                    alone
                }
            },
{
    assert forall|cpu: &mut CpuCore, info: Info060, masks: (u16, u16)|
        #![trigger call_ensures(classify_060_opcode, (opcode_word((&*cpu).ir),), info), call_ensures(reg_masks_060, (opcode_word((&*cpu).ir),), masks)]
        call_ensures(reg_masks_060, (opcode_word((&*cpu).ir),), masks) && (
        &*cpu).oep060.pending_head is Some implies ((masks.0 | masks.1) & (
    &*cpu).oep060.pending_head->Some_0.def_mask == 0) == timing_060::opcode_independent(
        (&*cpu).oep060.pending_head->Some_0.def_mask,
        opcode_word((&*cpu).ir),
    ) by {
        lemma_masks_meet(
            (&*cpu).oep060.pending_head->Some_0.def_mask,
            opcode_word((&*cpu).ir),
            masks,
        );
    }
}

/// Masks meet exactly if a register is in both.
proof fn lemma_masks_meet(written: u16, op: u16, masks: (u16, u16))
    requires
        call_ensures(reg_masks_060, (op,), masks),
    ensures
        ((masks.0 | masks.1) & written == 0) == timing_060::opcode_independent(written, op),
{
    let (uses, defs) = masks;
    assert((((uses | defs) & written) == 0) == (written & uses == 0 && written & defs == 0))
        by (bit_vector);
    reg_masks::disjoint_masks(written, uses);
    reg_masks::disjoint_masks(written, defs);
    if timing_060::opcode_independent(written, op) {
        assert forall|k: u16| k < 16 implies !(#[trigger] reg_masks::in_mask(written, k)
            && reg_masks::in_mask(uses, k)) && !(reg_masks::in_mask(written, k)
            && reg_masks::in_mask(defs, k)) by {
            assert(reg_masks::in_mask(uses, k) == reg_masks::uses_register(op, k));
            assert(reg_masks::in_mask(defs, k) == reg_masks::defines_register(op, k));
        }
    } else {
        let k = choose|k: u16|
            k < 16 && #[trigger] reg_masks::in_mask(written, k) && (reg_masks::uses_register(op, k)
                || reg_masks::defines_register(op, k));
        assert(reg_masks::in_mask(uses, k) == reg_masks::uses_register(op, k));
        assert(reg_masks::in_mask(defs, k) == reg_masks::defines_register(op, k));
    }
}

/// At most one instruction of a pair has a memory operand: behind a head that
/// accessed memory, an instruction that reads or writes memory costs what it
/// costs alone.
pub proof fn one_memory_operand_per_pair()
    ensures
        forall|cpu: &mut CpuCore, raw: i32, cached: bool, cost: i32, info: Info060|
            #![trigger call_ensures(CpuCore::cycles_060, (cpu, raw, cached), cost), call_ensures(classify_060_opcode, (opcode_word((&*cpu).ir),), info)]
            call_ensures(CpuCore::cycles_060, (cpu, raw, cached), cost) && call_ensures(
                classify_060_opcode,
                (opcode_word((&*cpu).ir),),
                info,
            ) && runs_straight(&*cpu, info) && !is_data_dependent(info) && (
            &*cpu).oep060.pending_head is Some && (&*cpu).oep060.pending_head->Some_0.accessed_mem
                && (info.0 & F_READS_MEM != 0 || info.0 & F_WRITES_MEM != 0) ==> cost == (info.0 / 4)
                % 32 + if info.0 & F_EA_INDEXED != 0 {
                1int
            } else {
                0int
            },
{
}

/// The dispatch test passes exactly if PCR.ESS (bit 0) is set, both fetches
/// were cached, the entry is of the class for either pipeline with a simple
/// address and a packed cost, no register of the two masks is one that the
/// head writes, no late CCR consumer stands behind a CCR producer, and not both
/// have a memory operand.
pub proof fn dispatch_test_conditions()
    ensures
        forall|
            cpu: &CpuCore,
            head: &PendingHead060,
            info: Info060,
            uses: u16,
            defs: u16,
            cached: bool,
            dispatches: bool,
        | #[trigger]
            call_ensures(
                CpuCore::soep_dispatch_test,
                (cpu, head, info, uses, defs, cached),
                dispatches,
            ) ==> dispatches == {
                &&& cpu.pcr % 2 == 1
                &&& head.head_cached && cached
                &&& info.0 % 4 == 0
                &&& info.0 & F_EA_INDEXED == 0 && !is_data_dependent(info)
                &&& (uses | defs) & head.def_mask == 0
                &&& !(info.0 & F_USES_CCR_LATE != 0 && head.defines_ccr)
                &&& !(has_memory_operand(info) && head.accessed_mem)
            },
{
    assert forall|uses: u16, defs: u16, written: u16|
        ((#[trigger] (uses | defs)) & written == 0) == #[trigger] timing_060::masks_independent(
            written,
            uses,
            defs,
        ) by {
        assert((((uses | defs) & written) == 0) == (uses & written == 0 && defs & written == 0))
            by (bit_vector);
        reg_masks::disjoint_masks(uses, written);
        reg_masks::disjoint_masks(defs, written);
    }
}

/// What an instruction leaves for the next one. A branch, a change of flow and
/// a paired instruction close the window, and so does one of the class for the
/// primary pipeline alone. Any other instruction opens one, which says what it
/// defines, whether it defines the CCR, whether it has a memory operand and
/// whether its fetch was cached.
pub proof fn window_after()
    ensures
        forall|cpu: &mut CpuCore, raw: i32, cached: bool, cost: i32, info: Info060, masks: (u16, u16)|
            #![trigger call_ensures(CpuCore::cycles_060, (cpu, raw, cached), cost), call_ensures(classify_060_opcode, (opcode_word((&*cpu).ir),), info), call_ensures(reg_masks_060, (opcode_word((&*cpu).ir),), masks)]
            call_ensures(CpuCore::cycles_060, (cpu, raw, cached), cost) && call_ensures(
                classify_060_opcode,
                (opcode_word((&*cpu).ir),),
                info,
            ) && call_ensures(
                reg_masks_060,
                (opcode_word((&*cpu).ir),),
                masks,
            ) ==> {
                let after = (&*final(cpu)).oep060.pending_head;
                let alone: int = (info.0 / 4) % 32 + if info.0 & F_EA_INDEXED != 0 {
                    1int
                } else {
                    0int
                };
                &&& !runs_straight(&*cpu, info) ==> after is None
                &&& runs_straight(&*cpu, info) && info.0 % 4 == 1 ==> after is None
                &&& runs_straight(&*cpu, info) && !is_data_dependent(info) && cost < alone
                    ==> after is None
                &&& runs_straight(&*cpu, info) && info.0 % 4 != 1 && (is_data_dependent(info)
                    || cost == alone) ==> after == Some(
                    PendingHead060 {
                        def_mask: masks.1,
                        defines_ccr: info.0 & F_DEFINES_CCR != 0,
                        accessed_mem: has_memory_operand(info),
                        head_cached: cached,
                    },
                )
            },
{
    assert forall|cpu: &mut CpuCore, raw: i32, cached: bool, cost: i32, info: Info060, masks: (u16, u16)|
        #![trigger call_ensures(CpuCore::cycles_060, (cpu, raw, cached), cost), call_ensures(classify_060_opcode, (opcode_word((&*cpu).ir),), info), call_ensures(reg_masks_060, (opcode_word((&*cpu).ir),), masks)]
        call_ensures(CpuCore::cycles_060, (cpu, raw, cached), cost) && call_ensures(
            reg_masks_060,
            (opcode_word((&*cpu).ir),),
            masks,
        ) && (&*final(cpu)).oep060.pending_head is Some implies (
    &*final(cpu)).oep060.pending_head->Some_0.def_mask == masks.1 by {
        timing_laws::registers_determine_mask(
            (&*final(cpu)).oep060.pending_head->Some_0.def_mask,
            masks.1,
        );
    }
}

/// Two instructions in a row that both have a memory operand never share a
/// clock, and neither do two of which the second uses or defines a register
/// that the first defines, nor a CCR producer and a late CCR consumer.
pub proof fn hazards_keep_instructions_apart()
    ensures
        forall|
            first: &mut CpuCore,
            second: &mut CpuCore,
            raw_a: i32,
            raw_b: i32,
            cached_a: bool,
            cached_b: bool,
            cost_a: i32,
            cost_b: i32,
            info_a: Info060,
            info_b: Info060,
            masks_a: (u16, u16),
            masks_b: (u16, u16),
        |
            #![trigger call_ensures(CpuCore::cycles_060, (first, raw_a, cached_a), cost_a), call_ensures(CpuCore::cycles_060, (second, raw_b, cached_b), cost_b), call_ensures(classify_060_opcode, (opcode_word((&*first).ir),), info_a), call_ensures(classify_060_opcode, (opcode_word((&*second).ir),), info_b), call_ensures(reg_masks_060, (opcode_word((&*first).ir),), masks_a), call_ensures(reg_masks_060, (opcode_word((&*second).ir),), masks_b)]
            call_ensures(CpuCore::cycles_060, (first, raw_a, cached_a), cost_a) && call_ensures(
                CpuCore::cycles_060,
                (second, raw_b, cached_b),
                cost_b,
            ) && call_ensures(classify_060_opcode, (opcode_word((&*first).ir),), info_a)
                && call_ensures(classify_060_opcode, (opcode_word((&*second).ir),), info_b)
                && call_ensures(reg_masks_060, (opcode_word((&*first).ir),), masks_a)
                && call_ensures(reg_masks_060, (opcode_word((&*second).ir),), masks_b) && (
            &*second).oep060.pending_head == (&*final(first)).oep060.pending_head && runs_straight(
                &*second,
                info_b,
            ) && !is_data_dependent(info_b) && {
                ||| has_memory_operand(info_a) && has_memory_operand(info_b)
                ||| (masks_b.0 | masks_b.1) & masks_a.1 != 0
                ||| info_a.0 & F_DEFINES_CCR != 0 && info_b.0 & F_USES_CCR_LATE != 0
                ||| !cached_a || !cached_b
            } ==> cost_b == (info_b.0 / 4) % 32 + if info_b.0 & F_EA_INDEXED != 0 {
                1int
            } else {
                0int
            },
{
    pairing_conditions();
    window_after();
}

/// A change of flow that is no branch costs the pipeline refill of 5 clocks at
/// least, and a quarter of the raw count where that is more.
pub proof fn flow_change_cost()
    ensures
        forall|cpu: &mut CpuCore, raw: i32, cached: bool, cost: i32, info: Info060|
            #![trigger call_ensures(CpuCore::cycles_060, (cpu, raw, cached), cost), call_ensures(classify_060_opcode, (opcode_word((&*cpu).ir),), info)]
            call_ensures(CpuCore::cycles_060, (cpu, raw, cached), cost) && call_ensures(
                classify_060_opcode,
                (opcode_word((&*cpu).ir),),
                info,
            ) && info.0 & F_BRANCH == 0 && (&*cpu).change_of_flow ==> {
                &&& cost >= 5
                &&& raw < 24 ==> cost == 5
                &&& raw >= 20 ==> 4 * cost <= raw < 4 * cost + 4
                &&& (&*final(cpu)).oep060.pending_head is None
                &&& (&*final(cpu)).oep060.branch_cache@ == (&*cpu).oep060.branch_cache@
            },
{
}

/// What a branch costs. A DBcc was taken if the next address is not the one
/// four bytes on, any other branch if the flow changed. Without the branch
/// cache a taken DBcc costs 2, an expired one 3, another branch 7 if taken and
/// 1 if not. With the cache, every branch whose outcome is not the predicted
/// one costs 7, a correct not-taken 1, and a correct taken nothing if a window
/// is open and 1 if none is.
pub proof fn branch_clocks()
    ensures
        forall|cpu: &mut CpuCore, raw: i32, cached: bool, cost: i32, info: Info060|
            #![trigger call_ensures(CpuCore::cycles_060, (cpu, raw, cached), cost), call_ensures(classify_060_opcode, (opcode_word((&*cpu).ir),), info)]
            call_ensures(CpuCore::cycles_060, (cpu, raw, cached), cost) && call_ensures(
                classify_060_opcode,
                (opcode_word((&*cpu).ir),),
                info,
            ) && info.0 & F_BRANCH != 0 ==> {
                let dbcc = info.0 & F_DBCC != 0;
                let taken = if dbcc {
                    (&*cpu).pc != (&*cpu).ppc + 4 && (&*cpu).pc + 0x1_0000_0000 != (&*cpu).ppc + 4
                } else {
                    (&*cpu).change_of_flow
                };
                let predicted = predicts_taken(&(&*cpu).oep060.branch_cache, (&*cpu).ppc);
                &&& !uses_branch_cache(&*cpu, cached) ==> {
                    &&& dbcc && taken ==> cost == 2
                    &&& dbcc && !taken ==> cost == 3
                    &&& !dbcc && taken ==> cost == 7
                    &&& !dbcc && !taken ==> cost == 1
                }
                &&& uses_branch_cache(&*cpu, cached) ==> {
                    &&& predicted != taken ==> cost == 7
                    &&& !predicted && !taken ==> cost == 1
                    &&& predicted && taken && (&*cpu).oep060.pending_head is Some ==> cost == 0
                    &&& predicted && taken && (&*cpu).oep060.pending_head is None ==> cost == 1
                }
                &&& (&*final(cpu)).oep060.pending_head is None
            },
{
}

/// What a branch costs by the outcome, the prediction and the open window that
/// it is charged for, DBcc or not.
pub proof fn branch_cost_clocks()
    ensures
        forall|cpu: &mut CpuCore, taken: bool, dbcc: bool, cached: bool, open: bool, cost: i32|
            #[trigger]
            call_ensures(CpuCore::branch_cost_060, (cpu, taken, dbcc, cached, open), cost) ==> {
                let predicted = predicts_taken(&(&*cpu).oep060.branch_cache, (&*cpu).ppc);
                &&& !uses_branch_cache(&*cpu, cached) ==> {
                    &&& dbcc && taken ==> cost == 2
                    &&& dbcc && !taken ==> cost == 3
                    &&& !dbcc && taken ==> cost == 7
                    &&& !dbcc && !taken ==> cost == 1
                }
                &&& uses_branch_cache(&*cpu, cached) ==> {
                    &&& predicted != taken ==> cost == 7
                    &&& !predicted && !taken ==> cost == 1
                    &&& predicted && taken && open ==> cost == 0
                    &&& predicted && taken && !open ==> cost == 1
                }
                &&& (&*final(cpu)).oep060.pending_head == (&*cpu).oep060.pending_head
            },
{
}

/// A branch trains the branch cache with its address, its outcome and the
/// privilege mode exactly if the cache takes part: the cache is then as an
/// update leaves it, and else as it was.
pub proof fn branch_trains_cache()
    ensures
        forall|cpu: &mut CpuCore, raw: i32, cached: bool, cost: i32, info: Info060, trained: &mut BranchCache060, outcome: bool, user: bool|
            #![trigger call_ensures(CpuCore::cycles_060, (cpu, raw, cached), cost), call_ensures(classify_060_opcode, (opcode_word((&*cpu).ir),), info), call_ensures(BranchCache060::update, (trained, (&*cpu).ppc, outcome, user), ())]
            call_ensures(CpuCore::cycles_060, (cpu, raw, cached), cost) && call_ensures(
                classify_060_opcode,
                (opcode_word((&*cpu).ir),),
                info,
            ) && call_ensures(
                BranchCache060::update,
                (trained, (&*cpu).ppc, outcome, user),
                (),
            ) && user == !(&*cpu).supervisor && info.0 & F_BRANCH != 0 && outcome == (if info.0 & F_DBCC
                != 0 {
                (&*cpu).pc != (&*cpu).ppc + 4 && (&*cpu).pc + 0x1_0000_0000 != (&*cpu).ppc + 4
            } else {
                (&*cpu).change_of_flow
            }) && &*trained == &(&*cpu).oep060.branch_cache ==> (
            &*final(cpu)).oep060.branch_cache@ == if uses_branch_cache(&*cpu, cached) {
                (&*final(trained))@
            } else {
                (&*cpu).oep060.branch_cache@
            },
{
}

/// Charging a branch trains the branch cache likewise.
pub proof fn branch_cost_trains_cache()
    ensures
        forall|
            cpu: &mut CpuCore,
            taken: bool,
            dbcc: bool,
            cached: bool,
            open: bool,
            cost: i32,
            trained: &mut BranchCache060,
            user: bool,
        |
            #![trigger call_ensures(CpuCore::branch_cost_060, (cpu, taken, dbcc, cached, open), cost), call_ensures(BranchCache060::update, (trained, (&*cpu).ppc, taken, user), ())]
            call_ensures(CpuCore::branch_cost_060, (cpu, taken, dbcc, cached, open), cost)
                && call_ensures(BranchCache060::update, (trained, (&*cpu).ppc, taken, user), ())
                && &*trained == &(&*cpu).oep060.branch_cache && user == !(&*cpu).supervisor ==> (
            &*final(cpu)).oep060.branch_cache@ == if uses_branch_cache(&*cpu, cached) {
                (&*final(trained))@
            } else {
                (&*cpu).oep060.branch_cache@
            },
{
}

/// An instruction that is no branch leaves the branch cache alone.
pub proof fn other_instructions_train_nothing()
    ensures
        forall|cpu: &mut CpuCore, raw: i32, cached: bool, cost: i32, info: Info060|
            #![trigger call_ensures(CpuCore::cycles_060, (cpu, raw, cached), cost), call_ensures(classify_060_opcode, (opcode_word((&*cpu).ir),), info)]
            call_ensures(CpuCore::cycles_060, (cpu, raw, cached), cost) && call_ensures(
                classify_060_opcode,
                (opcode_word((&*cpu).ir),),
                info,
            ) && info.0 & F_BRANCH == 0 ==> (&*final(cpu)).oep060.branch_cache@ == (
            &*cpu).oep060.branch_cache@,
{
}

/// Timing changes nothing of a CPU but its timing state.
pub proof fn timing_touches_nothing_else()
    ensures
        forall|cpu: &mut CpuCore, raw: i32, cached: bool, cost: i32| #[trigger]
            call_ensures(CpuCore::cycles_060, (cpu, raw, cached), cost) ==> differs_in_timing(
                &*cpu,
                &*final(cpu),
            ) && cost >= 0,
        forall|cpu: &mut CpuCore, taken: bool, dbcc: bool, cached: bool, open: bool, cost: i32|
            #[trigger]
            call_ensures(CpuCore::branch_cost_060, (cpu, taken, dbcc, cached, open), cost)
                ==> differs_in_timing(&*cpu, &*final(cpu)),
        forall|cpu: &mut CpuCore| #[trigger]
            call_ensures(CpuCore::break_060_pipeline, (cpu,), ()) ==> {
                &&& differs_in_timing(&*cpu, &*final(cpu))
                &&& (&*final(cpu)).oep060.pending_head is None
                &&& (&*final(cpu)).oep060.branch_cache@ == (&*cpu).oep060.branch_cache@
            },
{
}

/// Two CPUs agree in everything that is not timing state.
pub open spec fn differs_in_timing(a: &CpuCore, b: &CpuCore) -> bool {
    &&& a.cpu_type == b.cpu_type
    &&& a.pc == b.pc && a.ppc == b.ppc && a.ir == b.ir
    &&& a.change_of_flow == b.change_of_flow && a.supervisor == b.supervisor
    &&& a.cacr == b.cacr && a.pcr == b.pcr
}

/// A new pipeline is cold: no window is open and no branch is predicted. The
/// empty head stands in no one's way but was not cached.
pub proof fn new_pipeline_is_cold()
    ensures
        forall|timing: Oep060Timing, pc: u32| #[trigger]
            call_ensures(Oep060Timing::default, (), timing) ==> timing.pending_head is None
                && !#[trigger] predicts_taken(&timing.branch_cache, pc),
        forall|head: PendingHead060| #[trigger]
            call_ensures(PendingHead060::default, (), head) ==> head.def_mask == 0
                && !head.defines_ccr && !head.accessed_mem && !head.head_cached,
        forall|timing: &Oep060Timing, copy: Oep060Timing| #[trigger]
            call_ensures(Oep060Timing::clone, (timing,), copy) ==> copy.pending_head
                == timing.pending_head && copy.branch_cache@ == timing.branch_cache@,
        forall|cpu: &CpuCore, supervisor: bool| #[trigger]
            call_ensures(CpuCore::is_supervisor, (cpu,), supervisor) ==> supervisor
                == cpu.supervisor,
{
}

/// The 68060 is charged what its own timing charges, and is left as that
/// leaves it. Every other model is left alone, and its raw count is handed on
/// to the cost tables of the 020 and 030, to the pipeline of the 040, or to the
/// scaling of the rest.
pub proof fn models_have_their_timing()
    ensures
        forall|
            cpu: &mut CpuCore,
            own: &mut CpuCore,
            raw: i32,
            cached: bool,
            cycles: FinalCycles,
            cost: i32,
        |
            #![trigger call_ensures(CpuCore::finalize_cycles, (cpu, raw, cached), cycles), call_ensures(CpuCore::cycles_060, (own, raw, cached), cost)]
            call_ensures(CpuCore::finalize_cycles, (cpu, raw, cached), cycles) && call_ensures(
                CpuCore::cycles_060,
                (own, raw, cached),
                cost,
            ) && &*own == &*cpu && (&*cpu).cpu_type == CpuType::M68060 ==> {
                &&& cycles == FinalCycles::Charged(cost)
                &&& (&*final(cpu)).oep060.pending_head == (&*final(own)).oep060.pending_head
                &&& (&*final(cpu)).oep060.branch_cache@ == (&*final(own)).oep060.branch_cache@
            },
        forall|cpu: &mut CpuCore, raw: i32, cached: bool, cycles: FinalCycles| #[trigger]
            call_ensures(CpuCore::finalize_cycles, (cpu, raw, cached), cycles) ==> {
                let model = (&*cpu).cpu_type;
                &&& cycles is Charged == (model == CpuType::M68060)
                &&& cycles is Charged ==> differs_in_timing(&*cpu, &*final(cpu))
                &&& !(cycles is Charged) ==> &*final(cpu) == &*cpu
                &&& model is M68EC020 || model is M68020 || model is M68EC030 || model is M68030
                    ==> cycles == (FinalCycles::Tables020 { raw, fetch_cached: cached })
                &&& model is M68EC040 || model is M68LC040 || model is M68040 ==> cycles == (
                FinalCycles::Pipeline040 { raw })
                &&& model is M68000 || model is M68010 || model is SCC68070 ==> cycles == (
                FinalCycles::Scaled { raw })
            },
{
    assert forall|
        cpu: &mut CpuCore,
        own: &mut CpuCore,
        raw: i32,
        cached: bool,
        cycles: FinalCycles,
        cost: i32,
    |
        #![trigger call_ensures(CpuCore::finalize_cycles, (cpu, raw, cached), cycles), call_ensures(CpuCore::cycles_060, (own, raw, cached), cost)]
        call_ensures(CpuCore::finalize_cycles, (cpu, raw, cached), cycles) && call_ensures(
            CpuCore::cycles_060,
            (own, raw, cached),
            cost,
        ) && &*own == &*cpu && (&*cpu).cpu_type == CpuType::M68060 implies (
    &*final(cpu)).oep060.pending_head == (&*final(own)).oep060.pending_head by {
        let (a, b) = ((&*final(cpu)).oep060.pending_head, (&*final(own)).oep060.pending_head);
        if a is Some && b is Some {
            timing_laws::registers_determine_mask(a->Some_0.def_mask, b->Some_0.def_mask);
        }
    }
}

} // verus!
