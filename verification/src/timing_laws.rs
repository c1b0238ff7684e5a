//! What holds of 68060 timing across opcodes, branches and instructions.

use vstd::prelude::*;

use crate::branch_cache;
use crate::branch_cache::BranchTable;
use crate::classify;
use crate::cpu::{CpuCore, PendingHead060};
use crate::entry_060;
use crate::entry_060::{Info060, OepClass};
use crate::info_table;
use crate::opcode;
use crate::reg_masks;
use crate::timing_060;

verus! {

// Classification

/// Every opcode has an occupancy of at least one clock that fits its field.
pub proof fn occupancy_is_in_range(op: u16)
    ensures
        1 <= classify::opcode_timing(op).cycles <= 7,
{
}

/// An opcode that is not classified is treated pessimistically: it keeps the
/// secondary pipeline empty and takes its cost from the raw count.
pub proof fn unclassified_is_pessimistic(op: u16)
    ensures
        classify::opcode_timing(op).unclassified ==> classify::opcode_timing(op).class
            == OepClass::PoepOnly && classify::opcode_timing(op).variable,
{
}

/// The A-line and the F-line are not classified.
pub proof fn trap_lines_are_unclassified(op: u16)
    requires
        opcode::line(op) == 0xA || opcode::line(op) == 0xF,
    ensures
        classify::opcode_timing(op).unclassified,
{
}

/// The bit patterns of the instructions that only the primary pipeline
/// executes, with nothing beside them.
pub open spec fn is_poep_only(op: u16) -> bool {
    // BTST/BCHG/BCLR/BSET, dynamic and static, and MOVEP.
    ||| op & 0xF100 == 0x0100 || op & 0xFF00 == 0x0800
    // CMP2/CHK2, CAS/CAS2 and MOVES.
    ||| op & 0xFFC0 == 0x00C0 || op & 0xFFC0 == 0x02C0 || op & 0xFFC0 == 0x04C0
    ||| op & 0xFFC0 == 0x0AC0 || op & 0xFFC0 == 0x0CC0 || op & 0xFFC0 == 0x0EC0
    ||| op & 0xFF00 == 0x0E00
    // ORI, ANDI and EORI to CCR and to SR.
    ||| op == 0x003C || op == 0x007C || op == 0x023C
    ||| op == 0x027C || op == 0x0A3C || op == 0x0A7C
    // MOVE from SR, from CCR, to CCR and to SR.
    ||| op & 0xFFC0 == 0x40C0 || op & 0xFFC0 == 0x42C0
    ||| op & 0xFFC0 == 0x44C0 || op & 0xFFC0 == 0x46C0
    // TAS, MULL/DIVL, and CHK of words and longwords.
    ||| op & 0xFFC0 == 0x4AC0 || op & 0xFF80 == 0x4C00
    ||| op & 0xF1C0 == 0x4180 || op & 0xF1C0 == 0x4100
    // LINK.L, BKPT and PEA.
    ||| op & 0xFFF8 == 0x4808 || op & 0xFFC0 == 0x4840 && op & 0xFFF8 != 0x4840
    // TRAP, LINK, UNLK, MOVE USP, RESET, NOP, STOP, RTE, RTD, RTS, TRAPV, RTR,
    // MOVEC, JSR and JMP.
    ||| op & 0xFF00 == 0x4E00
    // DBcc, and Bcc/BRA/BSR.
    ||| op & 0xF0F8 == 0x50C8 || op & 0xF000 == 0x6000
    // DIVU.W/DIVS.W, SBCD, PACK and UNPK.
    ||| op & 0xF0C0 == 0x80C0
    ||| op & 0xF1F0 == 0x8100 || op & 0xF1F0 == 0x8140 || op & 0xF1F0 == 0x8180
    // SUBX and ADDX. The fourth size is SUBA.L and ADDA.L.
    ||| op & 0xF130 == 0x9100 && op & 0xF0C0 != 0x90C0
    ||| op & 0xF130 == 0xD100 && op & 0xF0C0 != 0xD0C0
    // MULU.W/MULS.W, ABCD and EXG.
    ||| op & 0xF0C0 == 0xC0C0 || op & 0xF1F0 == 0xC100
    ||| op & 0xF1F8 == 0xC140 || op & 0xF1F8 == 0xC148 || op & 0xF1F8 == 0xC188
    // Bit fields, and ROXL/ROXR of registers and of memory.
    ||| op & 0xF8C0 == 0xE8C0
    ||| op & 0xF018 == 0xE010 && op & 0xF0C0 != 0xE0C0
    ||| op & 0xFEC0 == 0xE4C0
    // Lines A and F.
    ||| op & 0xF000 == 0xA000 || op & 0xF000 == 0xF000
}

/// Pessimism never over-pairs: what only the primary pipeline executes is
/// classified so.
pub proof fn poep_only_is_classified(op: u16)
    requires
        is_poep_only(op),
    ensures
        classify::opcode_timing(op).class == OepClass::PoepOnly,
{
    opcode::lemma_fields(op);
    opcode::lemma_masked_fields(op);
}

/// What only the primary pipeline executes shares no clock with the
/// instruction before it, nor with the one behind it.
pub proof fn poep_only_never_pairs(
    pre: CpuCore,
    raw: i32,
    fetch_cached: bool,
    cost: int,
    post: CpuCore,
)
    requires
        is_poep_only(pre.opcode()),
        timing_060::retires(pre, raw, fetch_cached, cost, post),
    ensures
        !timing_060::pairs(pre, fetch_cached),
        post.oep060.pending_head is None,
{
    poep_only_is_classified(pre.opcode());
}

/// CHK, CMP2/CHK2, CAS/CAS2 and MOVES have a data-dependent cost, and all of
/// these but CHK are not classified.
pub proof fn checks_are_data_dependent(op: u16)
    requires
        op & 0xF1C0 == 0x4180 || op & 0xF1C0 == 0x4100 || op & 0xFF00 == 0x0E00 || (op & 0xF1C0
            == 0x00C0 && op & 0xFF00 != 0x0600 && op & 0xFF00 != 0x0800),
    ensures
        classify::opcode_timing(op).class == OepClass::PoepOnly,
        classify::opcode_timing(op).variable,
        classify::opcode_timing(op).unclassified == (op & 0xF000 == 0),
{
    opcode::lemma_fields(op);
    opcode::lemma_masked_fields(op);
}

/// LEA into any address register takes one clock in either pipeline, touches
/// neither memory nor the CCR, and pays for an indexed address alone.
pub proof fn load_address(op: u16)
    requires
        op & 0xF1C0 == 0x41C0,
        opcode::mode(op) >= 2,
    ensures
        ({
            let t = classify::opcode_timing(op);
            &&& t.class == OepClass::PoepSoep && t.cycles == 1
            &&& !t.variable && !t.unclassified && !t.branch
            &&& !t.reads_mem && !t.writes_mem
            &&& !t.defines_ccr && !t.uses_ccr_late
            &&& t.ea_indexed == (opcode::mode(op) == 6 || opcode::mode(op) == 7 && opcode::reg(op)
                == 3)
        }),
{
    opcode::lemma_fields(op);
    opcode::lemma_masked_fields(op);
}

/// CMPM reads memory and writes none, and steps both its address registers.
pub proof fn compare_memory(op: u16, k: u16)
    requires
        op & 0xF138 == 0xB108,
        op & 0xF0C0 != 0xB0C0,
    ensures
        classify::opcode_timing(op).reads_mem,
        !classify::opcode_timing(op).writes_mem,
        reg_masks::uses_register(op, k) == (k == 8 + opcode::reg(op) || k == 8 + opcode::rx(op)),
        reg_masks::defines_register(op, k) == reg_masks::uses_register(op, k),
{
    opcode::lemma_fields(op);
    opcode::lemma_masked_fields(op);
}

/// NEGX, NBCD, SUBX/ADDX, SBCD/ABCD and ROXL/ROXR consume X, so none of them
/// pairs behind an instruction that defines it.
pub proof fn extended_operations_consume_x(op: u16)
    requires
        ({
            ||| op & 0xFF00 == 0x4000 && op & 0xFFC0 != 0x40C0
            ||| op & 0xFFC0 == 0x4800 && op & 0xFFF8 != 0x4808
            ||| op & 0xF130 == 0x9100 && op & 0xF0C0 != 0x90C0
            ||| op & 0xF130 == 0xD100 && op & 0xF0C0 != 0xD0C0
            ||| op & 0xF1F0 == 0x8100 || op & 0xF1F0 == 0xC100
            ||| op & 0xF018 == 0xE010 && op & 0xF0C0 != 0xE0C0
            ||| op & 0xFEC0 == 0xE4C0
        }),
    ensures
        classify::opcode_timing(op).uses_ccr_late,
        classify::opcode_timing(op).defines_ccr,
{
    opcode::lemma_fields(op);
    opcode::lemma_masked_fields(op);
}

/// Branches are line 6 and DBcc. They keep the secondary pipeline empty, and
/// only a DBcc has the loop-mode cost.
pub proof fn branches(op: u16)
    ensures
        classify::opcode_timing(op).branch == (opcode::line(op) == 0x6 || opcode::line(op)
            == 0x5 && opcode::size(op) == 3 && opcode::mode(op) == 1),
        classify::opcode_timing(op).dbcc == (classify::opcode_timing(op).branch
            && opcode::line(op) == 0x5),
        classify::opcode_timing(op).branch ==> classify::opcode_timing(op).class
            == OepClass::PoepOnly,
{
}

/// All tables of packed entries are the same: the table is a function of the
/// opcode word alone.
pub proof fn info_table_is_unique(a: Seq<u16>, b: Seq<u16>)
    requires
        info_table::is_info_table(a),
        info_table::is_info_table(b),
    ensures
        a == b,
{
    assert forall|i: int| 0 <= i < a.len() implies a[i] == b[i] by {
        let op = i as u16;
        assert(Info060(a[op as int])@ == classify::opcode_timing(op));
        assert(Info060(b[op as int])@ == classify::opcode_timing(op));
        entry_060::entry_determines_word(Info060(a[i]), Info060(b[i]));
    }
    assert(a =~= b);
}

/// Looking an opcode up in the table and classifying it give the same packed
/// word.
pub proof fn table_holds_classification(table: Seq<u16>, op: u16, info: Info060)
    requires
        info_table::is_info_table(table),
        info@ == classify::opcode_timing(op),
    ensures
        table[op as int] == info.0,
{
    assert(Info060(table[op as int])@ == classify::opcode_timing(op));
    entry_060::entry_determines_word(Info060(table[op as int]), info);
}

// Registers

/// A mask is determined by the registers it holds.
pub proof fn registers_determine_mask(a: u16, b: u16)
    requires
        forall|k: u16|
            k < 16 ==> #[trigger] reg_masks::in_mask(a, k) == reg_masks::in_mask(b, k),
    ensures
        a == b,
{
    assert forall|k: u16| k < 16 implies !(#[trigger] reg_masks::in_mask(a & !b, k)
        && reg_masks::in_mask(0xFFFF, k)) by {
        lemma_in_difference(a, b, k);
    }
    assert forall|k: u16| k < 16 implies !(#[trigger] reg_masks::in_mask(b & !a, k)
        && reg_masks::in_mask(0xFFFF, k)) by {
        lemma_in_difference(b, a, k);
    }
    reg_masks::disjoint_masks(a & !b, 0xFFFF);
    reg_masks::disjoint_masks(b & !a, 0xFFFF);
    assert(a == b) by (bit_vector)
        requires
            (a & !b) & 0xFFFF == 0,
            (b & !a) & 0xFFFF == 0,
    ;
}

/// What the difference of two masks holds.
proof fn lemma_in_difference(a: u16, b: u16, k: u16)
    requires
        k < 16,
    ensures
        reg_masks::in_mask(a & !b, k) == (reg_masks::in_mask(a, k)
            && !reg_masks::in_mask(b, k)),
{
    assert((a & !b) & (1u16 << k) != 0 <==> a & (1u16 << k) != 0 && !(b & (1u16 << k) != 0))
        by (bit_vector);
}

/// EOR Dn,Dm changes Dm, and so does EXTB.L Dm. EXG Dn,Dm changes both.
pub proof fn register_destinations_are_defined(op: u16)
    requires
        op & 0xF138 == 0xB100 && op & 0xF0C0 != 0xB0C0 || op & 0xFFF8 == 0x49C0 || op & 0xF1F8
            == 0xC140,
    ensures
        reg_masks::uses_register(op, opcode::reg(op) as u16),
        reg_masks::defines_register(op, opcode::reg(op) as u16),
        op & 0xF1F8 == 0xC140 ==> reg_masks::defines_register(op, opcode::rx(op) as u16),
{
    opcode::lemma_fields(op);
    opcode::lemma_masked_fields(op);
}

/// An opcode whose registers are not decoded never pairs behind a head that
/// writes a register: pairing is blocked rather than wrongly allowed.
pub proof fn undecoded_registers_block_pairing(head: PendingHead060, op: u16)
    requires
        !reg_masks::decodes_registers(op),
        head.def_mask != 0,
    ensures
        !timing_060::opcode_independent(head.def_mask, op),
{
    if timing_060::opcode_independent(head.def_mask, op) {
        assert forall|k: u16| k < 16 implies !(#[trigger] reg_masks::in_mask(head.def_mask, k)
            && reg_masks::in_mask(0xFFFF, k)) by {
            assert(reg_masks::uses_register(op, k));
        }
        reg_masks::disjoint_masks(head.def_mask, 0xFFFF);
        let mask = head.def_mask;
        assert(mask & 0xFFFF == mask) by (bit_vector);
    }
}

// Branch cache

/// Slots lie in the table.
proof fn lemma_slot(pc: u32)
    ensures
        0 <= branch_cache::slot_of(pc) < 256,
{
}

/// Executing a branch keeps the shape of the table.
pub proof fn update_keeps_shape(table: BranchTable, pc: u32, taken: bool, user: bool)
    requires
        table.wf(),
    ensures
        table.updated(pc, taken, user).wf(),
        table.cleared().wf(),
        table.user_cleared().wf(),
{
}

/// A taken branch that has no entry gets one, which predicts taken and records
/// the privilege mode.
pub proof fn taken_miss_allocates(table: BranchTable, pc: u32, user: bool)
    requires
        table.wf(),
        !table.hits(pc),
    ensures
        table.updated(pc, true, user).prediction(pc) == Some(true),
        branch_cache::is_user(
            table.updated(pc, true, user).state[branch_cache::slot_of(pc)],
        ) == user,
{
    lemma_slot(pc);
}

/// A branch that has no entry and is not taken changes nothing.
pub proof fn not_taken_miss_changes_nothing(table: BranchTable, pc: u32, user: bool)
    requires
        !table.hits(pc),
    ensures
        table.updated(pc, false, user) == table,
{
}

/// A branch that has an entry keeps it, with the privilege mode recorded in
/// it, and its counter moves one step.
pub proof fn hit_steps_counter(table: BranchTable, pc: u32, taken: bool, user: bool)
    requires
        table.wf(),
        table.hits(pc),
    ensures
        ({
            let before = table.state[branch_cache::slot_of(pc)];
            let after = table.updated(pc, taken, user).state[branch_cache::slot_of(pc)];
            &&& table.updated(pc, taken, user).hits(pc)
            &&& branch_cache::is_user(after) == branch_cache::is_user(before)
            &&& branch_cache::counter(after) == branch_cache::step_counter(
                branch_cache::counter(before),
                taken,
            )
        }),
{
    lemma_slot(pc);
    let before = table.state[branch_cache::slot_of(pc)];
    let n = branch_cache::step_counter(branch_cache::counter(before), taken);
    lemma_counter_is_apart(before, n as u8);
}

/// Replacing the counter of a state byte leaves its other bits alone.
proof fn lemma_counter_is_apart(state: u8, n: u8)
    by (bit_vector)
    requires
        n < 4,
    ensures
        (((state - state % 4 + n) as u8) / 4) % 2 == (state / 4) % 2,
        (((state - state % 4 + n) as u8) / 8) % 2 == (state / 8) % 2,
        ((state - state % 4 + n) as u8) % 4 == n,
        0 <= state - state % 4 + n < 256,
{
}

/// However a branch was predicted, it is predicted taken once it was taken
/// twice in a row.
pub proof fn taken_twice_predicts_taken(table: BranchTable, pc: u32, user: bool)
    requires
        table.wf(),
    ensures
        table.updated(pc, true, user).updated(pc, true, user).prediction(pc) == Some(true),
{
    let once = table.updated(pc, true, user);
    update_keeps_shape(table, pc, true, user);
    if table.hits(pc) {
        hit_steps_counter(table, pc, true, user);
    } else {
        taken_miss_allocates(table, pc, user);
    }
    hit_steps_counter(once, pc, true, user);
}

/// However a branch was predicted, it is not predicted taken once it was not
/// taken twice in a row.
pub proof fn not_taken_twice_predicts_not_taken(table: BranchTable, pc: u32, user: bool)
    requires
        table.wf(),
    ensures
        table.updated(pc, false, user).updated(pc, false, user).prediction(pc) != Some(true),
{
    let once = table.updated(pc, false, user);
    update_keeps_shape(table, pc, false, user);
    if table.hits(pc) {
        hit_steps_counter(table, pc, false, user);
        hit_steps_counter(once, pc, false, user);
    }
}

/// A branch does not disturb the prediction of a branch in another slot.
pub proof fn other_slots_keep_prediction(
    table: BranchTable,
    pc: u32,
    other: u32,
    taken: bool,
    user: bool,
)
    requires
        table.wf(),
        branch_cache::slot_of(pc) != branch_cache::slot_of(other),
    ensures
        table.updated(pc, taken, user).prediction(other) == table.prediction(other),
{
    lemma_slot(pc);
    lemma_slot(other);
}

/// A taken branch evicts another branch that shares its slot.
pub proof fn taken_miss_evicts(table: BranchTable, pc: u32, other: u32, user: bool)
    requires
        table.wf(),
        pc != other,
        branch_cache::slot_of(pc) == branch_cache::slot_of(other),
    ensures
        table.updated(pc, true, user).prediction(other) is None,
{
    lemma_slot(pc);
    if table.hits(pc) {
        hit_steps_counter(table, pc, true, user);
    }
}

/// A cleared cache predicts nothing.
pub proof fn clearing_forgets_all(table: BranchTable, pc: u32)
    requires
        table.wf(),
    ensures
        table.cleared().prediction(pc) is None,
{
    lemma_slot(pc);
}

/// Clearing the user entries forgets those and keeps all others.
pub proof fn clearing_user_entries_keeps_others(table: BranchTable, pc: u32)
    requires
        table.wf(),
    ensures
        table.user_cleared().prediction(pc) == if branch_cache::is_user(
            table.state[branch_cache::slot_of(pc)],
        ) {
            None
        } else {
            table.prediction(pc)
        },
{
    lemma_slot(pc);
}

// Retired instructions

/// No instruction costs less than nothing.
pub proof fn cost_is_not_negative(
    pre: CpuCore,
    raw: i32,
    fetch_cached: bool,
    cost: int,
    post: CpuCore,
)
    requires
        timing_060::retires(pre, raw, fetch_cached, cost, post),
    ensures
        cost >= 0,
{
    occupancy_is_in_range(pre.opcode());
}

/// An instruction is free only if it shares a clock with the one before it,
/// and nothing more can share that clock.
pub proof fn free_instruction_closes_window(
    pre: CpuCore,
    raw: i32,
    fetch_cached: bool,
    cost: int,
    post: CpuCore,
)
    requires
        timing_060::retires(pre, raw, fetch_cached, cost, post),
        cost == 0,
    ensures
        pre.oep060.pending_head is Some,
        post.oep060.pending_head is None,
{
    occupancy_is_in_range(pre.opcode());
}

/// Emulated time moves on: of two instructions in a row at least one costs a
/// clock, whatever the first leaves in the registers for the second. A bare
/// branch to itself does not freeze the clock.
pub proof fn two_instructions_take_time(
    first: CpuCore,
    first_raw: i32,
    first_cached: bool,
    first_cost: int,
    between: CpuCore,
    second: CpuCore,
    second_raw: i32,
    second_cached: bool,
    second_cost: int,
    post: CpuCore,
)
    requires
        timing_060::retires(first, first_raw, first_cached, first_cost, between),
        second.oep060 == between.oep060,
        timing_060::retires(second, second_raw, second_cached, second_cost, post),
    ensures
        first_cost + second_cost >= 1,
{
    cost_is_not_negative(first, first_raw, first_cached, first_cost, between);
    cost_is_not_negative(second, second_raw, second_cached, second_cost, post);
    if first_cost == 0 {
        free_instruction_closes_window(first, first_raw, first_cached, first_cost, between);
    }
    if second_cost == 0 {
        free_instruction_closes_window(second, second_raw, second_cached, second_cost, post);
    }
}

/// Only a plain one-clock instruction pairs: one with an indexed address, a
/// data-dependent cost, no classification or the pOEP-only class never does.
pub proof fn only_simple_instructions_pair(core: CpuCore, fetch_cached: bool)
    requires
        timing_060::pairs(core, fetch_cached),
    ensures
        ({
            let t = classify::opcode_timing(core.opcode());
            &&& t.class == OepClass::PoepSoep
            &&& t.cycles == 1
            &&& !t.ea_indexed && !t.variable && !t.unclassified
        }),
{
}

/// Nothing pairs while superscalar dispatch is disabled, or off an uncached
/// fetch stream.
pub proof fn pairing_is_gated(core: CpuCore, fetch_cached: bool)
    requires
        !core.superscalar() || !fetch_cached,
    ensures
        !timing_060::pairs(core, fetch_cached),
{
}

/// A pair has no register hazard: the second instruction neither uses nor
/// defines a register that the first one wrote.
pub proof fn pairs_have_no_hazard(core: CpuCore, fetch_cached: bool, k: u16)
    requires
        timing_060::pairs(core, fetch_cached),
        k < 16,
        reg_masks::in_mask(core.oep060.pending_head->Some_0.def_mask, k),
    ensures
        !reg_masks::uses_register(core.opcode(), k),
        !reg_masks::defines_register(core.opcode(), k),
{
}

/// Pairing refunds exactly the shared clock: the same instruction without an
/// open window costs one clock more.
pub proof fn pairing_refunds_one_clock(
    paired: CpuCore,
    alone: CpuCore,
    raw: i32,
    fetch_cached: bool,
    paired_cost: int,
    alone_cost: int,
    paired_post: CpuCore,
    alone_post: CpuCore,
)
    requires
        timing_060::same_but_timing(paired, alone),
        timing_060::retires(paired, raw, fetch_cached, paired_cost, paired_post),
        timing_060::retires(alone, raw, fetch_cached, alone_cost, alone_post),
        timing_060::pairs(paired, fetch_cached),
        alone.oep060.pending_head is None,
        !paired.change_of_flow,
    ensures
        paired_cost + 1 == alone_cost,
{
}

/// A branch or any other change of flow leaves no pairing window open.
pub proof fn flow_changes_close_window(
    pre: CpuCore,
    raw: i32,
    fetch_cached: bool,
    cost: int,
    post: CpuCore,
)
    requires
        timing_060::retires(pre, raw, fetch_cached, cost, post),
        pre.change_of_flow || classify::opcode_timing(pre.opcode()).branch,
    ensures
        post.oep060.pending_head is None,
{
}

/// With the branch cache out of use, branches cost their static refill and
/// leave the cache alone.
pub proof fn disabled_cache_is_static(
    pre: CpuCore,
    taken: bool,
    is_dbcc: bool,
    cached: bool,
    open: bool,
)
    requires
        !timing_060::cache_used(pre, cached),
    ensures
        timing_060::branch_cost(pre, taken, is_dbcc, cached, open) == match (is_dbcc, taken) {
            (true, true) => 2int,
            (true, false) => 3int,
            (false, true) => 7int,
            (false, false) => 1int,
        },
        timing_060::branch_table_after(pre, taken, cached) == pre.oep060.branch_cache@,
{
}

/// With the branch cache in use, a branch that was taken before in the same
/// way is predicted and folds away behind an open window.
pub proof fn predicted_branch_folds(pre: CpuCore, is_dbcc: bool)
    requires
        pre.branch_cache_enabled(),
        pre.oep060.branch_cache@.prediction(pre.ppc) == Some(true),
    ensures
        timing_060::branch_cost(pre, true, is_dbcc, true, true) == 0,
        timing_060::branch_cost(pre, true, is_dbcc, true, false) == 1,
{
}

} // verus!
