//! What the packed timing entries of opcodes hold, by the bit patterns of the
//! instruction set.

use vstd::prelude::*;

use crate::classify::{alu, classify_060_opcode, ea_flags};
use crate::entry_060;
use crate::entry_060::{Info060, OepClass};
use crate::info_table::{info_060, InfoTable060};
use crate::opcode;
use crate::reg_masks;
use crate::reg_masks::{ea_masks, reg_masks_060};
use crate::timing_laws;

verus! {

// Packed words

/// A packed word is its class, four times its clocks, and its flags, which lie
/// above the two: 0 stands for either pipeline, 1 for the primary one alone, 2
/// for the primary one until its last clock, 3 for a start in the primary one.
pub proof fn packed_word(class: OepClass, cycles: u16, flags: u16, info: Info060)
    requires
        call_ensures(Info060::new, (class, cycles, flags), info),
        flags % 0x80 == 0,
    ensures
        info.0 == (match class {
            OepClass::PoepSoep => 0int,
            OepClass::PoepOnly => 1,
            OepClass::PoepUntilLast => 2,
            OepClass::PoepButAllowsSoep => 3,
        }) + (cycles % 32) * 4 + flags,
{
    let code = entry_060::class_code(class);
    assert(code | ((cycles & 0x1F) << 2) | flags == code + (cycles % 32) * 4 + flags)
        by (bit_vector)
        requires
            code < 4,
            flags % 0x80 == 0,
    ;
}

/// A packed word is read as it was packed.
pub proof fn packed_word_is_read(info: Info060, class: OepClass, cycles: i32, flag: u16, present: bool)
    requires
        call_ensures(Info060::class, (info,), class),
        call_ensures(Info060::cycles, (info,), cycles),
        call_ensures(Info060::has, (info, flag), present),
    ensures
        info.0 % 4 == (match class {
            OepClass::PoepSoep => 0int,
            OepClass::PoepOnly => 1,
            OepClass::PoepUntilLast => 2,
            OepClass::PoepButAllowsSoep => 3,
        }),
        cycles == (info.0 / 4) % 32,
        present == (info.0 & flag != 0),
{
}

/// Classifying an opcode, asking for its entry and looking it up give the same
/// packed word.
pub proof fn lookups_agree(op: u16, classified: Info060, asked: Info060)
    requires
        call_ensures(classify_060_opcode, (op,), classified),
        call_ensures(info_060, (op,), asked),
    ensures
        classified.0 == asked.0,
        forall|table: &mut InfoTable060, found: Info060| #[trigger]
            call_ensures(InfoTable060::lookup, (table, op), found) ==> found.0 == classified.0,
{
    entry_060::entry_determines_word(classified, asked);
    assert forall|table: &mut InfoTable060, found: Info060| #[trigger]
        call_ensures(InfoTable060::lookup, (table, op), found) implies found.0
        == classified.0 by {
        entry_060::entry_determines_word(classified, found);
    }
}

// Effective addresses

/// The mode and register name memory: everything but a register and an
/// immediate.
pub open spec fn names_memory(mode: int, reg: int) -> bool {
    mode >= 2 && !(mode == 7 && reg == 4)
}

/// The mode and register name an indexed address.
pub open spec fn names_indexed(mode: int, reg: int) -> bool {
    mode == 6 || mode == 7 && reg == 3
}

/// An effective address adds 0x4000 if it is memory that is read, 0x8000 if it
/// is memory that is written, and 0x1000 if it is indexed.
pub proof fn effective_address_flags(mode: u16, reg: u16, read: bool, write: bool, flags: u16)
    requires
        call_ensures(ea_flags, (mode, reg, read, write), flags),
    ensures
        flags == (if read && names_memory(mode as int, reg as int) {
            0x4000int
        } else {
            0
        }) + (if write && names_memory(mode as int, reg as int) {
            0x8000int
        } else {
            0
        }) + (if names_indexed(mode as int, reg as int) {
            0x1000int
        } else {
            0
        }),
{
    assert(flags == (if flags & 0x4000 != 0 {
        0x4000u16
    } else {
        0
    }) + (if flags & 0x8000 != 0 {
        0x8000u16
    } else {
        0
    }) + (if flags & 0x1000 != 0 {
        0x1000u16
    } else {
        0
    })) by (bit_vector)
        requires
            flags & 0x007F == 0,
            flags & 0x0080 == 0,
            flags & 0x0100 == 0,
            flags & 0x0200 == 0,
            flags & 0x0400 == 0,
            flags & 0x0800 == 0,
            flags & 0x2000 == 0,
    ;
}

/// A one-clock operation is of the class for either pipeline, defines the CCR
/// and has the flags of its effective address.
pub proof fn one_clock_operation(mode: u16, reg: u16, read: bool, write: bool, info: Info060, flags: u16)
    requires
        call_ensures(alu, (mode, reg, read, write), info),
        call_ensures(ea_flags, (mode, reg, read, write), flags),
    ensures
        info.0 == 0x0404 + flags,
{
    effective_address_flags(mode, reg, read, write, flags);
    let word = info.0;
    assert(word == 0x0404 + (word & 0x4000) + (word & 0x8000) + (word & 0x1000) && (word & 0x4000
        == 0 || word & 0x4000 == 0x4000) && (word & 0x8000 == 0 || word & 0x8000 == 0x8000) && (word
        & 0x1000 == 0 || word & 0x1000 == 0x1000)) by (bit_vector)
        requires
            word % 4 == 0,
            (word / 4) % 32 == 1,
            word & 0x0080 == 0,
            word & 0x0100 == 0,
            word & 0x0200 == 0,
            word & 0x0400 != 0,
            word & 0x0800 == 0,
            word & 0x2000 == 0,
    ;
}

/// An effective address uses its data register in mode 0, its address register
/// in modes 1 to 5, every register in mode 6 and none in other modes; it
/// updates its address register in modes 3 and 4.
pub proof fn effective_address_registers(mode: u16, reg: u16, masks: (u16, u16), k: u16)
    requires
        reg < 8,
        k < 16,
        call_ensures(ea_masks, (mode, reg), masks),
    ensures
        (masks.0 & (1u16 << k) != 0) == (mode == 0 && k == reg || 1 <= mode <= 5 && k == 8 + reg
            || mode == 6),
        (masks.1 & (1u16 << k) != 0) == ((mode == 3 || mode == 4) && k == 8 + reg),
{
    assert(reg_masks::in_mask(masks.0, k) == reg_masks::ea_uses(mode as int, reg as int, k));
    assert(reg_masks::in_mask(masks.1, k) == reg_masks::ea_defines(mode as int, reg as int, k));
}

// Opcodes

/// MOVEM.
pub open spec fn is_movem(op: u16) -> bool {
    op & 0xFB80 == 0x4880 && op & 0xFFB8 != 0x4880 && op & 0xFFB8 != 0x4C80
}

/// TRAPcc, or Scc to an operand that cannot be written.
pub open spec fn is_trap_on_condition(op: u16) -> bool {
    op & 0xF0F8 == 0x50F8 && op % 8 >= 2
}

/// CMP2/CHK2, CAS/CAS2, MOVES, TRAPcc, bit fields and lines A and F.
pub open spec fn is_unclassified(op: u16) -> bool {
    ||| op & 0xFF00 == 0x0E00
    ||| op & 0xF1C0 == 0x00C0 && op & 0xFF00 != 0x0600 && op & 0xFF00 != 0x0800
    ||| is_trap_on_condition(op)
    ||| op & 0xF8C0 == 0xE8C0
    ||| op & 0xF000 == 0xA000 || op & 0xF000 == 0xF000
}

/// LINK.L, BKPT, PEA, what line 4E holds, and the holes of line 4.
pub open spec fn is_control(op: u16) -> bool {
    ||| op & 0xFFF8 == 0x4808 || op & 0xFFC0 == 0x4840 && op & 0xFFF8 != 0x4840
    ||| op & 0xFF00 == 0x4E00 || op & 0xF1C0 == 0x4140 || op & 0xFFB8 == 0x4C80
}

/// MOVE from SR or CCR.
pub open spec fn is_status_read(op: u16) -> bool {
    op & 0xFFC0 == 0x40C0 || op & 0xFFC0 == 0x42C0
}

/// MOVE to SR or CCR.
pub open spec fn is_status_write(op: u16) -> bool {
    op & 0xFFC0 == 0x44C0 || op & 0xFFC0 == 0x46C0
}

/// CHK of words or longwords.
pub open spec fn is_check(op: u16) -> bool {
    op & 0xF1C0 == 0x4180 || op & 0xF1C0 == 0x4100
}

/// ABCD, SBCD, PACK and UNPK.
pub open spec fn is_packed_arithmetic(op: u16) -> bool {
    ||| op & 0xF1F0 == 0x8100 || op & 0xF1F0 == 0x8140
    ||| op & 0xF1F0 == 0x8180 || op & 0xF1F0 == 0xC100
}

/// The class of an opcode: MOVEM alone is of the class until the last clock;
/// what only the primary pipeline executes is of the class for it alone, with
/// TRAPcc and the holes of the instruction set; everything else is of the
/// class for either pipeline.
pub proof fn class_by_pattern(op: u16, info: Info060)
    requires
        call_ensures(classify_060_opcode, (op,), info),
    ensures
        info.0 % 4 == (if is_movem(op) {
            2int
        } else if timing_laws::is_poep_only(op) || is_trap_on_condition(op) || is_control(op) || op
            & 0xF13F == 0x003C {
            1
        } else {
            0
        }),
{
    opcode::lemma_fields(op);
    opcode::lemma_masked_fields(op);
    lemma_movem(op);
}

/// MOVEM by its fields.
proof fn lemma_movem(op: u16)
    ensures
        op & 0xFB80 == 0x4880 <==> opcode::line(op) == 4 && (opcode::rx(op) == 4 || opcode::rx(op)
            == 6) && (opcode::opmode(op) == 2 || opcode::opmode(op) == 3),
{
    assert((op & 0xFB80 == 0x4880) == (op / 4096 == 4 && ((op / 512) % 8 == 4 || (op / 512) % 8
        == 6) && ((op / 64) % 8 == 2 || (op / 64) % 8 == 3))) by (bit_vector);
}

/// The packed clocks of an opcode: 7 for Bcc/BRA/BSR, 3 for DBcc, 2 for MOVEM,
/// TAS, CHK, multiplications, divisions, BCD arithmetic and PACK/UNPK, and 1
/// for everything else.
pub proof fn clocks_by_pattern(op: u16, info: Info060)
    requires
        call_ensures(classify_060_opcode, (op,), info),
    ensures
        (info.0 / 4) % 32 == (if op & 0xF000 == 0x6000 {
            7int
        } else if op & 0xF0F8 == 0x50C8 {
            3
        } else if is_movem(op) || op & 0xFFC0 == 0x4AC0 || is_check(op) || op & 0xFF80 == 0x4C00
            || op & 0xF0C0 == 0x80C0 || op & 0xF0C0 == 0xC0C0 || is_packed_arithmetic(op) {
            2
        } else {
            1
        }),
{
    opcode::lemma_fields(op);
    opcode::lemma_masked_fields(op);
    lemma_movem(op);
}

/// Branches are line 6 and DBcc, and DBcc is told apart.
pub proof fn branches_by_pattern(op: u16, info: Info060)
    requires
        call_ensures(classify_060_opcode, (op,), info),
    ensures
        (info.0 & 0x0080 != 0) == (op & 0xF000 == 0x6000 || op & 0xF0F8 == 0x50C8),
        (info.0 & 0x0100 != 0) == (op & 0xF0F8 == 0x50C8),
{
    opcode::lemma_fields(op);
    opcode::lemma_masked_fields(op);
}

/// The cost depends on data in MOVEM, CHK, divisions, long multiplications,
/// BCD arithmetic, PACK/UNPK, moves and immediates to and from the status
/// register, control, and whatever is not classified.
pub proof fn data_dependence_by_pattern(op: u16, info: Info060)
    requires
        call_ensures(classify_060_opcode, (op,), info),
    ensures
        (info.0 & 0x2000 != 0) == is_unclassified(op),
        (info.0 & 0x0200 != 0) == ({
            ||| is_unclassified(op) || is_movem(op) || is_check(op) || is_control(op)
            ||| is_status_read(op) || is_status_write(op)
            ||| op & 0xF13F == 0x003C && op & 0xFF00 != 0x0800
            ||| op & 0xFF80 == 0x4C00 || op & 0xF0C0 == 0x80C0 || is_packed_arithmetic(op)
        }),
{
    opcode::lemma_fields(op);
    opcode::lemma_masked_fields(op);
    lemma_movem(op);
}

/// The CCR or X is consumed late by Scc, DBcc, conditional branches, and the
/// operations that extend: NEGX, NBCD, ADDX/SUBX, ABCD/SBCD and ROXL/ROXR.
pub proof fn late_consumers_by_pattern(op: u16, info: Info060)
    requires
        call_ensures(classify_060_opcode, (op,), info),
    ensures
        (info.0 & 0x0800 != 0) == ({
            ||| op & 0xF0C0 == 0x50C0 && !is_trap_on_condition(op)
            ||| op & 0xF000 == 0x6000 && op & 0xFE00 != 0x6000
            ||| op & 0xFF00 == 0x4000 && op & 0xFFC0 != 0x40C0
            ||| op & 0xFFC0 == 0x4800 && op & 0xFFF8 != 0x4808
            ||| op & 0xF130 == 0x9100 && op & 0xF0C0 != 0x90C0
            ||| op & 0xF130 == 0xD100 && op & 0xF0C0 != 0xD0C0
            ||| op & 0xF1F0 == 0x8100 || op & 0xF1F0 == 0xC100
            ||| op & 0xF018 == 0xE010 && op & 0xF0C0 != 0xE0C0
            ||| op & 0xFEC0 == 0xE4C0
        }),
{
    opcode::lemma_fields(op);
    opcode::lemma_masked_fields(op);
}

/// Everything defines the CCR but LEA, EXG, MOVEM, MOVE from SR or CCR, Scc,
/// branches, control, and what is not classified.
pub proof fn ccr_producers_by_pattern(op: u16, info: Info060)
    requires
        call_ensures(classify_060_opcode, (op,), info),
    ensures
        (info.0 & 0x0400 == 0) == ({
            ||| op & 0xF1C0 == 0x41C0 && op & 0xFFF8 != 0x49C0
            ||| op & 0xF1F8 == 0xC140 || op & 0xF1F8 == 0xC148 || op & 0xF1F8 == 0xC188
            ||| is_movem(op) || is_status_read(op) || is_control(op) || is_unclassified(op)
            ||| op & 0xF0C0 == 0x50C0 || op & 0xF000 == 0x6000
        }),
{
    opcode::lemma_fields(op);
    opcode::lemma_masked_fields(op);
    lemma_movem(op);
}

/// An address is indexed in mode 6 and in mode 7 with register 3, of the
/// source and for a MOVE also of the destination, wherever the opcode word has
/// an effective address.
pub proof fn indexed_by_pattern(op: u16, info: Info060)
    requires
        call_ensures(classify_060_opcode, (op,), info),
    ensures
        (info.0 & 0x1000 != 0) == ({
            let source = names_indexed(((op / 8) % 8) as int, (op % 8) as int);
            let destination = names_indexed(((op / 64) % 8) as int, ((op / 512) % 8) as int);
            if 0x1000 <= op < 0x4000 {
                source || destination
            } else {
                &&& source && !is_unclassified(op)
                &&& op & 0xF000 != 0x6000 && op & 0xF000 != 0x7000
                &&& !(op & 0xF000 == 0xE000 && op & 0xF0C0 != 0xE0C0)
                &&& op & 0xFF80 != 0x4E00 && op & 0xF1C0 != 0x4140
            }
        }),
{
    opcode::lemma_fields(op);
    opcode::lemma_masked_fields(op);
}

/// An instruction of the class for either pipeline has a memory operand
/// exactly if an effective address of it names memory and it is not LEA, or it
/// is CMPM, or it shifts memory.
pub proof fn memory_operands_by_pattern(op: u16, info: Info060)
    requires
        call_ensures(classify_060_opcode, (op,), info),
        info.0 % 4 == 0,
    ensures
        (info.0 & 0x4000 != 0 || info.0 & 0x8000 != 0) == ({
            let source = names_memory(((op / 8) % 8) as int, (op % 8) as int);
            let destination = names_memory(((op / 64) % 8) as int, ((op / 512) % 8) as int);
            if 0x1000 <= op < 0x4000 {
                source || destination
            } else if op & 0xF000 == 0xE000 {
                op & 0xF0C0 == 0xE0C0
            } else {
                ||| source && op & 0xF000 != 0x7000 && op & 0xF1C0 != 0x41C0
                ||| op & 0xF138 == 0xB108 && op & 0xF0C0 != 0xB0C0
            }
        }),
{
    opcode::lemma_fields(op);
    opcode::lemma_masked_fields(op);
}

/// A MOVE reads memory exactly if its source names it, and writes memory
/// exactly if its destination does.
pub proof fn moves_read_and_write(op: u16, info: Info060)
    requires
        call_ensures(classify_060_opcode, (op,), info),
        0x1000 <= op < 0x4000,
    ensures
        (info.0 & 0x4000 != 0) == names_memory(((op / 8) % 8) as int, (op % 8) as int),
        (info.0 & 0x8000 != 0) == names_memory(((op / 64) % 8) as int, ((op / 512) % 8) as int),
{
}

// Registers

/// A MOVE uses what its two addresses are made of, defines what these step,
/// and defines a destination register.
pub proof fn move_registers(op: u16, masks: (u16, u16), source: (u16, u16), destination: (u16, u16))
    requires
        0x1000 <= op < 0x4000,
        call_ensures(reg_masks_060, (op,), masks),
        call_ensures(ea_masks, ((op / 8) % 8, op % 8), source),
        call_ensures(ea_masks, ((op / 64) % 8, (op / 512) % 8), destination),
    ensures
        masks.0 == source.0 | destination.0,
        forall|k: u16|
            k < 16 ==> (#[trigger] reg_masks::in_mask(masks.1, k) == ({
                ||| source.1 & (1u16 << k) != 0 || destination.1 & (1u16 << k) != 0
                ||| (op / 64) % 8 == 0 && k == (op / 512) % 8
                ||| (op / 64) % 8 == 1 && k == 8 + (op / 512) % 8
            })),
{
    let (su, du) = (source.0, destination.0);
    opcode::lemma_fields(op);
    assert forall|k: u16| k < 16 implies #[trigger] reg_masks::in_mask(masks.0, k)
        == reg_masks::in_mask(su | du, k) by {
        assert(((su | du) & (1u16 << k) != 0) == (su & (1u16 << k) != 0 || du & (1u16 << k) != 0))
            by (bit_vector);
        assert(reg_masks::in_mask(su, k) == reg_masks::ea_uses(
            opcode::mode(op),
            opcode::reg(op),
            k,
        ));
        assert(reg_masks::in_mask(du, k) == reg_masks::ea_uses(
            opcode::opmode(op),
            opcode::rx(op),
            k,
        ));
    }
    timing_laws::registers_determine_mask(masks.0, su | du);
    assert forall|k: u16| k < 16 implies (#[trigger] reg_masks::in_mask(masks.1, k) == ({
        ||| source.1 & (1u16 << k) != 0 || destination.1 & (1u16 << k) != 0
        ||| (op / 64) % 8 == 0 && k == (op / 512) % 8
        ||| (op / 64) % 8 == 1 && k == 8 + (op / 512) % 8
    })) by {
        assert(reg_masks::in_mask(source.1, k) == reg_masks::ea_defines(
            opcode::mode(op),
            opcode::reg(op),
            k,
        ));
        assert(reg_masks::in_mask(destination.1, k) == reg_masks::ea_defines(
            opcode::opmode(op),
            opcode::rx(op),
            k,
        ));
    }
}

} // verus!
