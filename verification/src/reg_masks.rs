//! Registers that an opcode word uses and defines.

use vstd::prelude::*;

use crate::classify;
use crate::opcode;

verus! {

/// Register `k` is in the mask: D0-D7 are bits 0-7, A0-A7 are bits 8-15.
pub open spec fn in_mask(mask: u16, k: u16) -> bool {
    mask & (1u16 << k) != 0
}

/// Register `k` is the data register `n`.
pub open spec fn is_data(k: u16, n: int) -> bool {
    k == n
}

/// Register `k` is the address register `n`.
pub open spec fn is_address(k: u16, n: int) -> bool {
    k == 8 + n
}

/// An effective address uses register `k`. The operand value is the business
/// of the instruction; this covers what the address is made of, and register
/// operands. The index register of an indexed mode is named in the extension
/// word, so these modes are taken to use every register.
pub open spec fn ea_uses(mode: int, reg: int, k: u16) -> bool {
    ||| mode == 0 && is_data(k, reg)
    ||| 1 <= mode <= 5 && is_address(k, reg)
    ||| mode == 6
}

/// An effective address updates register `k`: post-increment and pre-decrement.
pub open spec fn ea_defines(mode: int, reg: int, k: u16) -> bool {
    (mode == 3 || mode == 4) && is_address(k, reg)
}

/// Register `k` is the destination if a register is named by mode and register.
pub open spec fn is_operand(mode: int, reg: int, k: u16) -> bool {
    ||| mode == 0 && is_data(k, reg)
    ||| mode == 1 && is_address(k, reg)
}

/// The opcode word is one whose registers are decoded.
pub open spec fn decodes_registers(op: u16) -> bool {
    let line = opcode::line(op);
    ||| 0x1 <= line <= 0x3
    ||| line == 0x4 && (is_swap_or_extend(op) || is_load_address(op) || is_one_operand(op))
    ||| line == 0x5
    ||| line == 0x7
    ||| is_dyadic(op)
    ||| line == 0xE && opcode::size(op) != 3
}

/// SWAP, EXT.W, EXT.L or EXTB.L, which work on one data register.
pub open spec fn is_swap_or_extend(op: u16) -> bool {
    let opmode = opcode::opmode(op);
    &&& opcode::line(op) == 0x4 && opcode::rx(op) == 4 && opcode::mode(op) == 0
    &&& 1 <= opmode <= 3 || opmode == 7
}

/// LEA. EXTB.L has the encoding that LEA Dn,A4 would have.
pub open spec fn is_load_address(op: u16) -> bool {
    opcode::line(op) == 0x4 && opcode::opmode(op) == 7 && !is_swap_or_extend(op)
}

/// CLR/NEG/NEGX/NOT, TST and TAS, and MOVE from or to SR or CCR.
pub open spec fn is_one_operand(op: u16) -> bool {
    &&& opcode::line(op) == 0x4 && !opcode::dir(op)
    &&& opcode::rx(op) <= 3 || opcode::rx(op) == 5
}

/// DBcc, which counts in a data register.
pub open spec fn is_counted_branch(op: u16) -> bool {
    opcode::line(op) == 0x5 && opcode::size(op) == 3 && opcode::mode(op) == 1
}

/// OR/SUB/CMP/EOR/AND/ADD and what shares their lines.
pub open spec fn is_dyadic(op: u16) -> bool {
    let line = opcode::line(op);
    line == 0x8 || line == 0x9 || 0xB <= line <= 0xD
}

/// ADDA/SUBA/CMPA, whose second operand is an address register. The same
/// patterns of lines 8 and C are DIVU/DIVS and MULU/MULS, whose second operand
/// is a data register.
pub open spec fn is_address_form(op: u16) -> bool {
    let line = opcode::line(op);
    opcode::opmode(op) % 4 == 3 && (line == 0x9 || line == 0xB || line == 0xD)
}

/// ADDX/SUBX, ABCD/SBCD and PACK/UNPK, on data registers or, through -(An),
/// on memory.
pub open spec fn is_extended(op: u16) -> bool {
    let line = opcode::line(op);
    let opmode = opcode::opmode(op);
    &&& opcode::mode(op) <= 1 && 4 <= opmode <= 6
    &&& line == 0x8 || line == 0x9 || line == 0xD || line == 0xC && opmode == 4
}

/// CMPM, which works on memory through (An)+.
pub open spec fn is_compare_memory(op: u16) -> bool {
    opcode::line(op) == 0xB && opcode::mode(op) == 1 && 4 <= opcode::opmode(op) <= 6
}

/// EXG swaps register `k` with another.
pub open spec fn is_exchanged(op: u16, k: u16) -> bool {
    if opcode::opmode(op) == 5 {
        is_operand(opcode::mode(op), opcode::rx(op), k) || is_operand(
            opcode::mode(op),
            opcode::reg(op),
            k,
        )
    } else {
        is_data(k, opcode::rx(op)) || is_address(k, opcode::reg(op))
    }
}

/// The instruction uses register `k`.
pub open spec fn uses_register(op: u16, k: u16) -> bool {
    let line = opcode::line(op);
    let rx = opcode::rx(op);
    let opmode = opcode::opmode(op);
    let mode = opcode::mode(op);
    let reg = opcode::reg(op);
    if !decodes_registers(op) {
        true
    } else if line <= 0x3 {
        ea_uses(mode, reg, k) || ea_uses(opmode, rx, k)
    } else if is_counted_branch(op) {
        is_data(k, reg)
    } else if line <= 0x5 {
        ea_uses(mode, reg, k)
    } else if line == 0x7 {
        false
    } else if line == 0xE {
        // The upper mode bit says that the count is in a register.
        is_data(k, reg) || mode >= 4 && is_data(k, rx)
    } else if classify::is_exchange(op) {
        is_exchanged(op, k)
    } else if is_extended(op) || is_compare_memory(op) {
        is_operand(mode, rx, k) || is_operand(mode, reg, k)
    } else if is_address_form(op) {
        ea_uses(mode, reg, k) || is_address(k, rx)
    } else {
        ea_uses(mode, reg, k) || is_data(k, rx)
    }
}

/// The instruction defines register `k`.
pub open spec fn defines_register(op: u16, k: u16) -> bool {
    let line = opcode::line(op);
    let rx = opcode::rx(op);
    let opmode = opcode::opmode(op);
    let mode = opcode::mode(op);
    let reg = opcode::reg(op);
    if !decodes_registers(op) {
        true
    } else if line <= 0x3 {
        ea_defines(mode, reg, k) || ea_defines(opmode, rx, k) || is_operand(opmode, rx, k)
    } else if line == 0x4 {
        if is_load_address(op) {
            is_address(k, rx)
        } else {
            ea_defines(mode, reg, k) || mode == 0 && is_data(k, reg)
        }
    } else if is_counted_branch(op) {
        is_data(k, reg)
    } else if line == 0x5 {
        ea_defines(mode, reg, k) || is_operand(mode, reg, k)
    } else if line == 0x7 {
        is_data(k, rx)
    } else if line == 0xE {
        is_data(k, reg)
    } else if classify::is_exchange(op) {
        is_exchanged(op, k)
    } else if is_extended(op) || is_compare_memory(op) {
        // Addresses step on both sides; of data registers only Dx changes.
        is_operand(mode, rx, k) || mode == 1 && is_address(k, reg)
    } else if is_address_form(op) {
        ea_defines(mode, reg, k) || is_address(k, rx)
    } else if opmode <= 3 || opmode == 7 {
        ea_defines(mode, reg, k) || is_data(k, rx)
    } else {
        // The destination is the effective address: memory, or for EOR a
        // data register.
        ea_defines(mode, reg, k) || is_operand(mode, reg, k)
    }
}

/// A mask of one register holds that register alone.
proof fn lemma_one_register(n: u16)
    requires
        n < 16,
    ensures
        forall|k: u16| k < 16 ==> #[trigger] in_mask(1u16 << n, k) == (k == n),
{
    assert forall|k: u16| k < 16 implies #[trigger] in_mask(1u16 << n, k) == (k == n) by {
        assert(((1u16 << n) & (1u16 << k) != 0) == (k == n)) by (bit_vector)
            requires
                n < 16,
                k < 16,
        ;
    }
}

/// Masks join as sets do, the empty mask holds nothing, and the full mask
/// holds everything.
proof fn lemma_masks()
    ensures
        forall|a: u16, b: u16, k: u16| #[trigger]
            in_mask(a | b, k) == (in_mask(a, k) || in_mask(b, k)),
        forall|k: u16| !#[trigger] in_mask(0, k),
        forall|k: u16| k < 16 ==> #[trigger] in_mask(0xFFFF, k),
{
    assert forall|a: u16, b: u16, k: u16| #[trigger]
        in_mask(a | b, k) == (in_mask(a, k) || in_mask(b, k)) by {
        assert(((a | b) & (1u16 << k) != 0) == (a & (1u16 << k) != 0 || b & (1u16 << k) != 0))
            by (bit_vector);
    }
    assert forall|k: u16| !#[trigger] in_mask(0, k) by {
        assert(0 & (1u16 << k) == 0) by (bit_vector);
    }
    assert forall|k: u16| k < 16 implies #[trigger] in_mask(0xFFFF, k) by {
        assert(0xFFFF & (1u16 << k) != 0) by (bit_vector)
            requires
                k < 16,
        ;
    }
}

/// Two masks that have no bit in common hold no register in common, and the
/// other way round.
pub proof fn disjoint_masks(a: u16, b: u16)
    ensures
        (a & b == 0) == (forall|k: u16| k < 16 ==> !(#[trigger] in_mask(a, k) && in_mask(b, k))),
{
    if a & b == 0 {
        assert forall|k: u16| k < 16 implies !(#[trigger] in_mask(a, k) && in_mask(b, k)) by {
            assert(!(a & (1u16 << k) != 0 && b & (1u16 << k) != 0)) by (bit_vector)
                requires
                    a & b == 0,
                    k < 16,
            ;
        }
    } else {
        let k = lemma_common_bit(a, b, 15);
        assert(in_mask(a, k) && in_mask(b, k));
    }
}

/// A bit that two overlapping masks share, at or below `top`.
proof fn lemma_common_bit(a: u16, b: u16, top: u16) -> (k: u16)
    requires
        a & b != 0,
        top < 16,
        top == 15 || (a & b) >> (top + 1) as u16 == 0,
    ensures
        k < 16,
        in_mask(a, k),
        in_mask(b, k),
    decreases top,
{
    if in_mask(a, top) && in_mask(b, top) {
        top
    } else {
        let next = (top + 1) as u16;
        assert((a & b) >> top == 0) by (bit_vector)
            requires
                top < 16,
                next == top + 1,
                top == 15 || (a & b) >> next == 0,
                !(a & (1u16 << top) != 0 && b & (1u16 << top) != 0),
        ;
        if top == 0 {
            assert((a & b) >> 0 == a & b) by (bit_vector);
            assert(false);
        }
        lemma_common_bit(a, b, (top - 1) as u16)
    }
}

/// (use, def) contributed by a standard EA field. The operand value use/def
/// is the caller's business; this covers address registers.
pub fn ea_masks(mode: u16, reg: u16) -> (masks: (u16, u16))
    requires
        reg < 8,
    ensures
        forall|k: u16|
            k < 16 ==> #[trigger] in_mask(masks.0, k) == ea_uses(mode as int, reg as int, k),
        forall|k: u16|
            k < 16 ==> #[trigger] in_mask(masks.1, k) == ea_defines(mode as int, reg as int, k),
{
    proof {
        lemma_masks();
        lemma_one_register(reg);
        lemma_one_register((8 + reg) as u16);
    }
    match mode {
        // Dn operand
        0 => (1u16 << reg, 0),
        // An operand
        1 => (1u16 << (8 + reg), 0),
        // (An) / (d16,An)
        2 | 5 => (1u16 << (8 + reg), 0),
        // (An)+ / -(An): reads and updates An.
        3 | 4 => (1u16 << (8 + reg), 1u16 << (8 + reg)),
        // Indexed: the index register is in the extension word - pessimistic
        // full use.
        6 => (0xFFFF, 0),
        // abs / pc-rel / immediate
        _ => (0, 0),
    }
}

/// The mask of the data register in mode 0 and of the address register in
/// mode 1; other modes name no register operand.
fn operand_mask(mode: u16, n: u16) -> (mask: u16)
    requires
        n < 8,
    ensures
        forall|k: u16| k < 16 ==> #[trigger] in_mask(mask, k) == is_operand(mode as int, n as int, k),
{
    proof {
        lemma_masks();
        lemma_one_register(n);
        lemma_one_register((8 + n) as u16);
    }
    match mode {
        0 => 1u16 << n,
        1 => 1u16 << (8 + n),
        _ => 0,
    }
}

/// Registers an instruction uses and defines (D0-D7 = bits 0-7,
/// A0-A7 = bits 8-15), decoded from the opcode word alone for the pairing
/// dependency test. Extension-word index registers are invisible here,
/// which is safe: indexed EAs never dispatch to the secondary pipeline.
/// Anything not decoded returns full masks - pessimistic, so pairing is
/// blocked rather than wrongly allowed.
pub fn reg_masks_060(op: u16) -> (masks: (u16, u16))
    ensures
        forall|k: u16| k < 16 ==> #[trigger] in_mask(masks.0, k) == uses_register(op, k),
        forall|k: u16| k < 16 ==> #[trigger] in_mask(masks.1, k) == defines_register(op, k),
{
    let mode: u16 = (op >> 3) & 7;
    let reg: u16 = op & 7;
    let rx: u16 = (op >> 9) & 7;
    let dir: bool = op & 0x0100 != 0;
    let size: u16 = (op >> 6) & 3;
    let opmode: u16 = (op >> 6) & 7;
    let full: (u16, u16) = (0xFFFFu16, 0xFFFFu16);
    proof {
        opcode::lemma_fields(op);
        opcode::lemma_shifted_fields(op);
        lemma_masks();
        lemma_one_register(reg);
        lemma_one_register(rx);
        lemma_one_register((8 + rx) as u16);
    }

    match op >> 12 {
        // MOVE/MOVEA: src EA -> dst EA.
        0x1..=0x3 => {
            let (su, sd) = ea_masks(mode, reg);
            let (du, dd) = ea_masks(opmode, rx);
            (su | du, sd | dd | operand_mask(opmode, rx))
        },
        // MOVEQ #imm,Dn.
        0x7 => (0, 1u16 << rx),
        // Dyadic groups: OR/SUB/CMP-EOR/AND/ADD with a Dn (or An for the
        // address forms) and an EA.
        0x8 | 0x9 | 0xB | 0xC | 0xD => dyadic_masks(op),
        // ADDQ/SUBQ/Scc: single EA operand. DBcc counts in Dn.
        0x5 => {
            if size == 3 && mode == 1 {
                (1u16 << reg, 1u16 << reg)
            } else {
                let (eu, ed) = ea_masks(mode, reg);
                (eu, ed | operand_mask(mode, reg))
            }
        },
        // Register shifts/rotates define Dn; the register-count form also
        // uses the count register.
        0xE if size != 3 => {
            let count_use: u16 = if mode >= 4 {
                1u16 << rx
            } else {
                0
            };
            ((1u16 << reg) | count_use, 1u16 << reg)
        },
        0x4 => {
            let (eu, ed) = ea_masks(mode, reg);
            let on_data_register: bool = rx == 4 && mode == 0 && size >= 1;
            if opmode == 7 && !on_data_register {
                // LEA <ea>,An.
                (eu, 1u16 << (8 + rx))
            } else if !dir && (rx <= 3 || rx == 5) || on_data_register && (!dir || size == 3) {
                // CLR/NEG/NEGX/NOT/TST/EXT/SWAP-shaped single-EA forms.
                let operand_def: u16 = if mode == 0 {
                    1u16 << reg
                } else {
                    0
                };
                (eu, ed | operand_def)
            } else {
                full
            }
        },
        _ => full,
    }
}

/// The registers of an instruction with a register and an effective address,
/// or with two registers.
fn dyadic_masks(op: u16) -> (masks: (u16, u16))
    requires
        is_dyadic(op),
    ensures
        forall|k: u16| k < 16 ==> #[trigger] in_mask(masks.0, k) == uses_register(op, k),
        forall|k: u16| k < 16 ==> #[trigger] in_mask(masks.1, k) == defines_register(op, k),
{
    let line: u16 = op >> 12;
    let mode: u16 = (op >> 3) & 7;
    let reg: u16 = op & 7;
    let rx: u16 = (op >> 9) & 7;
    let opmode: u16 = (op >> 6) & 7;
    proof {
        opcode::lemma_fields(op);
        opcode::lemma_shifted_fields(op);
        lemma_masks();
        lemma_one_register((8 + reg) as u16);
        lemma_one_register(rx);
        lemma_one_register((8 + rx) as u16);
    }
    let (eu, ed) = ea_masks(mode, reg);
    match opmode {
        // <ea>,Dn: uses EA and Dn, defines Dn.
        0..=2 => (eu | (1u16 << rx), ed | (1u16 << rx)),
        3 | 7 => {
            if line == 0x8 || line == 0xC {
                // DIVU/DIVS, MULU/MULS <ea>,Dn.
                (eu | (1u16 << rx), ed | (1u16 << rx))
            } else {
                // ADDA/SUBA/CMPA <ea>,An (word/long).
                (eu | (1u16 << (8 + rx)), ed | (1u16 << (8 + rx)))
            }
        },
        _ => {
            if line == 0xC && opmode == 6 && mode == 1 {
                // EXG Dx,Ay.
                let both: u16 = (1u16 << rx) | (1u16 << (8 + reg));
                (both, both)
            } else if line == 0xC && opmode == 5 && mode <= 1 {
                // EXG Dx,Dy or Ax,Ay.
                let both: u16 = operand_mask(mode, rx) | operand_mask(mode, reg);
                (both, both)
            } else if mode == 1 || mode == 0 && line != 0xB && (line != 0xC || opmode == 4) {
                // ADDX/SUBX, ABCD/SBCD, PACK/UNPK and CMPM: two registers of
                // the same kind. -(An) and (An)+ update both of them.
                let dst: u16 = operand_mask(mode, rx);
                let src: u16 = operand_mask(mode, reg);
                (
                    dst | src,
                    if mode == 1 {
                        dst | src
                    } else {
                        dst
                    },
                )
            } else {
                // Dn,<ea>: memory destination RMW, or EOR Dn,Dm.
                ((1u16 << rx) | eu, ed | operand_mask(mode, reg))
            }
        },
    }
}

} // verus!
