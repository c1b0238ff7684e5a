//! Superscalar classification and pOEP cycle costs of 68060 opcodes.
//!
//! The 68060 executes most integer instructions in one clock in the primary
//! operand-execution pipeline (pOEP); a restricted subset may dispatch to the
//! secondary pipeline (sOEP) in the same clock. MC68060UM Chapter 10 defines
//! the dispatch algorithm (Table 10-1) and classifies every instruction
//! (Tables 10-2/10-3); this module gives that classification as a pure
//! function of the opcode word.
//!
//! Costs returned here are pOEP occupancy assuming zero-wait operand access:
//! all memory latency is billed by the host bus at access time, so a cheap
//! count here never double-bills a bus access. The classification is
//! deliberately pessimistic where the manual's rules are finer than an
//! opcode-word decode can see (pessimism under-pairs; it never over-pairs).

use vstd::prelude::*;

use crate::entry_060;
use crate::entry_060::{
    Info060, OepClass, Timing060, F_BRANCH, F_DBCC, F_DEFINES_CCR, F_EA_INDEXED, F_READS_MEM,
    F_UNCLASSIFIED, F_USES_CCR_LATE, F_VARIABLE, F_WRITES_MEM,
};
use crate::opcode;

verus! {

/// Clocks of a taken Bcc/BRA/BSR without branch-cache help: pipeline refill.
pub const CYC_060_BRANCH_TAKEN: i32 = 7;

/// Clocks of a DBcc that falls through.
pub const CYC_060_DBCC_EXPIRED: i32 = 3;

/// What the 68060 timing model tells apart in an opcode word.
pub enum Form060 {
    /// BTST/BCHG/BCLR/BSET.
    BitOperation,
    /// MOVEP.
    MovePeripheral,
    /// ORI/ANDI/EORI to CCR or SR.
    ImmediateToStatus,
    /// MOVE and MOVEA.
    Move,
    /// One-cycle operation on the effective address, which it reads, and also
    /// writes if `write` is set.
    Alu { write: bool },
    /// NEGX and NBCD: like `Alu`, but they consume X.
    ExtendedUnary,
    /// One-cycle operation on registers alone.
    RegisterAlu,
    /// ADDX/SUBX, on registers or on memory through -(An).
    ExtendedAlu,
    /// CMPM, which reads both its operands from memory.
    CompareMemory,
    /// ROXL/ROXR of a register.
    ExtendedRotate,
    /// Single-bit shift or rotate of memory.
    MemoryShift,
    /// ROXL/ROXR of memory.
    ExtendedMemoryRotate,
    /// Scc.
    SetConditionally,
    /// LEA.
    LoadAddress,
    /// EXG.
    Exchange,
    /// MOVEM.
    MoveMultiple,
    /// TAS.
    TestAndSet,
    /// MULU.W/MULS.W.
    WordMultiply,
    /// DIVU.W/DIVS.W, MULL and DIVL.
    SlowArithmetic,
    /// ABCD/SBCD, which consume X, and PACK/UNPK, which do not; on registers
    /// or on memory through -(An).
    Packed { extended: bool },
    /// CHK.
    Check,
    /// MOVE from SR or CCR.
    StatusRead,
    /// MOVE to SR or CCR.
    StatusWrite,
    /// JSR, JMP and PEA, which have an effective address but no operand there.
    AddressControl,
    /// All other control flow and supervisor operations.
    Control,
    /// DBcc.
    DecrementAndBranch,
    /// Bcc/BRA/BSR. BRA and BSR do not look at the condition codes.
    Branch { conditional: bool },
    /// Everything that is not classified.
    Unclassified,
}

/// The form of an opcode word.
pub open spec fn form(op: u16) -> Form060 {
    let line = opcode::line(op);
    if line == 0x0 {
        line_0_form(op)
    } else if line <= 0x3 {
        Form060::Move
    } else if line == 0x4 {
        line_4_form(op)
    } else if line == 0x5 {
        line_5_form(op)
    } else if line == 0x6 {
        // The condition is in bits 11-8: 0 is BRA, 1 is BSR.
        Form060::Branch { conditional: opcode::rx(op) != 0 }
    } else if line == 0x7 {
        // MOVEQ
        Form060::RegisterAlu
    } else if line == 0x8 {
        line_8_form(op)
    } else if line == 0x9 || line == 0xD {
        line_9_d_form(op)
    } else if line == 0xB {
        line_b_form(op)
    } else if line == 0xC {
        line_c_form(op)
    } else if line == 0xE {
        line_e_form(op)
    } else {
        Form060::Unclassified
    }
}

/// Line 0: bit operations, MOVEP, immediates, and CMP2/CHK2/CAS/CAS2/MOVES.
pub open spec fn line_0_form(op: u16) -> Form060 {
    let rx = opcode::rx(op);
    let size = opcode::size(op);
    if opcode::dir(op) && opcode::mode(op) == 1 {
        Form060::MovePeripheral
    } else if opcode::dir(op) || rx == 4 {
        Form060::BitOperation
    } else if rx == 7 || size == 3 && rx != 3 {
        // MOVES is rx 7; CMP2/CHK2 and CAS/CAS2 are the fourth size.
        Form060::Unclassified
    } else if opcode::mode(op) == 7 && opcode::reg(op) == 4 {
        Form060::ImmediateToStatus
    } else {
        // ORI/ANDI/SUBI/ADDI/EORI/CMPI; all but CMPI write their operand.
        Form060::Alu { write: rx != 6 }
    }
}

/// Line 4: one-operand operations, LEA, CHK, and control.
pub open spec fn line_4_form(op: u16) -> Form060 {
    let rx = opcode::rx(op);
    let size = opcode::size(op);
    let mode = opcode::mode(op);
    if opcode::dir(op) {
        if size == 3 {
            // EXTB.L has the encoding that LEA Dn,A4 would have.
            if rx == 4 && mode == 0 {
                Form060::Alu { write: true }
            } else {
                Form060::LoadAddress
            }
        } else if size == 0 || size == 2 {
            Form060::Check
        } else {
            Form060::Control
        }
    } else if rx <= 3 {
        // NEGX, CLR, NEG, NOT, and in the fourth size MOVE from SR, MOVE from
        // CCR, MOVE to CCR, MOVE to SR.
        if size == 3 {
            if rx <= 1 {
                Form060::StatusRead
            } else {
                Form060::StatusWrite
            }
        } else if rx == 0 {
            Form060::ExtendedUnary
        } else {
            Form060::Alu { write: true }
        }
    } else if rx == 4 {
        if size == 0 {
            // NBCD, and LINK.L in place of an address register.
            if mode == 1 {
                Form060::Control
            } else {
                Form060::ExtendedUnary
            }
        } else if size == 1 {
            // SWAP, BKPT, PEA.
            if mode == 0 {
                Form060::RegisterAlu
            } else if mode == 1 {
                Form060::Control
            } else {
                Form060::AddressControl
            }
        } else if mode == 0 {
            // EXT.W, EXT.L
            Form060::Alu { write: true }
        } else {
            Form060::MoveMultiple
        }
    } else if rx == 5 {
        if size == 3 {
            Form060::TestAndSet
        } else {
            // TST
            Form060::Alu { write: false }
        }
    } else if rx == 6 {
        if size <= 1 {
            Form060::SlowArithmetic
        } else if mode != 0 {
            Form060::MoveMultiple
        } else {
            Form060::Control
        }
    } else if size >= 2 {
        // JSR, JMP
        Form060::AddressControl
    } else {
        // TRAP, LINK, UNLK, MOVE USP, RESET, NOP, STOP, RTE, RTD, RTS, TRAPV,
        // RTR, MOVEC
        Form060::Control
    }
}

/// Line 5: ADDQ/SUBQ, Scc, DBcc and TRAPcc.
pub open spec fn line_5_form(op: u16) -> Form060 {
    let mode = opcode::mode(op);
    if opcode::size(op) != 3 {
        Form060::Alu { write: true }
    } else if mode == 1 {
        Form060::DecrementAndBranch
    } else if mode == 7 && opcode::reg(op) >= 2 {
        // TRAPcc has the encodings that Scc to an unwritable operand would have.
        Form060::Unclassified
    } else {
        Form060::SetConditionally
    }
}

/// Line 8: OR, DIVU/DIVS, SBCD and PACK/UNPK.
pub open spec fn line_8_form(op: u16) -> Form060 {
    let dir = opcode::dir(op);
    if opcode::size(op) == 3 {
        Form060::SlowArithmetic
    } else if dir && opcode::mode(op) <= 1 {
        Form060::Packed { extended: opcode::size(op) == 0 }
    } else {
        Form060::Alu { write: dir }
    }
}

/// Lines 9 and D: SUB and ADD, their address forms, and SUBX/ADDX.
pub open spec fn line_9_d_form(op: u16) -> Form060 {
    let to_memory = opcode::dir(op) && opcode::size(op) != 3;
    if to_memory && opcode::mode(op) <= 1 {
        Form060::ExtendedAlu
    } else {
        Form060::Alu { write: to_memory }
    }
}

/// Line B: CMP, CMPA, CMPM and EOR.
pub open spec fn line_b_form(op: u16) -> Form060 {
    let to_operand = opcode::dir(op) && opcode::size(op) != 3;
    if to_operand && opcode::mode(op) == 1 {
        Form060::CompareMemory
    } else {
        Form060::Alu { write: to_operand }
    }
}

/// Line C: AND, MULU/MULS, ABCD and EXG.
pub open spec fn line_c_form(op: u16) -> Form060 {
    let dir = opcode::dir(op);
    let size = opcode::size(op);
    let mode = opcode::mode(op);
    if size == 3 {
        Form060::WordMultiply
    } else if dir && size == 0 && mode <= 1 {
        Form060::Packed { extended: true }
    } else if is_exchange(op) {
        Form060::Exchange
    } else {
        Form060::Alu { write: dir }
    }
}

/// EXG of two data registers, of two address registers, or of one each.
pub open spec fn is_exchange(op: u16) -> bool {
    let opmode = opcode::opmode(op);
    let mode = opcode::mode(op);
    opcode::line(op) == 0xC && (opmode == 5 && mode <= 1 || opmode == 6 && mode == 1)
}

/// Line E: shifts, rotates and bit fields.
pub open spec fn line_e_form(op: u16) -> Form060 {
    let rx = opcode::rx(op);
    if opcode::size(op) == 3 {
        if rx >= 4 {
            Form060::Unclassified
        } else if rx == 2 {
            Form060::ExtendedMemoryRotate
        } else {
            Form060::MemoryShift
        }
    } else if opcode::mode(op) % 4 == 2 {
        Form060::ExtendedRotate
    } else {
        Form060::RegisterAlu
    }
}

/// The effective address names memory: neither a register nor an immediate.
pub open spec fn ea_is_memory(mode: int, reg: int) -> bool {
    mode >= 2 && !(mode == 7 && reg == 4)
}

/// The effective address is indexed, off an address register or the PC. The
/// opcode word cannot tell brief from full extension words, so memory-indirect
/// modes count as well.
pub open spec fn ea_is_indexed(mode: int, reg: int) -> bool {
    mode == 6 || (mode == 7 && reg == 3)
}

/// An entry without flags.
pub open spec fn plain(class: OepClass, cycles: int) -> Timing060 {
    Timing060 {
        class,
        cycles,
        branch: false,
        dbcc: false,
        variable: false,
        defines_ccr: false,
        uses_ccr_late: false,
        ea_indexed: false,
        unclassified: false,
        reads_mem: false,
        writes_mem: false,
    }
}

/// `t` with what an effective address that is read and written as told adds.
pub open spec fn with_ea(t: Timing060, mode: int, reg: int, read: bool, write: bool) -> Timing060 {
    Timing060 {
        reads_mem: t.reads_mem || (read && ea_is_memory(mode, reg)),
        writes_mem: t.writes_mem || (write && ea_is_memory(mode, reg)),
        ea_indexed: t.ea_indexed || ea_is_indexed(mode, reg),
        ..t
    }
}

/// The timing entry of an opcode word of the given form.
pub open spec fn form_timing(form: Form060, op: u16) -> Timing060 {
    let mode = opcode::mode(op);
    let reg = opcode::reg(op);
    let both = Timing060 { defines_ccr: true, ..plain(OepClass::PoepSoep, 1) };
    let primary = Timing060 { defines_ccr: true, ..plain(OepClass::PoepOnly, 1) };
    let primary_two = Timing060 { defines_ccr: true, ..plain(OepClass::PoepOnly, 2) };
    let serializing = Timing060 { variable: true, ..plain(OepClass::PoepOnly, 1) };
    match form {
        Form060::BitOperation => with_ea(primary, mode, reg, true, opcode::size(op) != 0),
        Form060::MovePeripheral => Timing060 {
            reads_mem: opcode::size(op) <= 1,
            writes_mem: opcode::size(op) >= 2,
            ..primary
        },
        Form060::ImmediateToStatus => Timing060 { defines_ccr: true, ..serializing },
        Form060::Move => with_ea(
            with_ea(both, mode, reg, true, false),
            opcode::opmode(op),
            opcode::rx(op),
            false,
            true,
        ),
        Form060::Alu { write } => with_ea(both, mode, reg, true, write),
        Form060::ExtendedUnary => with_ea(
            Timing060 { uses_ccr_late: true, ..both },
            mode,
            reg,
            true,
            true,
        ),
        Form060::RegisterAlu => both,
        Form060::ExtendedAlu => Timing060 {
            uses_ccr_late: true,
            reads_mem: mode == 1,
            writes_mem: mode == 1,
            ..primary
        },
        Form060::CompareMemory => Timing060 { reads_mem: true, ..both },
        Form060::ExtendedRotate => Timing060 { uses_ccr_late: true, ..primary },
        Form060::MemoryShift => with_ea(memory_update(both), mode, reg, true, true),
        Form060::ExtendedMemoryRotate => with_ea(
            memory_update(Timing060 { uses_ccr_late: true, ..primary }),
            mode,
            reg,
            true,
            true,
        ),
        Form060::SetConditionally => with_ea(
            Timing060 { uses_ccr_late: true, ..plain(OepClass::PoepSoep, 1) },
            mode,
            reg,
            false,
            true,
        ),
        Form060::LoadAddress => with_ea(plain(OepClass::PoepSoep, 1), mode, reg, false, false),
        Form060::Exchange => plain(OepClass::PoepOnly, 1),
        Form060::MoveMultiple => with_ea(
            memory_update(Timing060 { variable: true, ..plain(OepClass::PoepUntilLast, 2) }),
            mode,
            reg,
            true,
            true,
        ),
        Form060::TestAndSet => with_ea(memory_update(primary_two), mode, reg, true, true),
        Form060::WordMultiply => with_ea(primary_two, mode, reg, true, false),
        Form060::SlowArithmetic | Form060::Check => with_ea(
            Timing060 { variable: true, ..primary_two },
            mode,
            reg,
            true,
            false,
        ),
        Form060::Packed { extended } => Timing060 {
            variable: true,
            uses_ccr_late: extended,
            reads_mem: mode == 1,
            writes_mem: mode == 1,
            ..primary_two
        },
        Form060::StatusRead => with_ea(serializing, mode, reg, false, true),
        Form060::StatusWrite => with_ea(
            Timing060 { defines_ccr: true, ..serializing },
            mode,
            reg,
            true,
            false,
        ),
        Form060::AddressControl => with_ea(serializing, mode, reg, false, false),
        Form060::Control => serializing,
        Form060::DecrementAndBranch => Timing060 {
            branch: true,
            dbcc: true,
            uses_ccr_late: true,
            ..plain(OepClass::PoepOnly, CYC_060_DBCC_EXPIRED as int)
        },
        Form060::Branch { conditional } => Timing060 {
            branch: true,
            uses_ccr_late: conditional,
            ..plain(OepClass::PoepOnly, CYC_060_BRANCH_TAKEN as int)
        },
        Form060::Unclassified => Timing060 { unclassified: true, ..serializing },
    }
}

/// `t` for an instruction that always counts as reading and writing memory.
pub open spec fn memory_update(t: Timing060) -> Timing060 {
    Timing060 { reads_mem: true, writes_mem: true, ..t }
}

/// The timing entry of an opcode word.
pub open spec fn opcode_timing(op: u16) -> Timing060 {
    form_timing(form(op), op)
}

/// Flags contributed by an effective-address field. `read`/`write` say
/// whether the instruction reads/writes that operand.
pub fn ea_flags(mode: u16, reg: u16, read: bool, write: bool) -> (flags: u16)
    ensures
        entry_060::only_flags(flags),
        entry_060::entry(OepClass::PoepSoep, 1, flags) == with_ea(
            plain(OepClass::PoepSoep, 1),
            mode as int,
            reg as int,
            read,
            write,
        ),
{
    broadcast use entry_060::group_flags;

    let mut flags: u16 = 0;
    let is_mem: bool = mode >= 2 && !(mode == 7 && reg == 4);
    if is_mem {
        if read {
            flags |= F_READS_MEM;
        }
        if write {
            flags |= F_WRITES_MEM;
        }
    }
    if mode == 6 || (mode == 7 && reg == 3) {
        flags |= F_EA_INDEXED;
    }
    flags
}

/// One-cycle pOEP|sOEP ALU entry with standard EA flags.
pub fn alu(mode: u16, reg: u16, read: bool, write: bool) -> (info: Info060)
    ensures
        info@ == with_ea(
            Timing060 { defines_ccr: true, ..plain(OepClass::PoepSoep, 1) },
            mode as int,
            reg as int,
            read,
            write,
        ),
{
    broadcast use entry_060::group_flags;

    Info060::new(OepClass::PoepSoep, 1, F_DEFINES_CCR | ea_flags(mode, reg, read, write))
}

/// Classify one opcode word. Unknown encodings return a pessimistic
/// unclassified entry; illegal encodings never reach the cost path (they trap).
pub fn classify_060_opcode(op: u16) -> (info: Info060)
    ensures
        info@ == opcode_timing(op),
{
    broadcast use entry_060::group_flags;

    proof {
        opcode::lemma_fields(op);
        opcode::lemma_shifted_fields(op);
    }
    let mode: u16 = (op >> 3) & 7;
    let reg: u16 = op & 7;

    match op >> 12 {
        0x0 => classify_line_0(op),
        // MOVE.B/L/W and MOVEA: 1 cycle, pOEP|sOEP. Source EA read plus
        // destination EA write; indexed penalty from either side.
        0x1..=0x3 => {
            let dst_mode: u16 = (op >> 6) & 7;
            let dst_reg: u16 = (op >> 9) & 7;
            Info060::new(
                OepClass::PoepSoep,
                1,
                F_DEFINES_CCR | ea_flags(mode, reg, true, false) | ea_flags(
                    dst_mode,
                    dst_reg,
                    false,
                    true,
                ),
            )
        },
        0x4 => classify_line_4(op),
        0x5 => classify_line_5(op),
        0x6 => {
            // Bcc/BRA/BSR: branch path. BRA and BSR are unconditional.
            let ccr: u16 = if (op >> 9) & 7 != 0 {
                F_USES_CCR_LATE
            } else {
                0
            };
            Info060::new(OepClass::PoepOnly, CYC_060_BRANCH_TAKEN as u16, F_BRANCH | ccr)
        },
        // MOVEQ: the canonical 1-cycle pOEP|sOEP instruction.
        0x7 => Info060::new(OepClass::PoepSoep, 1, F_DEFINES_CCR),
        0x8 | 0x9 | 0xB | 0xC | 0xD => classify_dyadic(op),
        0xE => classify_line_e(op),
        // A-line, F-line (FPU/MMU/MOVE16/LPSTOP), and anything else: pOEP-only
        // with data-dependent cost.
        _ => unclassified(),
    }
}

/// The entry of an opcode that is not classified: pOEP-only, data-dependent.
fn unclassified() -> (info: Info060)
    ensures
        forall|op: u16| info@ == #[trigger] form_timing(Form060::Unclassified, op),
{
    broadcast use entry_060::group_flags;

    Info060::new(OepClass::PoepOnly, 1, F_UNCLASSIFIED | F_VARIABLE)
}

/// The flags of an instruction whose operands are registers in mode 0 and
/// memory through address registers in mode 1.
fn predecrement_flags(mode: u16) -> (flags: u16)
    ensures
        entry_060::only_flags(flags),
        entry_060::entry(OepClass::PoepSoep, 1, flags) == (Timing060 {
            reads_mem: mode == 1,
            writes_mem: mode == 1,
            ..plain(OepClass::PoepSoep, 1)
        }),
{
    broadcast use entry_060::group_flags;

    if mode == 1 {
        F_READS_MEM | F_WRITES_MEM
    } else {
        0
    }
}

/// Classify an opcode word of line 0.
fn classify_line_0(op: u16) -> (info: Info060)
    ensures
        info@ == form_timing(line_0_form(op), op),
{
    broadcast use entry_060::group_flags;

    proof {
        opcode::lemma_fields(op);
        opcode::lemma_shifted_fields(op);
    }
    let rx: u16 = (op >> 9) & 7;
    let dir: bool = op & 0x0100 != 0;
    let size: u16 = (op >> 6) & 3;
    let mode: u16 = (op >> 3) & 7;
    let reg: u16 = op & 7;
    if dir && mode == 1 {
        // MOVEP: between a register and memory, in the direction of bit 7.
        let operand: u16 = if size <= 1 {
            F_READS_MEM
        } else {
            F_WRITES_MEM
        };
        Info060::new(OepClass::PoepOnly, 1, F_DEFINES_CCR | operand)
    } else if dir || rx == 4 {
        // Bit ops BTST/BCHG/BCLR/BSET (dynamic and static #).
        // UM Table 10-2: bit operations are pOEP-only.
        Info060::new(OepClass::PoepOnly, 1, F_DEFINES_CCR | ea_flags(mode, reg, true, size != 0))
    } else if rx == 7 || size == 3 && rx != 3 {
        // CMP2/CHK2/CAS/CAS2/MOVES: pOEP-only, data-dependent.
        unclassified()
    } else if mode == 7 && reg == 4 {
        // The to-CCR/to-SR forms are privileged/serializing.
        Info060::new(OepClass::PoepOnly, 1, F_DEFINES_CCR | F_VARIABLE)
    } else {
        // ORI/ANDI/SUBI/ADDI/EORI/CMPI #imm,<ea> (1 cycle, pOEP|sOEP);
        // CMPI never writes.
        alu(mode, reg, true, rx != 6)
    }
}

/// Classify an opcode word of line 4.
fn classify_line_4(op: u16) -> (info: Info060)
    ensures
        info@ == form_timing(line_4_form(op), op),
{
    broadcast use entry_060::group_flags;

    proof {
        opcode::lemma_fields(op);
        opcode::lemma_shifted_fields(op);
    }
    let rx: u16 = (op >> 9) & 7;
    let dir: bool = op & 0x0100 != 0;
    let size: u16 = (op >> 6) & 3;
    let mode: u16 = (op >> 3) & 7;
    let reg: u16 = op & 7;
    // Control-flow and supervisor ops (JSR/JMP/RTS/RTE/RTR/LINK/UNLK/PEA/TRAP/
    // STOP/MOVEC/MOVE USP...): pOEP-only; the flow-change floor covers refills.
    let control: Info060 = Info060::new(OepClass::PoepOnly, 1, F_VARIABLE);
    if dir {
        if size == 3 {
            if rx == 4 && mode == 0 {
                // EXTB.L
                alu(mode, reg, true, true)
            } else {
                // LEA: 1 cycle, pOEP|sOEP (indexed forms pay +1).
                Info060::new(OepClass::PoepSoep, 1, ea_flags(mode, reg, false, false))
            }
        } else if size == 0 || size == 2 {
            // CHK: pOEP-only.
            Info060::new(
                OepClass::PoepOnly,
                2,
                F_DEFINES_CCR | F_VARIABLE | ea_flags(mode, reg, true, false),
            )
        } else {
            control
        }
    } else if rx <= 3 {
        if size == 3 {
            if rx <= 1 {
                // MOVE from SR / from CCR: serializing.
                Info060::new(OepClass::PoepOnly, 1, F_VARIABLE | ea_flags(mode, reg, false, true))
            } else {
                // MOVE to CCR / to SR.
                Info060::new(
                    OepClass::PoepOnly,
                    1,
                    F_DEFINES_CCR | F_VARIABLE | ea_flags(mode, reg, true, false),
                )
            }
        } else if rx == 0 {
            // NEGX <ea>: 1 cycle pOEP|sOEP, consumes X.
            extended_unary(mode, reg)
        } else {
            // CLR/NEG/NOT <ea>: 1 cycle pOEP|sOEP.
            alu(mode, reg, true, true)
        }
    } else if rx == 4 {
        if size == 0 {
            if mode == 1 {
                // LINK.L
                control
            } else {
                // NBCD: pOEP|sOEP like EXT/EXTB, consumes X.
                extended_unary(mode, reg)
            }
        } else if size == 1 {
            if mode == 0 {
                // SWAP
                alu(0, 0, false, false)
            } else if mode == 1 {
                // BKPT
                control
            } else {
                // PEA
                Info060::new(OepClass::PoepOnly, 1, F_VARIABLE | ea_flags(mode, reg, false, false))
            }
        } else if mode == 0 {
            // EXT.W/EXT.L: EXT is pOEP|sOEP.
            alu(mode, reg, true, true)
        } else {
            movem(mode, reg)
        }
    } else if rx == 5 {
        if size == 3 {
            // TAS: locked RMW, pOEP-only.
            Info060::new(
                OepClass::PoepOnly,
                2,
                F_DEFINES_CCR | F_READS_MEM | F_WRITES_MEM | ea_flags(mode, reg, true, true),
            )
        } else {
            // TST <ea>
            alu(mode, reg, true, false)
        }
    } else if rx == 6 {
        if size <= 1 {
            // MULL/DIVL (4C00/4C40): pOEP-only, data-dependent.
            Info060::new(
                OepClass::PoepOnly,
                2,
                F_DEFINES_CCR | F_VARIABLE | ea_flags(mode, reg, true, false),
            )
        } else if mode != 0 {
            movem(mode, reg)
        } else {
            control
        }
    } else if size >= 2 {
        // JSR/JMP
        Info060::new(OepClass::PoepOnly, 1, F_VARIABLE | ea_flags(mode, reg, false, false))
    } else {
        control
    }
}

/// MOVEM: pOEP-until-last, one cycle per register plus setup - data-dependent,
/// so raw fallback.
fn movem(mode: u16, reg: u16) -> (info: Info060)
    ensures
        info@ == with_ea(
            memory_update(Timing060 { variable: true, ..plain(OepClass::PoepUntilLast, 2) }),
            mode as int,
            reg as int,
            true,
            true,
        ),
{
    broadcast use entry_060::group_flags;

    Info060::new(
        OepClass::PoepUntilLast,
        2,
        F_VARIABLE | F_READS_MEM | F_WRITES_MEM | ea_flags(mode, reg, true, true),
    )
}

/// One-cycle pOEP|sOEP entry that consumes X and updates its operand.
fn extended_unary(mode: u16, reg: u16) -> (info: Info060)
    ensures
        info@ == with_ea(
            Timing060 {
                defines_ccr: true,
                uses_ccr_late: true,
                ..plain(OepClass::PoepSoep, 1)
            },
            mode as int,
            reg as int,
            true,
            true,
        ),
{
    broadcast use entry_060::group_flags;

    Info060::new(
        OepClass::PoepSoep,
        1,
        F_DEFINES_CCR | F_USES_CCR_LATE | ea_flags(mode, reg, true, true),
    )
}

/// Classify an opcode word of line 5.
fn classify_line_5(op: u16) -> (info: Info060)
    ensures
        info@ == form_timing(line_5_form(op), op),
{
    broadcast use entry_060::group_flags;

    proof {
        opcode::lemma_fields(op);
        opcode::lemma_shifted_fields(op);
    }
    let mode: u16 = (op >> 3) & 7;
    let reg: u16 = op & 7;
    if (op >> 6) & 3 != 3 {
        // ADDQ/SUBQ: 1 cycle, pOEP|sOEP.
        alu(mode, reg, true, true)
    } else if mode == 1 {
        // DBcc
        Info060::new(
            OepClass::PoepOnly,
            CYC_060_DBCC_EXPIRED as u16,
            F_BRANCH | F_DBCC | F_USES_CCR_LATE,
        )
    } else if mode == 7 && reg >= 2 {
        // TRAPcc
        unclassified()
    } else {
        // Scc <ea>: 1 cycle but consumes the CCR late.
        Info060::new(OepClass::PoepSoep, 1, F_USES_CCR_LATE | ea_flags(mode, reg, false, true))
    }
}

/// Classify an opcode word of line 8, 9, B, C or D.
fn classify_dyadic(op: u16) -> (info: Info060)
    requires
        opcode::line(op) == 0x8 || opcode::line(op) == 0x9 || 0xB <= opcode::line(op) <= 0xD,
    ensures
        info@ == opcode_timing(op),
{
    broadcast use entry_060::group_flags;

    proof {
        opcode::lemma_fields(op);
        opcode::lemma_shifted_fields(op);
    }
    let line: u16 = op >> 12;
    let dir: bool = op & 0x0100 != 0;
    let size: u16 = (op >> 6) & 3;
    let mode: u16 = (op >> 3) & 7;
    let reg: u16 = op & 7;
    if line == 0x8 {
        if size == 3 {
            // DIVU.W/DIVS.W: pOEP-only, data-dependent.
            Info060::new(
                OepClass::PoepOnly,
                2,
                F_DEFINES_CCR | F_VARIABLE | ea_flags(mode, reg, true, false),
            )
        } else if dir && mode <= 1 {
            // SBCD, PACK/UNPK: pOEP-only. Only SBCD consumes X.
            let extend: u16 = if size == 0 {
                F_USES_CCR_LATE
            } else {
                0
            };
            Info060::new(
                OepClass::PoepOnly,
                2,
                F_DEFINES_CCR | F_VARIABLE | extend | predecrement_flags(mode),
            )
        } else {
            // OR
            alu(mode, reg, true, dir)
        }
    } else if line == 0xC {
        if size == 3 {
            // MULU.W/MULS.W: 2 cycles, pOEP-only.
            Info060::new(OepClass::PoepOnly, 2, F_DEFINES_CCR | ea_flags(mode, reg, true, false))
        } else if dir && size == 0 && mode <= 1 {
            // ABCD
            Info060::new(
                OepClass::PoepOnly,
                2,
                F_DEFINES_CCR | F_VARIABLE | F_USES_CCR_LATE | predecrement_flags(mode),
            )
        } else if dir && (size == 1 && mode <= 1 || size == 2 && mode == 1) {
            // EXG: pOEP-only per UM.
            Info060::new(OepClass::PoepOnly, 1, 0)
        } else {
            // AND
            alu(mode, reg, true, dir)
        }
    } else if line == 0xB {
        if dir && size != 3 && mode == 1 {
            // CMPM: both operands are read from memory.
            Info060::new(OepClass::PoepSoep, 1, F_DEFINES_CCR | F_READS_MEM)
        } else {
            // CMP/CMPA/EOR
            alu(mode, reg, true, dir && size != 3)
        }
    } else if dir && size != 3 && mode <= 1 {
        // ADDX/SUBX: consume X late, pOEP-only per UM.
        Info060::new(
            OepClass::PoepOnly,
            1,
            F_DEFINES_CCR | F_USES_CCR_LATE | predecrement_flags(mode),
        )
    } else {
        // ADD/SUB/ADDA/SUBA
        alu(mode, reg, true, dir && size != 3)
    }
}

/// Classify an opcode word of line E.
fn classify_line_e(op: u16) -> (info: Info060)
    ensures
        info@ == form_timing(line_e_form(op), op),
{
    broadcast use entry_060::group_flags;

    proof {
        opcode::lemma_fields(op);
        opcode::lemma_shifted_fields(op);
    }
    let rx: u16 = (op >> 9) & 7;
    let size: u16 = (op >> 6) & 3;
    let mode: u16 = (op >> 3) & 7;
    let reg: u16 = op & 7;
    if size == 3 && rx >= 4 {
        // Bitfields: pOEP-only, data-dependent.
        unclassified()
    } else if size == 3 && rx == 2 {
        // ROXL/ROXR of memory: consume X, pOEP-only.
        Info060::new(
            OepClass::PoepOnly,
            1,
            F_DEFINES_CCR | F_USES_CCR_LATE | F_READS_MEM | F_WRITES_MEM | ea_flags(
                mode,
                reg,
                true,
                true,
            ),
        )
    } else if size == 3 {
        // Memory shifts (single bit): 1 cycle.
        Info060::new(
            OepClass::PoepSoep,
            1,
            F_DEFINES_CCR | F_READS_MEM | F_WRITES_MEM | ea_flags(mode, reg, true, true),
        )
    } else if mode % 4 == 2 {
        // ROXL/ROXR: consume X, pOEP-only.
        Info060::new(OepClass::PoepOnly, 1, F_DEFINES_CCR | F_USES_CCR_LATE)
    } else {
        // Register shifts/rotates: 1 cycle, pOEP|sOEP per UM.
        Info060::new(OepClass::PoepSoep, 1, F_DEFINES_CCR)
    }
}

} // verus!
