//! The packed 68060 timing entry of an opcode.

use vstd::prelude::*;

verus! {

/// MC68060UM Tables 10-2/10-3 dispatch classes.
#[derive(Debug, Clone, Copy, PartialEq, Eq, Structural)]
pub enum OepClass {
    /// May execute in either pipeline (the common 1-cycle instructions).
    PoepSoep,
    /// Occupies the pOEP; nothing dispatches to the sOEP that cycle.
    PoepOnly,
    /// Multi-cycle in the pOEP; an sOEP partner may join the final cycle
    /// (MOVEM is the canonical case).
    PoepUntilLast,
    /// Must start in the pOEP but a pOEP|sOEP successor may still pair.
    PoepButAllowsSoep,
}

/// Packed per-opcode timing entry: class(2) | cycles(5) | flags(9).
///
/// Its view is the unpacked entry.
#[derive(Debug, Clone, Copy, PartialEq, Eq, Structural)]
pub struct Info060(pub u16);

/// Bcc/BRA/BSR: costed via the branch path.
pub const F_BRANCH: u16 = 0x0080;

/// DBcc: a branch with its own loop-mode cost.
pub const F_DBCC: u16 = 0x0100;

/// Cost varies with data (divides, MOVEM, ...): derive from the handler's
/// raw 68000 count instead of the packed cycles field.
pub const F_VARIABLE: u16 = 0x0200;

/// Instruction defines the CCR (partner CCR-consumers cannot pair behind it).
pub const F_DEFINES_CCR: u16 = 0x0400;

/// Instruction consumes the CCR/X late (Scc, ADDX-style, DBcc).
pub const F_USES_CCR_LATE: u16 = 0x0800;

/// Memory-indirect or indexed EA: +1 pOEP cycle, and never an sOEP candidate.
pub const F_EA_INDEXED: u16 = 0x1000;

/// Not classified from the UM tables: pessimistic pOEP-only + raw fallback.
pub const F_UNCLASSIFIED: u16 = 0x2000;

/// Instruction reads a memory operand.
pub const F_READS_MEM: u16 = 0x4000;

/// Instruction writes a memory operand.
pub const F_WRITES_MEM: u16 = 0x8000;

/// An unpacked timing entry.
pub struct Timing060 {
    /// Dispatch class.
    pub class: OepClass,
    /// Primary-pipeline occupancy in clocks.
    pub cycles: int,
    /// See [`F_BRANCH`].
    pub branch: bool,
    /// See [`F_DBCC`].
    pub dbcc: bool,
    /// See [`F_VARIABLE`].
    pub variable: bool,
    /// See [`F_DEFINES_CCR`].
    pub defines_ccr: bool,
    /// See [`F_USES_CCR_LATE`].
    pub uses_ccr_late: bool,
    /// See [`F_EA_INDEXED`].
    pub ea_indexed: bool,
    /// See [`F_UNCLASSIFIED`].
    pub unclassified: bool,
    /// See [`F_READS_MEM`].
    pub reads_mem: bool,
    /// See [`F_WRITES_MEM`].
    pub writes_mem: bool,
}

/// The number by which a dispatch class is packed.
pub open spec fn class_code(class: OepClass) -> u16 {
    match class {
        OepClass::PoepSoep => 0,
        OepClass::PoepOnly => 1,
        OepClass::PoepUntilLast => 2,
        OepClass::PoepButAllowsSoep => 3,
    }
}

/// The entry with this class and occupancy whose flags are the bits of `flags`.
pub open spec fn entry(class: OepClass, cycles: int, flags: u16) -> Timing060 {
    Timing060 {
        class,
        cycles,
        branch: flags & F_BRANCH != 0,
        dbcc: flags & F_DBCC != 0,
        variable: flags & F_VARIABLE != 0,
        defines_ccr: flags & F_DEFINES_CCR != 0,
        uses_ccr_late: flags & F_USES_CCR_LATE != 0,
        ea_indexed: flags & F_EA_INDEXED != 0,
        unclassified: flags & F_UNCLASSIFIED != 0,
        reads_mem: flags & F_READS_MEM != 0,
        writes_mem: flags & F_WRITES_MEM != 0,
    }
}

/// `flag` is one of the nine flags.
pub open spec fn is_flag(flag: u16) -> bool {
    ||| flag == F_BRANCH
    ||| flag == F_DBCC
    ||| flag == F_VARIABLE
    ||| flag == F_DEFINES_CCR
    ||| flag == F_USES_CCR_LATE
    ||| flag == F_EA_INDEXED
    ||| flag == F_UNCLASSIFIED
    ||| flag == F_READS_MEM
    ||| flag == F_WRITES_MEM
}

/// `flags` has no bit where the class and the cycles are packed.
pub open spec fn only_flags(flags: u16) -> bool {
    flags & 0x007F == 0
}

impl View for Info060 {
    type V = Timing060;

    open spec fn view(&self) -> Timing060 {
        entry(
            if self.0 % 4 == 0 {
                OepClass::PoepSoep
            } else if self.0 % 4 == 1 {
                OepClass::PoepOnly
            } else if self.0 % 4 == 2 {
                OepClass::PoepUntilLast
            } else {
                OepClass::PoepButAllowsSoep
            },
            (self.0 as int / 4) % 32,
            self.0,
        )
    }
}

impl Info060 {
    /// Pack an entry. Only the low five bits of `cycles` are kept.
    pub fn new(class: OepClass, cycles: u16, flags: u16) -> (info: Self)
        ensures
            info.0 == class_code(class) | ((cycles & 0x1F) << 2) | flags,
            only_flags(flags) ==> info@ == entry(class, cycles as int % 32, flags),
    {
        let code: u16 = match class {
            OepClass::PoepSoep => 0,
            OepClass::PoepOnly => 1,
            OepClass::PoepUntilLast => 2,
            OepClass::PoepButAllowsSoep => 3,
        };
        proof {
            if only_flags(flags) {
                lemma_packed(code, cycles, flags);
            }
        }
        Info060(code | ((cycles & 0x1F) << 2) | flags)
    }

    /// Return the instruction's operand-execution-pipeline dispatch class.
    pub fn class(self) -> (class: OepClass)
        ensures
            class == self@.class,
    {
        let word: u16 = self.0;
        assert(word & 3 == word % 4) by (bit_vector);
        match word & 3 {
            0 => OepClass::PoepSoep,
            1 => OepClass::PoepOnly,
            2 => OepClass::PoepUntilLast,
            _ => OepClass::PoepButAllowsSoep,
        }
    }

    /// Return the packed primary-pipeline occupancy in clocks.
    pub fn cycles(self) -> (cycles: i32)
        ensures
            cycles == self@.cycles,
            0 <= cycles < 32,
    {
        let word: u16 = self.0;
        assert((word >> 2) & 0x1F == (word / 4) % 32) by (bit_vector);
        ((word >> 2) & 0x1F) as i32
    }

    /// Return whether the packed entry contains `flag`, or any of the flags
    /// that are joined in it.
    pub fn has(self, flag: u16) -> (present: bool)
        ensures
            present == (self.0 & flag != 0),
            flag == F_BRANCH ==> present == self@.branch,
            flag == F_DBCC ==> present == self@.dbcc,
            flag == F_VARIABLE ==> present == self@.variable,
            flag == F_DEFINES_CCR ==> present == self@.defines_ccr,
            flag == F_USES_CCR_LATE ==> present == self@.uses_ccr_late,
            flag == F_EA_INDEXED ==> present == self@.ea_indexed,
            flag == F_UNCLASSIFIED ==> present == self@.unclassified,
            flag == F_READS_MEM ==> present == self@.reads_mem,
            flag == F_WRITES_MEM ==> present == self@.writes_mem,
    {
        self.0 & flag != 0
    }
}

/// The three parts of a packed word do not overlap.
proof fn lemma_packed(code: u16, cycles: u16, flags: u16)
    by (bit_vector)
    requires
        code < 4,
        flags & 0x007F == 0,
    ensures
        ({
            let word = code | ((cycles & 0x1F) << 2) | flags;
            &&& word % 4 == code
            &&& (word / 4) % 32 == cycles % 32
            &&& word & 0x0080 == flags & 0x0080
            &&& word & 0x0100 == flags & 0x0100
            &&& word & 0x0200 == flags & 0x0200
            &&& word & 0x0400 == flags & 0x0400
            &&& word & 0x0800 == flags & 0x0800
            &&& word & 0x1000 == flags & 0x1000
            &&& word & 0x2000 == flags & 0x2000
            &&& word & 0x4000 == flags & 0x4000
            &&& word & 0x8000 == flags & 0x8000
        }),
{
}

/// A set of flags holds a flag if one of two parts that it is joined of does.
pub broadcast proof fn lemma_joined_flags(a: u16, b: u16, mask: u16)
    ensures
        (#[trigger] ((a | b) & mask) != 0) == (a & mask != 0 || b & mask != 0),
{
    assert((((a | b) & mask) != 0) == (a & mask != 0 || b & mask != 0)) by (bit_vector);
}

/// Two flags share a bit only if they are the same flag.
pub broadcast proof fn lemma_flags_are_disjoint(flag: u16, other: u16)
    requires
        is_flag(flag),
        is_flag(other),
    ensures
        (#[trigger] (flag & other) != 0) == (flag == other),
{
    let f = flag;
    let g = other;
    assert((f & g != 0) == (f == g)) by (bit_vector)
        requires
            f == 0x80 || f == 0x100 || f == 0x200 || f == 0x400 || f == 0x800 || f == 0x1000 || f
                == 0x2000 || f == 0x4000 || f == 0x8000,
            g == 0x80 || g == 0x100 || g == 0x200 || g == 0x400 || g == 0x800 || g == 0x1000 || g
                == 0x2000 || g == 0x4000 || g == 0x8000,
    ;
}

/// No flag has a bit where the class and the cycles are packed.
pub broadcast proof fn lemma_flags_are_high(flag: u16)
    requires
        is_flag(flag),
    ensures
        #[trigger] (flag & 0x007F) == 0,
{
    let f = flag;
    assert(f & 0x007F == 0) by (bit_vector)
        requires
            f == 0x80 || f == 0x100 || f == 0x200 || f == 0x400 || f == 0x800 || f == 0x1000 || f
                == 0x2000 || f == 0x4000 || f == 0x8000,
    ;
}

/// The empty set of flags holds no flag.
pub broadcast proof fn lemma_no_flags(mask: u16)
    ensures
        #[trigger] (0u16 & mask) == 0,
{
    assert(0u16 & mask == 0) by (bit_vector);
}

pub broadcast group group_flags {
    lemma_joined_flags,
    lemma_flags_are_disjoint,
    lemma_flags_are_high,
    lemma_no_flags,
}

/// The packed word and the unpacked entry determine each other.
pub proof fn entry_determines_word(a: Info060, b: Info060)
    ensures
        (a@ == b@) == (a.0 == b.0),
{
    let (x, y) = (a.0, b.0);
    if a@ == b@ {
        assert(x == y) by (bit_vector)
            requires
                x % 4 == y % 4,
                (x / 4) % 32 == (y / 4) % 32,
                (x & 0x0080 != 0) == (y & 0x0080 != 0),
                (x & 0x0100 != 0) == (y & 0x0100 != 0),
                (x & 0x0200 != 0) == (y & 0x0200 != 0),
                (x & 0x0400 != 0) == (y & 0x0400 != 0),
                (x & 0x0800 != 0) == (y & 0x0800 != 0),
                (x & 0x1000 != 0) == (y & 0x1000 != 0),
                (x & 0x2000 != 0) == (y & 0x2000 != 0),
                (x & 0x4000 != 0) == (y & 0x4000 != 0),
                (x & 0x8000 != 0) == (y & 0x8000 != 0),
        ;
    }
}

} // verus!
