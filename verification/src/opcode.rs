//! The fields of a 68k opcode word.

use vstd::prelude::*;

verus! {

/// Bits 15-12: the opcode line.
pub open spec fn line(op: u16) -> int {
    op as int / 4096
}

/// Bits 11-9: the register or sub-operation field.
pub open spec fn rx(op: u16) -> int {
    (op as int / 512) % 8
}

/// Bit 8: the direction bit of two-operand forms.
pub open spec fn dir(op: u16) -> bool {
    (op as int / 256) % 2 == 1
}

/// Bits 7-6: the operand size.
pub open spec fn size(op: u16) -> int {
    (op as int / 64) % 4
}

/// Bits 8-6: direction and size together, the destination mode of a MOVE.
pub open spec fn opmode(op: u16) -> int {
    (op as int / 64) % 8
}

/// Bits 5-3: the effective-address mode.
pub open spec fn mode(op: u16) -> int {
    (op as int / 8) % 8
}

/// Bits 2-0: the effective-address register.
pub open spec fn reg(op: u16) -> int {
    op as int % 8
}

/// The ranges of the fields, and that `opmode` is made of `dir` and `size`.
pub proof fn lemma_fields(op: u16)
    ensures
        0 <= line(op) < 16,
        0 <= rx(op) < 8,
        0 <= size(op) < 4,
        0 <= mode(op) < 8,
        0 <= reg(op) < 8,
        opmode(op) == size(op) + if dir(op) {
            4int
        } else {
            0int
        },
{
}

/// Shifting a field down and masking it gives the field.
pub proof fn lemma_shifted_fields(op: u16)
    ensures
        op >> 12 == line(op),
        (op >> 9) & 7 == rx(op),
        (op & 0x0100 != 0) == dir(op),
        (op >> 6) & 3 == size(op),
        (op >> 6) & 7 == opmode(op),
        (op >> 3) & 7 == mode(op),
        op & 7 == reg(op),
{
    assert({
        &&& op >> 12 == op / 4096
        &&& (op >> 9) & 7 == (op / 512) % 8
        &&& (op & 0x0100 != 0) == ((op / 256) % 2 == 1)
        &&& (op >> 6) & 3 == (op / 64) % 4
        &&& (op >> 6) & 7 == (op / 64) % 8
        &&& (op >> 3) & 7 == (op / 8) % 8
        &&& op & 7 == op % 8
    }) by (bit_vector);
}

/// What the masks of the instruction patterns leave of an opcode word.
pub proof fn lemma_masked_fields(op: u16)
    ensures
        op & 0xF000 == line(op) * 0x1000,
        op & 0xFF00 == line(op) * 0x1000 + rx(op) * 0x0200 + (op & 0x0100),
        op & 0xFFC0 == line(op) * 0x1000 + rx(op) * 0x0200 + opmode(op) * 0x40,
        op & 0xFFF8 == line(op) * 0x1000 + rx(op) * 0x0200 + opmode(op) * 0x40 + mode(op) * 8,
        op & 0xF100 == line(op) * 0x1000 + (op & 0x0100),
        op & 0xF0C0 == line(op) * 0x1000 + size(op) * 0x40,
        op & 0xF0F8 == line(op) * 0x1000 + size(op) * 0x40 + mode(op) * 8,
        op & 0xF1C0 == line(op) * 0x1000 + opmode(op) * 0x40,
        op & 0xF1F8 == line(op) * 0x1000 + opmode(op) * 0x40 + mode(op) * 8,
        op & 0xFF80 == line(op) * 0x1000 + rx(op) * 0x0200 + (opmode(op) / 2) * 0x80,
        op & 0xFEC0 == line(op) * 0x1000 + rx(op) * 0x0200 + size(op) * 0x40,
        op & 0xF8C0 == line(op) * 0x1000 + (rx(op) / 4) * 0x0800 + size(op) * 0x40,
        op & 0xF1F0 == line(op) * 0x1000 + opmode(op) * 0x40 + (mode(op) / 2) * 0x10,
        op & 0xF130 == line(op) * 0x1000 + (op & 0x0100) + (mode(op) / 2) * 0x10,
        op & 0xF138 == line(op) * 0x1000 + (op & 0x0100) + mode(op) * 8,
        op & 0xF13F == line(op) * 0x1000 + (op & 0x0100) + mode(op) * 8 + reg(op),
        op & 0xFFB8 == line(op) * 0x1000 + rx(op) * 0x0200 + (opmode(op) / 2) * 0x80 + mode(op) * 8,
        op & 0xFE00 == line(op) * 0x1000 + rx(op) * 0x0200,
        op & 0xF018 == line(op) * 0x1000 + (mode(op) % 4) * 8,
        op & 0x0100 == if dir(op) {
            0x0100int
        } else {
            0int
        },
{
    assert({
        let line = op / 4096;
        let rx = (op / 512) % 8;
        let dir = (op / 256) % 2;
        let size = (op / 64) % 4;
        let opmode = (op / 64) % 8;
        let mode = (op / 8) % 8;
        &&& op & 0xF000 == line * 0x1000
        &&& op & 0xFF00 == line * 0x1000 + rx * 0x0200 + (op & 0x0100)
        &&& op & 0xFFC0 == line * 0x1000 + rx * 0x0200 + opmode * 0x40
        &&& op & 0xFFF8 == line * 0x1000 + rx * 0x0200 + opmode * 0x40 + mode * 8
        &&& op & 0xF100 == line * 0x1000 + (op & 0x0100)
        &&& op & 0xF0C0 == line * 0x1000 + size * 0x40
        &&& op & 0xF0F8 == line * 0x1000 + size * 0x40 + mode * 8
        &&& op & 0xF1C0 == line * 0x1000 + opmode * 0x40
        &&& op & 0xF1F8 == line * 0x1000 + opmode * 0x40 + mode * 8
        &&& op & 0xFF80 == line * 0x1000 + rx * 0x0200 + (opmode / 2) * 0x80
        &&& op & 0xFEC0 == line * 0x1000 + rx * 0x0200 + size * 0x40
        &&& op & 0xF8C0 == line * 0x1000 + (rx / 4) * 0x0800 + size * 0x40
        &&& op & 0xF1F0 == line * 0x1000 + opmode * 0x40 + (mode / 2) * 0x10
        &&& op & 0xF130 == line * 0x1000 + (op & 0x0100) + (mode / 2) * 0x10
        &&& op & 0xF138 == line * 0x1000 + (op & 0x0100) + mode * 8
        &&& op & 0xF13F == line * 0x1000 + (op & 0x0100) + mode * 8 + op % 8
        &&& op & 0xFFB8 == line * 0x1000 + rx * 0x0200 + (opmode / 2) * 0x80 + mode * 8
        &&& op & 0xFE00 == line * 0x1000 + rx * 0x0200
        &&& op & 0xF018 == line * 0x1000 + (mode % 4) * 8
        &&& op & 0x0100 == dir * 0x0100
    }) by (bit_vector);
}

} // verus!
