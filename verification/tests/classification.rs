use m68k::classify::{alu, ea_flags};
use m68k::entry_060::{
    F_BRANCH, F_DBCC, F_DEFINES_CCR, F_EA_INDEXED, F_READS_MEM, F_UNCLASSIFIED, F_USES_CCR_LATE,
    F_VARIABLE, F_WRITES_MEM,
};
use m68k::info_table::build_info_table;
use m68k::reg_masks::ea_masks;
use m68k::{classify_060_opcode, info_060, reg_masks_060, Info060, InfoTable060, OepClass};

fn checksum(bytes: impl Iterator<Item = u8>) -> u64 {
    let mut hash: u64 = 0xcbf2_9ce4_8422_2325;
    for byte in bytes {
        hash = (hash ^ byte as u64).wrapping_mul(0x0000_0100_0000_01b3);
    }
    hash
}

#[test]
fn opcodes_have_their_packed_entries() {
    let entries: &[(u16, u16)] = &[
        (0x7000, 0x0404),
        (0x5280, 0x0404),
        (0x51C9, 0x098D),
        (0x60FE, 0x009D),
        (0x66FE, 0x089D),
        (0x61FE, 0x009D),
        (0x4E71, 0x0205),
        (0x323C, 0x0404),
        (0x2018, 0x4404),
        (0x0108, 0x4405),
        (0x0100, 0x0405),
        (0x0040, 0x0404),
        (0x00C0, 0x2205),
        (0x0AC0, 0x2205),
        (0x0C50, 0x4404),
        (0x0650, 0xC404),
        (0x003C, 0x0605),
        (0x0810, 0x4405),
        (0x0850, 0xC405),
        (0x48E7, 0xC20A),
        (0x4CDF, 0xC20A),
        (0x40C0, 0x0205),
        (0x44C0, 0x0605),
        (0x4AC0, 0xC409),
        (0x4C00, 0x0609),
        (0x4840, 0x0404),
        (0x4850, 0x0205),
        (0x4880, 0x0404),
        (0x49C0, 0x0404),
        (0x4280, 0x0404),
        (0x41F0, 0x1004),
        (0x43D0, 0x0004),
        (0x49D0, 0x0004),
        (0x4180, 0x0609),
        (0x4A50, 0x4404),
        (0x4E75, 0x0205),
        (0x50C0, 0x0804),
        (0x57D0, 0x8804),
        (0x80C1, 0x0609),
        (0x8100, 0x0E09),
        (0x8140, 0x0609),
        (0x8050, 0x4404),
        (0x8150, 0xC404),
        (0xD100, 0x0C05),
        (0xD109, 0xCC05),
        (0xD150, 0xC404),
        (0xD0C0, 0x0404),
        (0xD1C0, 0x0404),
        (0x9050, 0x4404),
        (0xB150, 0xC404),
        (0xB0C8, 0x0404),
        (0xC0C1, 0x0409),
        (0xC100, 0x0E09),
        (0xC140, 0x0005),
        (0xC148, 0x0005),
        (0xC188, 0x0005),
        (0xC050, 0x4404),
        (0xE8C0, 0x2205),
        (0xE0D0, 0xC404),
        (0xE010, 0x0C05),
        (0xE000, 0x0404),
        (0xA000, 0x2205),
        (0xF200, 0x2205),
        (0x30B0, 0xD404),
        (0x203B, 0x5404),
        (0x1F3C, 0x8404),
        (0x0188, 0x8405), // movep.w d0,(a0)
        (0x0E10, 0x2205), // moves.b (a0)
        (0x02D0, 0x2205), // cmp2.w (a0)
        (0x00D0, 0x2205), // cmp2.b (a0)
        (0x4980, 0x0609), // chk.w d0,d4
        (0x4190, 0x4609), // chk.w (a0),d0
        (0x4808, 0x0205), // link.l a0
        (0x4800, 0x0C04), // nbcd d0
        (0x4010, 0xCC04), // negx.b (a0)
        (0x49F0, 0x1004), // lea (d8,a0,xn),a4
        (0x4BD0, 0x0004), // lea (a0),a5
        (0x40D0, 0x8205), // move sr,(a0)
        (0x44D0, 0x4605), // move (a0),ccr
        (0x48F0, 0xD20A), // movem.l regs,(d8,a0,xn)
        (0x4AF0, 0xD409), // tas (d8,a0,xn)
        (0x4EF0, 0x1205), // jmp (d8,a0,xn)
        (0x50FC, 0x2205), // trapt
        (0x8180, 0x0609), // unpk d0,d0
        (0x8188, 0xC609), // unpk -(a0),-(a0)
        (0x80F0, 0x5609), // divu.w (d8,a0,xn),d0
        (0xB308, 0x4404), // cmpm.b (a0)+,(a1)+
        (0xC0F0, 0x5409), // mulu.w (d8,a0,xn),d0
        (0xD1C8, 0x0404), // adda.l a0,a0
        (0xE1F0, 0xD404), // asl.w (d8,a0,xn)
        (0xE5D0, 0xCC05), // roxl.w (a0)
    ];
    for &(op, packed) in entries {
        assert_eq!(classify_060_opcode(op).0, packed, "opcode {:04X}", op);
        assert_eq!(info_060(op).0, packed, "opcode {:04X}", op);
    }
}

#[test]
fn all_opcodes_have_their_packed_entries() {
    let sum = checksum((0..=0xFFFFu16).flat_map(|op| info_060(op).0.to_be_bytes()));
    assert_eq!(sum, 0x6a6f_1658_1b87_1268);
}

#[test]
fn the_table_holds_every_entry_and_is_built_once() {
    let mut table = InfoTable060::new();
    assert_eq!(table.lookup(0x7000), info_060(0x7000));
    let first = table.info_table().as_ptr();
    assert_eq!(table.info_table().len(), 0x1_0000);
    assert_eq!(table.info_table().as_ptr(), first);
    for op in 0..=0xFFFFu16 {
        assert_eq!(table.lookup(op), info_060(op));
    }
    assert_eq!(build_info_table(), *table.info_table());
}

#[test]
fn entries_unpack() {
    // MOVEQ
    let info = info_060(0x7001);
    assert_eq!(info.class(), OepClass::PoepSoep);
    assert_eq!(info.cycles(), 1);
    assert!(info.has(F_DEFINES_CCR));
    for flag in [
        F_BRANCH,
        F_DBCC,
        F_VARIABLE,
        F_USES_CCR_LATE,
        F_EA_INDEXED,
        F_UNCLASSIFIED,
        F_READS_MEM,
        F_WRITES_MEM,
    ] {
        assert!(!info.has(flag));
    }
    // DBF
    let info = info_060(0x51C8);
    assert_eq!(info.class(), OepClass::PoepOnly);
    assert_eq!(info.cycles(), 3);
    assert!(info.has(F_BRANCH) && info.has(F_DBCC) && info.has(F_USES_CCR_LATE));
    // BNE
    let info = info_060(0x6600);
    assert_eq!(info.cycles(), 7);
    assert!(info.has(F_BRANCH) && !info.has(F_DBCC));
    // MOVEM
    let info = info_060(0x48E7);
    assert_eq!(info.class(), OepClass::PoepUntilLast);
    assert_eq!(info.cycles(), 2);
    assert!(info.has(F_VARIABLE) && info.has(F_READS_MEM) && info.has(F_WRITES_MEM));
    // Line A
    let info = info_060(0xA123);
    assert_eq!(info.class(), OepClass::PoepOnly);
    assert!(info.has(F_UNCLASSIFIED) && info.has(F_VARIABLE));
    // Several flags at once: any of them counts.
    assert!(info.has(F_BRANCH | F_VARIABLE));
    assert!(!info.has(F_BRANCH | F_DBCC));
    assert!(!info.has(0));
}

#[test]
fn entries_pack() {
    let info = Info060::new(OepClass::PoepButAllowsSoep, 21, F_BRANCH | F_WRITES_MEM);
    assert_eq!(info.0, 3 | (21 << 2) | 0x8080);
    assert_eq!(info.class(), OepClass::PoepButAllowsSoep);
    assert_eq!(info.cycles(), 21);
    // Five bits of cycles are kept.
    assert_eq!(Info060::new(OepClass::PoepOnly, 33, 0).0, 1 | (1 << 2));
}

#[test]
fn effective_addresses_contribute_flags() {
    assert_eq!(ea_flags(0, 3, true, true), 0);
    assert_eq!(ea_flags(1, 3, true, true), 0);
    assert_eq!(ea_flags(2, 3, true, true), F_READS_MEM | F_WRITES_MEM);
    assert_eq!(ea_flags(5, 3, true, false), F_READS_MEM);
    assert_eq!(ea_flags(4, 3, false, true), F_WRITES_MEM);
    assert_eq!(ea_flags(6, 3, false, false), F_EA_INDEXED);
    assert_eq!(ea_flags(7, 3, true, false), F_READS_MEM | F_EA_INDEXED);
    assert_eq!(ea_flags(7, 4, true, true), 0);
    assert_eq!(ea_flags(7, 0, false, true), F_WRITES_MEM);
    assert_eq!(alu(2, 0, true, false).0, 0x4404);
}

#[test]
fn opcodes_have_their_registers() {
    let registers: &[(u16, (u16, u16))] = &[
        (0x7200, (0x0000, 0x0002)),
        (0x2018, (0x0101, 0x0101)),
        (0x2342, (0x0204, 0x0000)),
        (0x3F01, (0x8002, 0x8000)),
        (0x30B0, (0xFFFF, 0x0000)),
        (0x5280, (0x0001, 0x0001)),
        (0x5449, (0x0200, 0x0200)),
        (0x52D8, (0x0100, 0x0100)),
        (0x51C9, (0x0002, 0x0002)),
        (0x8050, (0x0101, 0x0001)),
        (0x8350, (0x0102, 0x0000)),
        (0xD0C1, (0x0102, 0x0100)),
        (0xD3D9, (0x0200, 0x0200)),
        (0xB151, (0x0201, 0x0000)),
        (0xC141, (0x0003, 0x0003)),
        (0x9281, (0x0002, 0x0002)),
        (0xE22A, (0x0006, 0x0004)),
        (0xE202, (0x0004, 0x0004)),
        (0xE0D0, (0xFFFF, 0xFFFF)),
        (0x43D0, (0x0100, 0x0200)),
        (0x41F0, (0xFFFF, 0x0100)),
        (0x4280, (0x0001, 0x0001)),
        (0x4A98, (0x0100, 0x0100)),
        (0x4A41, (0x0002, 0x0002)),
        (0x4840, (0x0001, 0x0001)),
        (0x4E75, (0xFFFF, 0xFFFF)),
        (0x0640, (0xFFFF, 0xFFFF)),
        (0x60FE, (0xFFFF, 0xFFFF)),
        (0xA000, (0xFFFF, 0xFFFF)),
        (0xF200, (0xFFFF, 0xFFFF)),
        (0xB181, (0x0003, 0x0002)), // eor.l d0,d1
        (0xB308, (0x0300, 0x0300)), // cmpm.b (a0)+,(a1)+
        (0x49C0, (0x0001, 0x0001)), // extb.l d0
        (0x4881, (0x0002, 0x0002)), // ext.w d1
        (0x4180, (0xFFFF, 0xFFFF)), // chk.w d0,d0
        (0x4980, (0xFFFF, 0xFFFF)), // chk.w d0,d4
        (0xC149, (0x0300, 0x0300)), // exg a0,a1
        (0xC189, (0x0201, 0x0201)), // exg d0,a1
        (0xD300, (0x0003, 0x0002)), // addx.b d0,d1
        (0xD308, (0x0300, 0x0300)), // addx.b -(a0),-(a1)
        (0xC300, (0x0003, 0x0002)), // abcd d0,d1
        (0x82C1, (0x0002, 0x0002)), // divu.w d1,d1
        (0xC2C1, (0x0002, 0x0002)), // mulu.w d1,d1
        (0xB0C1, (0x0102, 0x0100)), // cmpa.w d1,a0
    ];
    for &(op, masks) in registers {
        assert_eq!(reg_masks_060(op), masks, "opcode {:04X}", op);
    }
}

#[test]
fn all_opcodes_have_their_registers() {
    let sum = checksum((0..=0xFFFFu16).flat_map(|op| {
        let (uses, defs) = reg_masks_060(op);
        let (uses, defs) = (uses.to_be_bytes(), defs.to_be_bytes());
        [uses[0], uses[1], defs[0], defs[1]]
    }));
    assert_eq!(sum, 0xa1b3_2c52_0759_3d73);
}

#[test]
fn effective_addresses_have_their_registers() {
    assert_eq!(ea_masks(0, 3), (0x0008, 0));
    assert_eq!(ea_masks(1, 3), (0x0800, 0));
    assert_eq!(ea_masks(2, 7), (0x8000, 0));
    assert_eq!(ea_masks(3, 0), (0x0100, 0x0100));
    assert_eq!(ea_masks(4, 1), (0x0200, 0x0200));
    assert_eq!(ea_masks(5, 2), (0x0400, 0));
    assert_eq!(ea_masks(6, 2), (0xFFFF, 0));
    assert_eq!(ea_masks(7, 2), (0, 0));
}

#[test]
fn check_is_primary_only_into_every_register() {
    for n in 0..8u16 {
        for size in [0x0100, 0x0180] {
            let info = info_060(0x4000 | n << 9 | size | 1);
            assert_eq!(info.class(), OepClass::PoepOnly);
            assert!(info.has(F_VARIABLE) && !info.has(F_UNCLASSIFIED));
        }
    }
}

#[test]
fn load_address_is_plain_into_every_register() {
    for n in 0..8u16 {
        for (ea, indexed) in [(0x10, false), (0x28, false), (0x30, true), (0x3A, false), (0x3B, true)] {
            let info = info_060(0x41C0 | n << 9 | ea);
            assert_eq!(info.class(), OepClass::PoepSoep);
            assert_eq!(info.cycles(), 1);
            assert!(!info.has(F_READS_MEM | F_WRITES_MEM | F_DEFINES_CCR));
            assert_eq!(info.has(F_EA_INDEXED), indexed);
        }
    }
}

#[test]
fn extended_operations_consume_x() {
    // negx, nbcd, subx, addx, sbcd, abcd, roxr, roxl of a register and of memory
    for op in [0x4080, 0x4810, 0x9181, 0xD189, 0x8101, 0xC109, 0xE010, 0xE5D0] {
        assert!(info_060(op).has(F_USES_CCR_LATE), "opcode {:04X}", op);
    }
    // neg, not, suba.l, unpk and asl do not.
    for op in [0x4480, 0x4680, 0x91C0, 0x8180, 0xE100] {
        assert!(!info_060(op).has(F_USES_CCR_LATE), "opcode {:04X}", op);
    }
}
