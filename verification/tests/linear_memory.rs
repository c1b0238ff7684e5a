use m68k::memory::{AddressBus, InstructionCacheBus};
use m68k::LinearMemoryBus;

fn version(bus: &mut LinearMemoryBus) -> u64 {
    bus.instruction_cache_version(0).unwrap()
}

/// A tight backward-branch loop.
fn loop_program() -> LinearMemoryBus {
    let mut mem = LinearMemoryBus::new(1024 * 1024);
    mem.write_long_at(0, 0x0008_0000); // reset SSP
    mem.write_long_at(4, 0x0000_1000); // reset PC
    mem.write_word_at(0x1000, 0x7000); // moveq #0,d0
    mem.write_word_at(0x1002, 0x323C); // move.w #$0FFF,d1
    mem.write_word_at(0x1004, 0x0FFF);
    mem.write_word_at(0x1006, 0x5280); // addq.l #1,d0
    mem.write_word_at(0x1008, 0x51C9); // dbra d1,-4
    mem.write_word_at(0x100A, 0xFFFC);
    mem.write_word_at(0x100C, 0x4E71); // nop
    mem.write_word_at(0x100E, 0x60FE); // bra.s *
    mem
}

#[test]
fn a_program_reads_back() {
    let mut mem = loop_program();
    assert_eq!(mem.len(), 1024 * 1024);
    assert_eq!(mem.read_long(0), 0x0008_0000);
    assert_eq!(mem.read_long(4), 0x0000_1000);
    assert_eq!(mem.read_immediate_word(0x1000), 0x7000);
    assert_eq!(mem.read_immediate_long(0x1002), 0x323C_0FFF);
    assert_eq!(mem.read_word(0x100E), 0x60FE);
    assert_eq!(mem.as_slice()[0x1008..0x100C], [0x51, 0xC9, 0xFF, 0xFC]);
    // Ten writes on top of the first version.
    assert_eq!(version(&mut mem), 11);
}

#[test]
fn a_new_bus_is_zero_filled() {
    let mut bus = LinearMemoryBus::new(5);
    assert_eq!(bus.len(), 5);
    assert!(!bus.is_empty());
    assert_eq!(bus.as_slice(), &[0, 0, 0, 0, 0]);
    assert_eq!(version(&mut bus), 1);
}

#[test]
fn values_are_big_endian() {
    let mut bus = LinearMemoryBus::from_vec(vec![0x12, 0x34, 0x56, 0x78, 0x9A]);
    assert_eq!(bus.read_byte(1), 0x34);
    assert_eq!(bus.read_word(1), 0x3456);
    assert_eq!(bus.read_long(1), 0x3456_789A);
    assert_eq!(bus.read_three_bytes(1), 0x34_5678);
    assert_eq!(bus.try_read_three_bytes(2), Ok(0x56_789A));
    assert_eq!(bus.as_slice(), &[0x12, 0x34, 0x56, 0x78, 0x9A]);
    assert_eq!(version(&mut bus), 1);
}

#[test]
fn addresses_wrap_in_a_power_of_two_buffer() {
    let mut bus = LinearMemoryBus::new(8);
    bus.write_long(6, 0xA1B2_C3D4);
    assert_eq!(bus.as_slice(), &[0xC3, 0xD4, 0, 0, 0, 0, 0xA1, 0xB2]);
    assert_eq!(bus.read_long(6), 0xA1B2_C3D4);
    assert_eq!(bus.read_long(14), 0xA1B2_C3D4);
    bus.write_word(0xFFFF_FFFF, 0x1122);
    assert_eq!(bus.read_byte(7), 0x11);
    assert_eq!(bus.read_byte(0), 0x22);
    assert_eq!(bus.read_word(0xFFFF_FFFF), 0x1122);
}

#[test]
fn addresses_wrap_in_any_other_buffer() {
    let mut bus = LinearMemoryBus::new(6);
    bus.write_long(5, 0xA1B2_C3D4);
    assert_eq!(bus.as_slice(), &[0xB2, 0xC3, 0xD4, 0, 0, 0xA1]);
    assert_eq!(bus.read_long(5), 0xA1B2_C3D4);
    assert_eq!(bus.read_long(11), 0xA1B2_C3D4);
    // The address space does not end where the buffer ends: 2^32 - 1 is 3
    // modulo 6, and the next address is 0.
    bus.write_word(0xFFFF_FFFF, 0x7788);
    assert_eq!(bus.as_slice(), &[0x88, 0xC3, 0xD4, 0x77, 0, 0xA1]);
}

#[test]
fn bytes_that_share_a_cell_keep_the_last_one() {
    let mut bus = LinearMemoryBus::new(1);
    bus.write_word(0, 0x1234);
    assert_eq!(bus.read_word(0), 0x3434);
    bus.write_long(9, 0x1234_5678);
    assert_eq!(bus.read_long(0), 0x7878_7878);
    bus.write_word(0, 0x5555);
    assert_eq!(bus.read_word(0), 0x5555);
    // The two cells of 0xFFFF_FFFF collide in a buffer of three bytes.
    let mut bus = LinearMemoryBus::new(3);
    bus.write_word(0xFFFF_FFFF, 0x1234);
    assert_eq!(bus.read_word(0xFFFF_FFFF), 0x3434);
}

#[test]
fn load_wraps_and_overwrites() {
    let mut bus = LinearMemoryBus::new(4);
    bus.load(3, &[1, 2, 3]);
    assert_eq!(bus.as_slice(), &[2, 3, 0, 1]);
    assert_eq!(version(&mut bus), 2);
    bus.load(2, &[9, 8, 7, 6, 5, 4]);
    assert_eq!(bus.as_slice(), &[7, 6, 5, 4]);
    bus.load(0, &[]);
    assert_eq!(bus.as_slice(), &[7, 6, 5, 4]);
    assert_eq!(version(&mut bus), 4);
    let mut bus = LinearMemoryBus::new(5);
    bus.load(0xFFFF_FFFE, &[1, 2, 3]);
    // 2^32 - 2 is 4 modulo 5, 2^32 - 1 and 2^32 both land in cell 0.
    assert_eq!(bus.as_slice(), &[3, 0, 0, 0, 1]);
}

#[test]
fn writes_store_only_their_bytes() {
    let mut bus = LinearMemoryBus::from_vec(vec![0xEE; 8]);
    bus.write_byte(1, 0x11);
    assert_eq!(bus.as_slice(), &[0xEE, 0x11, 0xEE, 0xEE, 0xEE, 0xEE, 0xEE, 0xEE]);
    bus.write_three_bytes(3, 0xFF33_4455);
    assert_eq!(bus.as_slice(), &[0xEE, 0x11, 0xEE, 0x33, 0x44, 0x55, 0xEE, 0xEE]);
    assert_eq!(bus.read_three_bytes(3), 0x0033_4455);
    assert_eq!(bus.try_write_three_bytes(5, 0x0066_7788), Ok(()));
    assert_eq!(bus.as_slice(), &[0xEE, 0x11, 0xEE, 0x33, 0x44, 0x66, 0x77, 0x88]);
    // One version for the byte, two for each three-byte operand.
    assert_eq!(version(&mut bus), 6);
}

#[test]
fn fallible_accesses_succeed() {
    let mut bus = LinearMemoryBus::new(16);
    assert_eq!(bus.try_write_byte(0, 0x12), Ok(()));
    assert_eq!(bus.try_write_word(2, 0x3456), Ok(()));
    assert_eq!(bus.try_write_long(4, 0x789A_BCDE), Ok(()));
    assert_eq!(bus.try_read_byte(0), Ok(0x12));
    assert_eq!(bus.try_read_word(2), Ok(0x3456));
    assert_eq!(bus.try_read_long(4), Ok(0x789A_BCDE));
    assert_eq!(bus.try_read_immediate_word(4), Ok(0x789A));
    assert_eq!(bus.try_read_immediate_long(2), Ok(0x3456_789A));
}

#[test]
fn every_write_changes_the_version() {
    let mut bus = LinearMemoryBus::new(8);
    let mut seen = version(&mut bus);
    for step in 0..6 {
        match step {
            0 => bus.write_byte(0, 0),
            1 => bus.write_word(0, 0),
            2 => bus.write_long(0, 0),
            3 => bus.load(0, &[]),
            4 => {
                bus.as_mut_slice();
            }
            _ => bus.invalidate_instruction_cache(0, 4),
        }
        let now = version(&mut bus);
        assert_eq!(now, seen + 1);
        seen = now;
    }
    bus.read_long(0);
    bus.read_immediate_word(0);
    bus.fast_mem();
    bus.sync(4);
    assert_eq!(version(&mut bus), seen);
}

#[test]
fn a_mutable_slice_is_the_memory() {
    let mut bus = LinearMemoryBus::new(4);
    bus.as_mut_slice()[2] = 0x42;
    assert_eq!(bus.read_word(2), 0x4200);
    assert_eq!(version(&mut bus), 2);
}

#[test]
fn the_window_is_the_memory() {
    let mut bus = LinearMemoryBus::from_vec(vec![1, 2, 3, 4, 5, 6]);
    let window = bus.fast_mem().unwrap();
    assert_eq!(window.base, 0);
    assert_eq!(window.len, 6);
    assert_eq!(window.ptr[..], [1, 2, 3, 4, 5, 6]);
    window.ptr[4] = 0x55;
    assert_eq!(bus.read_byte(4), 0x55);
    assert_eq!(bus.read_byte(10), 0x55);
    assert_eq!(bus.read_word(3), 0x0455);
    assert_eq!(version(&mut bus), 1);
}

#[test]
fn the_window_and_the_bus_are_interchangeable() {
    let mut bus = LinearMemoryBus::new(12);
    bus.write_byte(1, 0x11);
    bus.write_word(3, 0x2233);
    bus.write_long(6, 0x4455_6677);
    let shown = [0, 0x11, 0, 0x22, 0x33, 0, 0x44, 0x55, 0x66, 0x77, 0, 0];
    assert_eq!(bus.fast_mem().unwrap().ptr[..], shown);
    // Bus reads change nothing that the window shows.
    assert_eq!(bus.read_byte(1), 0x11);
    assert_eq!(bus.read_word(3), 0x2233);
    assert_eq!(bus.read_long(6), 0x4455_6677);
    let window = bus.fast_mem().unwrap();
    assert_eq!(window.ptr[..], shown);
    window.ptr[7] = 0xAA;
    window.ptr[8] = 0xBB;
    assert_eq!(bus.read_word(7), 0xAABB);
    assert_eq!(bus.read_long(6), 0x44AA_BB77);
    // A bus write changes just the bytes that it covers.
    bus.write_word(8, 0xCCDD);
    assert_eq!(bus.read_long(6), 0x44AA_CCDD);
    assert_eq!(bus.fast_mem().unwrap().ptr[6..11], [0x44, 0xAA, 0xCC, 0xDD, 0]);
}

#[test]
fn a_clone_is_independent() {
    let mut bus = LinearMemoryBus::from_vec(vec![1, 2, 3]);
    bus.write_byte(0, 9);
    let mut copy = bus.clone();
    assert_eq!(copy.as_slice(), bus.as_slice());
    assert_eq!(version(&mut copy), version(&mut bus));
    copy.write_byte(1, 7);
    assert_eq!(bus.as_slice(), &[9, 2, 3]);
    assert_eq!(copy.as_slice(), &[9, 7, 3]);
}

#[test]
fn powers_of_two() {
    for n in [1usize, 2, 4, 8, 1024, 1 << 20, 1 << 31] {
        assert!(m68k::bits::is_power_of_two(n));
    }
    for n in [0usize, 3, 5, 6, 7, 9, 1023, 1025, usize::MAX] {
        assert!(!m68k::bits::is_power_of_two(n));
    }
}

#[test]
fn checked_construction() {
    assert!(LinearMemoryBus::try_from_vec(Vec::new()).is_none());
    let mut bus = LinearMemoryBus::try_from_vec(vec![1, 2, 3]).unwrap();
    assert_eq!(bus.as_slice(), &[1, 2, 3]);
    assert_eq!(bus.instruction_cache_version(0), Some(1));
}

#[test]
fn addresses_wrap_by_mask_and_by_remainder() {
    let mut masked = LinearMemoryBus::new(16);
    assert_eq!(masked.index(0x1234_5679), 9);
    let divided = LinearMemoryBus::new(10);
    assert_eq!(divided.index(1_234_567), 7);
    masked.bump_instruction_version();
    assert_eq!(masked.instruction_cache_version(0), Some(2));
}
