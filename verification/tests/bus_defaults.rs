use m68k::memory::{join_three_bytes, split_three_bytes};
use m68k::{AddressBus, BusFault, BusFaultKind, InstructionCacheBus};

/// Records accesses. Fallible word and byte accesses fault at `bad`.
struct Probe {
    log: Vec<(char, u32, u32)>,
    bad: Option<u32>,
}

impl Probe {
    fn new(bad: Option<u32>) -> Self {
        Probe { log: Vec::new(), bad }
    }

    fn fault(&self, address: u32) -> Result<(), BusFault> {
        if self.bad == Some(address) {
            Err(BusFault { kind: BusFaultKind::BusError, address })
        } else {
            Ok(())
        }
    }
}

impl AddressBus for Probe {
    fn read_byte(&mut self, address: u32) -> u8 {
        self.log.push(('b', address, 0));
        0xAB
    }
    fn read_word(&mut self, address: u32) -> u16 {
        self.log.push(('w', address, 0));
        0x1234
    }
    fn read_long(&mut self, address: u32) -> u32 {
        self.log.push(('l', address, 0));
        0xDEAD_BEEF
    }
    fn write_byte(&mut self, address: u32, value: u8) {
        self.log.push(('B', address, value as u32));
    }
    fn write_word(&mut self, address: u32, value: u16) {
        self.log.push(('W', address, value as u32));
    }
    fn write_long(&mut self, address: u32, value: u32) {
        self.log.push(('L', address, value));
    }
    fn try_read_byte(&mut self, address: u32) -> Result<u8, BusFault> {
        self.fault(address)?;
        Ok(self.read_byte(address))
    }
    fn try_read_word(&mut self, address: u32) -> Result<u16, BusFault> {
        self.fault(address)?;
        Ok(self.read_word(address))
    }
    fn try_write_byte(&mut self, address: u32, value: u8) -> Result<(), BusFault> {
        self.fault(address)?;
        self.write_byte(address, value);
        Ok(())
    }
    fn try_write_word(&mut self, address: u32, value: u16) -> Result<(), BusFault> {
        self.fault(address)?;
        self.write_word(address, value);
        Ok(())
    }
}

impl InstructionCacheBus for Probe {}

/// All defaults.
struct Plain(Probe);

impl AddressBus for Plain {
    fn read_byte(&mut self, address: u32) -> u8 {
        self.0.read_byte(address)
    }
    fn read_word(&mut self, address: u32) -> u16 {
        self.0.read_word(address)
    }
    fn read_long(&mut self, address: u32) -> u32 {
        self.0.read_long(address)
    }
    fn write_byte(&mut self, address: u32, value: u8) {
        self.0.write_byte(address, value)
    }
    fn write_word(&mut self, address: u32, value: u16) {
        self.0.write_word(address, value)
    }
    fn write_long(&mut self, address: u32, value: u32) {
        self.0.write_long(address, value)
    }
}

#[test]
fn defaults_delegate_to_the_plain_accesses() {
    let mut bus = Plain(Probe::new(None));
    assert_eq!(bus.try_read_byte(1), Ok(0xAB));
    assert_eq!(bus.try_read_word(2), Ok(0x1234));
    assert_eq!(bus.try_read_long(3), Ok(0xDEAD_BEEF));
    assert_eq!(bus.try_write_byte(4, 5), Ok(()));
    assert_eq!(bus.try_write_word(6, 7), Ok(()));
    assert_eq!(bus.try_write_long(8, 9), Ok(()));
    assert_eq!(bus.read_immediate_word(10), 0x1234);
    assert_eq!(bus.read_immediate_long(11), 0xDEAD_BEEF);
    assert_eq!(bus.try_read_immediate_word(12), Ok(0x1234));
    assert_eq!(bus.try_read_immediate_long(13), Ok(0xDEAD_BEEF));
    assert_eq!(
        bus.0.log,
        vec![
            ('b', 1, 0),
            ('w', 2, 0),
            ('l', 3, 0),
            ('B', 4, 5),
            ('W', 6, 7),
            ('L', 8, 9),
            ('w', 10, 0),
            ('l', 11, 0),
            ('w', 12, 0),
            ('l', 13, 0),
        ]
    );
}

#[test]
fn quiet_defaults_touch_nothing() {
    let mut bus = Plain(Probe::new(None));
    bus.sync(7);
    bus.begin_instruction_fetches();
    bus.ipl_hold_sample();
    bus.ipl_release_sample();
    bus.reset_devices();
    assert!(bus.last_fetch_was_cached());
    assert!(bus.instruction_fetches_were_cached());
    assert!(!bus.take_boundary_request());
    assert_eq!(bus.interrupt_acknowledge(3), 0xFFFF_FFFF);
    assert!(bus.fast_mem().is_none());
    assert!(bus.0.log.is_empty());

    let mut bus = Probe::new(None);
    assert_eq!(bus.instruction_cache_version(0), None);
    bus.invalidate_instruction_cache(0, 2);
    assert!(bus.log.is_empty());
}

#[test]
fn three_bytes_are_a_word_and_a_byte() {
    let mut bus = Probe::new(None);
    assert_eq!(bus.read_three_bytes(0x100), 0x12_34AB);
    assert_eq!(bus.try_read_three_bytes(0xFFFF_FFFE), Ok(0x12_34AB));
    bus.write_three_bytes(0x200, 0xFFAB_CDEF);
    assert_eq!(bus.try_write_three_bytes(0xFFFF_FFFF, 0x00AB_CDEF), Ok(()));
    assert_eq!(
        bus.log,
        vec![
            ('w', 0x100, 0),
            ('b', 0x102, 0),
            ('w', 0xFFFF_FFFE, 0),
            ('b', 0, 0),
            ('W', 0x200, 0xABCD),
            ('B', 0x202, 0xEF),
            ('W', 0xFFFF_FFFF, 0xABCD),
            ('B', 1, 0xEF),
        ]
    );
}

#[test]
fn a_fault_on_either_half_is_reported() {
    let fault = |address: u32| BusFault { kind: BusFaultKind::BusError, address };
    let mut bus = Probe::new(Some(0x100));
    assert_eq!(bus.try_read_three_bytes(0x100), Err(fault(0x100)));
    assert_eq!(bus.try_write_three_bytes(0x100, 0x123456), Err(fault(0x100)));
    assert!(bus.log.is_empty());

    let mut bus = Probe::new(Some(0x102));
    assert_eq!(bus.try_read_three_bytes(0x100), Err(fault(0x102)));
    assert_eq!(bus.try_write_three_bytes(0x100, 0x123456), Err(fault(0x102)));
    assert_eq!(bus.log, vec![('w', 0x100, 0), ('W', 0x100, 0x1234)]);
}

#[test]
fn three_byte_operands_join_and_split() {
    assert_eq!(join_three_bytes(0x1234, 0x56), 0x0012_3456);
    assert_eq!(join_three_bytes(0xFFFF, 0xFF), 0x00FF_FFFF);
    assert_eq!(split_three_bytes(0x9912_3456), (0x1234, 0x56));
    let (hi, lo) = split_three_bytes(0x0089_ABCD);
    assert_eq!(join_three_bytes(hi, lo), 0x0089_ABCD);
}

#[test]
fn a_bus_can_be_used_behind_a_reference_to_the_trait() {
    let mut probe = Probe::new(None);
    let bus: &mut dyn AddressBus = &mut probe;
    assert_eq!(bus.read_three_bytes(0), 0x12_34AB);
}
