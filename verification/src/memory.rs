//! Memory access traits.

use vstd::prelude::*;

use crate::linear_memory;

verus! {

/// Kind of bus-level fault during a memory access (distinct from 68000 address error).
#[derive(Debug, Clone, Copy, PartialEq, Eq, Structural)]
pub enum BusFaultKind {
    /// Generic bus error (unmapped address, device error, etc).
    BusError,
}

/// A bus-level fault that occurred during a memory access.
#[derive(Debug, Clone, Copy, PartialEq, Eq, Structural)]
pub struct BusFault {
    /// Classification of the failed bus transaction.
    pub kind: BusFaultKind,
    /// Bus address at which the transaction failed.
    pub address: u32,
}

/// A contiguous guest-RAM window the CPU may access directly ("fastmem").
///
/// Returned by [`AddressBus::fast_mem`], whose contract says what a bus
/// promises by handing one out: byte `a - base` of the window is the byte that
/// a read of guest address `a` gives, before and after anything is written
/// through the window, and multi-byte values are stored big-endian. Accesses
/// through the window and through the bus are interchangeable: a bus read in
/// it changes none of its bytes, and a bus write in it changes just the bytes
/// that it covers.
///
/// Buses with any interception (tracers, watchpoints, MMIO in range) must
/// return `None` from `fast_mem` while that interception is active. Windows of
/// fewer than 4 bytes are of no use to a CPU and may be ignored.
#[derive(Debug)]
pub struct FastMem<'a> {
    /// Host view of guest RAM, starting with the byte backing guest address
    /// `base`. It holds at least `len` bytes.
    pub ptr: &'a mut [u8],
    /// First guest address covered by the window.
    pub base: u32,
    /// Window length in bytes.
    pub len: u32,
}

impl<'a> FastMem<'a> {
    /// The `count` bytes at guest address `a` and onwards lie in the window.
    pub open spec fn covers(&self, a: u32, count: int) -> bool {
        window_covers(self.base, self.len, a, count)
    }

    /// The window's bytes after `data` was put at guest address `a` in a
    /// window that held `bytes`.
    pub open spec fn patched(&self, bytes: Seq<u8>, a: u32, data: Seq<u8>) -> Seq<u8> {
        patched_at(bytes, a - self.base, data)
    }
}

/// The `count` bytes at guest address `a` and onwards lie in the `len` bytes at
/// `base`.
pub open spec fn window_covers(base: u32, len: u32, a: u32, count: int) -> bool {
    base <= a && a + count <= base + len
}

/// `bytes` with `data` in place of what stood at index `at` and onwards.
pub open spec fn patched_at(bytes: Seq<u8>, at: int, data: Seq<u8>) -> Seq<u8> {
    Seq::new(
        bytes.len(),
        |i: int|
            if at <= i < at + data.len() {
                data[i - at]
            } else {
                bytes[i]
            },
    )
}

/// Reads of the bus in state `bus` give what the window of `len` bytes at
/// `base` holds, `bytes`: bytes as they are, words and longwords big-endian.
pub open spec fn reads_window<
    B: ?Sized,
    ReadByte: FnOnce(&mut B, u32) -> u8,
    ReadWord: FnOnce(&mut B, u32) -> u16,
    ReadLong: FnOnce(&mut B, u32) -> u32,
>(
    read_byte: ReadByte,
    read_word: ReadWord,
    read_long: ReadLong,
    bus: &B,
    base: u32,
    len: u32,
    bytes: Seq<u8>,
) -> bool {
    &&& forall|b: &mut B, a: u32, v: u8| #[trigger]
        call_ensures(read_byte, (b, a), v) && &*b == bus && window_covers(base, len, a, 1)
            ==> v == bytes[a - base]
    &&& forall|b: &mut B, a: u32, v: u16| #[trigger]
        call_ensures(read_word, (b, a), v) && &*b == bus && window_covers(base, len, a, 2)
            ==> v == bytes[a - base] * 256 + bytes[a - base + 1]
    &&& forall|b: &mut B, a: u32, v: u32| #[trigger]
        call_ensures(read_long, (b, a), v) && &*b == bus && window_covers(base, len, a, 4)
            ==> v == bytes[a - base] * 0x100_0000 + bytes[a - base + 1] * 0x1_0000 + bytes[a - base
            + 2] * 256 + bytes[a - base + 3]
}

/// The operand address `offset` bytes past `address` on the 32-bit address bus.
pub open spec fn bus_offset(address: u32, offset: int) -> u32 {
    ((address + offset) % 0x1_0000_0000) as u32
}

/// Joins a word and the byte behind it to a big-endian three-byte operand.
pub fn join_three_bytes(hi: u16, lo: u8) -> (value: u32)
    ensures
        value == hi * 256 + lo,
{
    let hi: u32 = hi as u32;
    let lo: u32 = lo as u32;
    assert((hi << 8) | lo == hi * 256 + lo) by (bit_vector)
        requires
            hi < 0x1_0000,
            lo < 0x100,
    ;
    (hi << 8) | lo
}

/// Bits 23 to 8 of `value`: the word at the front of a three-byte operand.
pub open spec fn three_byte_word(value: u32) -> u16 {
    ((value / 256) % 0x1_0000) as u16
}

/// Bits 7 to 0 of `value`: the byte at the end of a three-byte operand.
pub open spec fn three_byte_tail(value: u32) -> u8 {
    (value % 256) as u8
}

/// The word that holds the upper two bytes of a big-endian three-byte operand,
/// and the byte behind it. Bits 31 to 24 of `value` are dropped.
pub fn split_three_bytes(value: u32) -> (parts: (u16, u8))
    ensures
        parts.0 == three_byte_word(value),
        parts.1 == three_byte_tail(value),
{
    assert((value >> 8) as u16 == (value / 256) % 0x1_0000 && value as u8 == value % 256)
        by (bit_vector);
    (#[verifier::truncate] ((value >> 8) as u16), #[verifier::truncate] (value as u8))
}

/// Reads by `access`.
fn read_by<B: ?Sized, V, F: FnOnce(&mut B, u32) -> V>(
    access: F,
    bus: &mut B,
    address: u32,
) -> (value: V)
    requires
        forall|b: &mut B| &*b == &*old(bus) ==> #[trigger] call_requires(access, (b, address)),
    ensures
        exists|b: &mut B|
            {
                &&& #[trigger] call_ensures(access, (b, address), value)
                &&& &*b == &*old(bus)
                &&& &*final(b) == &*final(bus)
            },
{
    access(bus, address)
}

/// The outcome of an access that cannot fault.
fn accepted<V>(value: V) -> (result: Result<V, BusFault>)
    ensures
        result matches Ok(v) && v == value,
{
    Ok(value)
}

/// Writes by `access`.
fn write_by<B: ?Sized, D, R, F: FnOnce(&mut B, u32, D) -> R>(
    access: F,
    bus: &mut B,
    address: u32,
    data: D,
) -> (result: R)
    requires
        forall|b: &mut B|
            &*b == &*old(bus) ==> #[trigger] call_requires(access, (b, address, data)),
    ensures
        exists|b: &mut B|
            {
                &&& #[trigger] call_ensures(access, (b, address, data), result)
                &&& &*b == &*old(bus)
                &&& &*final(b) == &*final(bus)
            },
{
    access(bus, address, data)
}

/// Asks the bus by `question`.
fn ask<B: ?Sized, V, F: FnOnce(&B) -> V>(question: F, bus: &B) -> (answer: V)
    requires
        call_requires(question, (bus,)),
    ensures
        call_ensures(question, (bus,), answer),
{
    question(bus)
}

/// Host-provided memory and device bus used by a CPU core.
///
/// Multi-byte values use the 68k's big-endian byte order. The six basic
/// read/write methods are required; the remaining hooks have conservative
/// defaults for functional emulators and can be overridden for precise
/// faults, timing, interrupts, caches, and batch acceleration.
///
/// Nothing is promised of the required methods: a device register may answer
/// two reads of one address differently. The contracts of the provided methods
/// say of which accesses they are made, what goes into each, and what becomes
/// of the answers.
pub trait AddressBus {
    /// What the bus keeps true of itself from one call to the next.
    open spec fn inv(&self) -> bool {
        true
    }

    /// Read one byte from `address`.
    fn read_byte(&mut self, address: u32) -> (value: u8)
        requires
            old(self).inv(),
        ensures
            final(self).inv(),
    ;

    /// Read one big-endian 16-bit word from `address`.
    fn read_word(&mut self, address: u32) -> (value: u16)
        requires
            old(self).inv(),
        ensures
            final(self).inv(),
    ;

    /// Read one big-endian 32-bit longword from `address`.
    fn read_long(&mut self, address: u32) -> (value: u32)
        requires
            old(self).inv(),
        ensures
            final(self).inv(),
    ;

    /// Write one byte to `address`.
    fn write_byte(&mut self, address: u32, value: u8)
        requires
            old(self).inv(),
        ensures
            final(self).inv(),
    ;

    /// Write one big-endian 16-bit word to `address`.
    fn write_word(&mut self, address: u32, value: u16)
        requires
            old(self).inv(),
        ensures
            final(self).inv(),
    ;

    /// Write one big-endian 32-bit longword to `address`.
    fn write_long(&mut self, address: u32, value: u32)
        requires
            old(self).inv(),
        ensures
            final(self).inv(),
    ;

    /// Precise-timing callback: called immediately before each bus access with
    /// the number of CPU clocks of internal (non-bus) processing the core
    /// performed since its previous access. The access itself then takes the
    /// standard 4 CPU clocks of a 68000 bus cycle.
    ///
    /// Hosts that emulate surrounding hardware (DMA, video beam) advance it
    /// by `cpu_clocks` here so every access lands at the hardware-exact
    /// moment. The default does nothing.
    fn sync(&mut self, cpu_clocks: u32)
        requires
            old(self).inv(),
        ensures
            final(self).inv(),
        default_ensures
            &*final(self) == &*old(self),
    {
    }

    /// Fallible byte read used to surface bus/MMU faults to the CPU core.
    ///
    /// The default delegates to [`AddressBus::read_byte`] and cannot fault.
    fn try_read_byte(&mut self, address: u32) -> (result: Result<u8, BusFault>)
        requires
            old(self).inv(),
        ensures
            final(self).inv(),
        default_ensures
            result matches Ok(value) && exists|bus: &mut Self|
                {
                    &&& #[trigger] call_ensures(Self::read_byte, (bus, address), value)
                    &&& &*bus == &*old(self)
                    &&& &*final(bus) == &*final(self)
                },
    {
        accepted(read_by(Self::read_byte, self, address))
    }

    /// Fallible word read used for bus/MMU fault delivery.
    ///
    /// The default delegates to [`AddressBus::read_word`] and cannot fault.
    fn try_read_word(&mut self, address: u32) -> (result: Result<u16, BusFault>)
        requires
            old(self).inv(),
        ensures
            final(self).inv(),
        default_ensures
            result matches Ok(value) && exists|bus: &mut Self|
                {
                    &&& #[trigger] call_ensures(Self::read_word, (bus, address), value)
                    &&& &*bus == &*old(self)
                    &&& &*final(bus) == &*final(self)
                },
    {
        accepted(read_by(Self::read_word, self, address))
    }

    /// Fallible longword read used for bus/MMU fault delivery.
    ///
    /// The default delegates to [`AddressBus::read_long`] and cannot fault.
    fn try_read_long(&mut self, address: u32) -> (result: Result<u32, BusFault>)
        requires
            old(self).inv(),
        ensures
            final(self).inv(),
        default_ensures
            result matches Ok(value) && exists|bus: &mut Self|
                {
                    &&& #[trigger] call_ensures(Self::read_long, (bus, address), value)
                    &&& &*bus == &*old(self)
                    &&& &*final(bus) == &*final(self)
                },
    {
        accepted(read_by(Self::read_long, self, address))
    }

    /// Fallible byte write used for bus/MMU fault delivery.
    ///
    /// The default delegates to [`AddressBus::write_byte`] and cannot fault.
    fn try_write_byte(&mut self, address: u32, value: u8) -> (result: Result<(), BusFault>)
        requires
            old(self).inv(),
        ensures
            final(self).inv(),
        default_ensures
            result is Ok,
            exists|bus: &mut Self|
                {
                    &&& #[trigger] call_ensures(Self::write_byte, (bus, address, value), ())
                    &&& &*bus == &*old(self)
                    &&& &*final(bus) == &*final(self)
                },
    {
        write_by(Self::write_byte, self, address, value);
        Ok(())
    }

    /// Fallible word write used for bus/MMU fault delivery.
    ///
    /// The default delegates to [`AddressBus::write_word`] and cannot fault.
    fn try_write_word(&mut self, address: u32, value: u16) -> (result: Result<(), BusFault>)
        requires
            old(self).inv(),
        ensures
            final(self).inv(),
        default_ensures
            result is Ok,
            exists|bus: &mut Self|
                {
                    &&& #[trigger] call_ensures(Self::write_word, (bus, address, value), ())
                    &&& &*bus == &*old(self)
                    &&& &*final(bus) == &*final(self)
                },
    {
        write_by(Self::write_word, self, address, value);
        Ok(())
    }

    /// Fallible longword write used for bus/MMU fault delivery.
    ///
    /// The default delegates to [`AddressBus::write_long`] and cannot fault.
    fn try_write_long(&mut self, address: u32, value: u32) -> (result: Result<(), BusFault>)
        requires
            old(self).inv(),
        ensures
            final(self).inv(),
        default_ensures
            result is Ok,
            exists|bus: &mut Self|
                {
                    &&& #[trigger] call_ensures(Self::write_long, (bus, address, value), ())
                    &&& &*bus == &*old(self)
                    &&& &*final(bus) == &*final(self)
                },
    {
        write_by(Self::write_long, self, address, value);
        Ok(())
    }

    /// Read a big-endian three-byte operand from `address`, returned in the
    /// low 24 bits.
    ///
    /// The 68020/68030 transfer an operand at the size it spans - byte, word,
    /// three-byte or long (MC68020UM 5.3.1) - so a bit field covering three
    /// bytes is a single operand transfer, not a word plus a byte. The
    /// default composes one anyway, which is correct for every bus that only
    /// moves data; hosts that bill bus cycles or count transactions should
    /// override it so the access costs what the hardware charges.
    ///
    /// The 68040/68060 bus has no three-byte encoding. A host modelling one
    /// may split the access however that processor does, provided it still
    /// touches only these three bytes.
    fn read_three_bytes(&mut self, address: u32) -> (value: u32)
        requires
            old(self).inv(),
        ensures
            final(self).inv(),
        default_ensures
            exists|first: &mut Self, hi: u16, second: &mut Self, lo: u8|
                {
                    &&& #[trigger] call_ensures(Self::read_word, (first, address), hi)
                    &&& #[trigger] call_ensures(
                        Self::read_byte,
                        (second, bus_offset(address, 2)),
                        lo,
                    )
                    &&& &*first == &*old(self)
                    &&& &*final(first) == &*second
                    &&& &*final(second) == &*final(self)
                    &&& value == hi * 256 + lo
                },
    {
        assert(address.wrapping_add(2) == bus_offset(address, 2));
        let hi: u16 = read_by(Self::read_word, self, address);
        let lo: u8 = read_by(Self::read_byte, self, address.wrapping_add(2));
        join_three_bytes(hi, lo)
    }

    /// Write the low 24 bits of `value` as a big-endian three-byte operand.
    ///
    /// See [`AddressBus::read_three_bytes`] for when a core uses this and
    /// why a host may want to override it.
    fn write_three_bytes(&mut self, address: u32, value: u32)
        requires
            old(self).inv(),
        ensures
            final(self).inv(),
        default_ensures
            exists|first: &mut Self, second: &mut Self|
                {
                    &&& #[trigger] call_ensures(
                        Self::write_word,
                        (first, address, three_byte_word(value)),
                        (),
                    )
                    &&& #[trigger] call_ensures(
                        Self::write_byte,
                        (second, bus_offset(address, 2), three_byte_tail(value)),
                        (),
                    )
                    &&& &*first == &*old(self)
                    &&& &*final(first) == &*second
                    &&& &*final(second) == &*final(self)
                },
    {
        assert(address.wrapping_add(2) == bus_offset(address, 2));
        let (hi, lo) = split_three_bytes(value);
        write_by(Self::write_word, self, address, hi);
        write_by(Self::write_byte, self, address.wrapping_add(2), lo);
    }

    /// Fallible three-byte read used for bus/MMU fault delivery. **This is
    /// the variant a core calls**, so a host that bills bus cycles must
    /// override it (as well as [`AddressBus::read_three_bytes`]) for the
    /// billing to take effect.
    ///
    /// The default composes the fallible word and byte reads rather than
    /// delegating to the infallible variant, so a bus keeps reporting a fault
    /// on whichever half of the operand fails. The byte is not read when the
    /// word faults.
    fn try_read_three_bytes(&mut self, address: u32) -> (result: Result<u32, BusFault>)
        requires
            old(self).inv(),
        ensures
            final(self).inv(),
        default_ensures
            exists|first: &mut Self, word: Result<u16, BusFault>|
                {
                    &&& #[trigger] call_ensures(Self::try_read_word, (first, address), word)
                    &&& &*first == &*old(self)
                    &&& match word {
                        Ok(hi) => exists|second: &mut Self, byte: Result<u8, BusFault>|
                            {
                                &&& #[trigger] call_ensures(
                                    Self::try_read_byte,
                                    (second, bus_offset(address, 2)),
                                    byte,
                                )
                                &&& &*final(first) == &*second
                                &&& &*final(second) == &*final(self)
                                &&& match byte {
                                    Ok(lo) => result matches Ok(value) && value == hi * 256 + lo,
                                    Err(fault) => result == Err::<u32, BusFault>(fault),
                                }
                            },
                        Err(fault) => {
                            &&& &*final(first) == &*final(self)
                            &&& result == Err::<u32, BusFault>(fault)
                        },
                    }
                },
    {
        assert(address.wrapping_add(2) == bus_offset(address, 2));
        match read_by(Self::try_read_word, self, address) {
            Ok(hi) => {
                match read_by(Self::try_read_byte, self, address.wrapping_add(2)) {
                    Ok(lo) => Ok(join_three_bytes(hi, lo)),
                    Err(fault) => Err(fault),
                }
            },
            Err(fault) => Err(fault),
        }
    }

    /// Fallible three-byte write used for bus/MMU fault delivery.
    ///
    /// See [`AddressBus::try_read_three_bytes`]: this is the variant a core
    /// calls, and the default composes the fallible word and byte writes. The
    /// byte is not written when the word faults.
    fn try_write_three_bytes(&mut self, address: u32, value: u32) -> (result: Result<(), BusFault>)
        requires
            old(self).inv(),
        ensures
            final(self).inv(),
        default_ensures
            exists|first: &mut Self, word: Result<(), BusFault>|
                {
                    &&& #[trigger] call_ensures(
                        Self::try_write_word,
                        (first, address, three_byte_word(value)),
                        word,
                    )
                    &&& &*first == &*old(self)
                    &&& match word {
                        Ok(_) => exists|second: &mut Self|
                            {
                                &&& #[trigger] call_ensures(
                                    Self::try_write_byte,
                                    (second, bus_offset(address, 2), three_byte_tail(value)),
                                    result,
                                )
                                &&& &*final(first) == &*second
                                &&& &*final(second) == &*final(self)
                            },
                        Err(fault) => {
                            &&& &*final(first) == &*final(self)
                            &&& result == Err::<(), BusFault>(fault)
                        },
                    }
                },
    {
        assert(address.wrapping_add(2) == bus_offset(address, 2));
        let (hi, lo) = split_three_bytes(value);
        match write_by(Self::try_write_word, self, address, hi) {
            Ok(()) => write_by(Self::try_write_byte, self, address.wrapping_add(2), lo),
            Err(fault) => Err(fault),
        }
    }

    /// Read an instruction-stream word.
    ///
    /// Override this when opcode/immediate fetches use a distinct bus path.
    fn read_immediate_word(&mut self, address: u32) -> (value: u16)
        requires
            old(self).inv(),
        ensures
            final(self).inv(),
        default_ensures
            exists|bus: &mut Self|
                {
                    &&& #[trigger] call_ensures(Self::read_word, (bus, address), value)
                    &&& &*bus == &*old(self)
                    &&& &*final(bus) == &*final(self)
                },
    {
        read_by(Self::read_word, self, address)
    }

    /// Read an instruction-stream longword.
    ///
    /// Override this when opcode/immediate fetches use a distinct bus path.
    fn read_immediate_long(&mut self, address: u32) -> (value: u32)
        requires
            old(self).inv(),
        ensures
            final(self).inv(),
        default_ensures
            exists|bus: &mut Self|
                {
                    &&& #[trigger] call_ensures(Self::read_long, (bus, address), value)
                    &&& &*bus == &*old(self)
                    &&& &*final(bus) == &*final(self)
                },
    {
        read_by(Self::read_long, self, address)
    }

    /// Instruction-stream word read with bus-fault reporting, used by the
    /// non-prefetch (68010+) opcode/immediate path so hosts can tell
    /// fetches from data reads (e.g. to model a 32-bit fetch path).
    ///
    /// The default delegates to [`AddressBus::read_immediate_word`] and
    /// cannot fault.
    fn try_read_immediate_word(&mut self, address: u32) -> (result: Result<u16, BusFault>)
        requires
            old(self).inv(),
        ensures
            final(self).inv(),
        default_ensures
            result matches Ok(value) && exists|bus: &mut Self|
                {
                    &&& #[trigger] call_ensures(Self::read_immediate_word, (bus, address), value)
                    &&& &*bus == &*old(self)
                    &&& &*final(bus) == &*final(self)
                },
    {
        accepted(read_by(Self::read_immediate_word, self, address))
    }

    /// Fallible instruction-stream longword read.
    ///
    /// The default delegates to [`AddressBus::read_immediate_long`] and
    /// cannot fault.
    fn try_read_immediate_long(&mut self, address: u32) -> (result: Result<u32, BusFault>)
        requires
            old(self).inv(),
        ensures
            final(self).inv(),
        default_ensures
            result matches Ok(value) && exists|bus: &mut Self|
                {
                    &&& #[trigger] call_ensures(Self::read_immediate_long, (bus, address), value)
                    &&& &*bus == &*old(self)
                    &&& &*final(bus) == &*final(self)
                },
    {
        accepted(read_by(Self::read_immediate_long, self, address))
    }

    /// Whether the most recent instruction-stream read was served from the
    /// CPU's instruction cache. The 68060 timing model gates superscalar
    /// pairing and branch folding on a cached fetch stream; plain test
    /// buses default to true (pair freely).
    fn last_fetch_was_cached(&self) -> (cached: bool)
        requires
            self.inv(),
        default_ensures
            cached,
    {
        true
    }

    /// Start tracking cache residency for one complete instruction. The
    /// MC68020 timing tables define their cache case for an instruction that
    /// is in the cache, including extension and immediate words rather than
    /// only the opcode word. Hosts with an instruction-cache model use this
    /// hook to reset their per-instruction hit accumulator.
    fn begin_instruction_fetches(&mut self)
        requires
            old(self).inv(),
        ensures
            final(self).inv(),
        default_ensures
            &*final(self) == &*old(self),
    {
    }

    /// Whether every instruction-stream access since
    /// `begin_instruction_fetches` hit the instruction cache. Functional test
    /// buses without a cache model default to the most recent fetch result.
    fn instruction_fetches_were_cached(&self) -> (cached: bool)
        requires
            self.inv(),
        default_ensures
            call_ensures(Self::last_fetch_was_cached, (self,), cached),
    {
        ask(Self::last_fetch_was_cached, self)
    }

    /// Take a pending request to return from cycle-scheduled execution at
    /// the next completed instruction or interrupt-entry boundary.
    ///
    /// Implementations should consume the request when returning `true`, so
    /// execution can resume without a separate acknowledgement call. A bus
    /// can retain any associated host work in its own queue until the caller
    /// processes the boundary exit. The default reports no request.
    fn take_boundary_request(&mut self) -> (requested: bool)
        requires
            old(self).inv(),
        ensures
            final(self).inv(),
        default_ensures
            !requested,
            &*final(self) == &*old(self),
    {
        false
    }

    /// Perform an interrupt-acknowledge cycle for `level`.
    ///
    /// Return an explicit vector number in the low byte, or `u32::MAX` for
    /// the level's autovector. The default requests an autovector.
    fn interrupt_acknowledge(&mut self, level: u8) -> (vector: u32)
        requires
            old(self).inv(),
        ensures
            final(self).inv(),
        default_ensures
            vector == u32::MAX,
            &*final(self) == &*old(self),
    {
        0xFFFF_FFFF
    }

    /// IPL poll-point marker. The 68000/68010 sample their IPL pins at ONE
    /// microcode-determined point per instruction, and the take-interrupt
    /// decision at the next instruction boundary consumes that sample. A
    /// timing-accurate host latches the IPL level at the start of every bus
    /// access and, by default, lets the instruction's LAST access provide
    /// the boundary sample. For instructions whose poll point is NOT the
    /// last access (e.g. read-modify-write instructions poll during the
    /// final prefetch that precedes the writeback), the core calls this
    /// right after the polling access: the host must keep that access's
    /// sample and ignore later accesses until the boundary decision
    /// consumes it. Functional-only buses can ignore it.
    fn ipl_hold_sample(&mut self)
        requires
            old(self).inv(),
        ensures
            final(self).inv(),
        default_ensures
            &*final(self) == &*old(self),
    {
    }

    /// Release an `ipl_hold_sample` poll-point hold before the instruction
    /// boundary consumes it. Called on exception dispatch: the vector jump's
    /// handler-entry prefetch is a fresh poll point on real silicon, so a
    /// hold placed earlier in the faulted instruction must not survive into
    /// the handler.
    fn ipl_release_sample(&mut self)
        requires
            old(self).inv(),
        ensures
            final(self).inv(),
        default_ensures
            &*final(self) == &*old(self),
    {
    }

    /// Notify attached devices that the CPU asserted the external RESET line.
    fn reset_devices(&mut self)
        requires
            old(self).inv(),
        ensures
            final(self).inv(),
        default_ensures
            &*final(self) == &*old(self),
    {
    }

    /// Expose a direct window into contiguous, side-effect-free guest RAM.
    ///
    /// A window shows what reads of its addresses give, and what is written
    /// through it is what such reads give afterwards. Bus reads in the window
    /// leave what it shows alone, and bus writes in it change just the bytes
    /// that they cover. The default returns `None` (no fast path).
    fn fast_mem(&mut self) -> (window: Option<FastMem<'_>>)
        requires
            old(self).inv(),
        ensures
            window is None ==> final(self).inv(),
            window matches Some(w) ==> {
                &&& w.len <= w.ptr@.len()
                &&& reads_window(
                    Self::read_byte,
                    Self::read_word,
                    Self::read_long,
                    &*old(self),
                    w.base,
                    w.len,
                    w.ptr@,
                )
                &&& final(w.ptr)@.len() == w.ptr@.len() ==> final(self).inv() && reads_window(
                    Self::read_byte,
                    Self::read_word,
                    Self::read_long,
                    &*final(self),
                    w.base,
                    w.len,
                    final(w.ptr)@,
                )
                &&& forall|b: &mut Self, a: u32, v: u8| #[trigger]
                    call_ensures(Self::read_byte, (b, a), v) && w.covers(a, 1) ==> {
                        &&& &*b == &*old(self) ==> reads_window(
                            Self::read_byte,
                            Self::read_word,
                            Self::read_long,
                            &*final(b),
                            w.base,
                            w.len,
                            w.ptr@,
                        )
                        &&& &*b == &*final(self) && final(w.ptr)@.len() == w.ptr@.len() ==> reads_window(
                            Self::read_byte,
                            Self::read_word,
                            Self::read_long,
                            &*final(b),
                            w.base,
                            w.len,
                            final(w.ptr)@,
                        )
                    }
                &&& forall|b: &mut Self, a: u32, v: u16| #[trigger]
                    call_ensures(Self::read_word, (b, a), v) && w.covers(a, 2) ==> {
                        &&& &*b == &*old(self) ==> reads_window(
                            Self::read_byte,
                            Self::read_word,
                            Self::read_long,
                            &*final(b),
                            w.base,
                            w.len,
                            w.ptr@,
                        )
                        &&& &*b == &*final(self) && final(w.ptr)@.len() == w.ptr@.len() ==> reads_window(
                            Self::read_byte,
                            Self::read_word,
                            Self::read_long,
                            &*final(b),
                            w.base,
                            w.len,
                            final(w.ptr)@,
                        )
                    }
                &&& forall|b: &mut Self, a: u32, v: u32| #[trigger]
                    call_ensures(Self::read_long, (b, a), v) && w.covers(a, 4) ==> {
                        &&& &*b == &*old(self) ==> reads_window(
                            Self::read_byte,
                            Self::read_word,
                            Self::read_long,
                            &*final(b),
                            w.base,
                            w.len,
                            w.ptr@,
                        )
                        &&& &*b == &*final(self) && final(w.ptr)@.len() == w.ptr@.len() ==> reads_window(
                            Self::read_byte,
                            Self::read_word,
                            Self::read_long,
                            &*final(b),
                            w.base,
                            w.len,
                            final(w.ptr)@,
                        )
                    }
                &&& forall|b: &mut Self, a: u32, v: u8| #[trigger]
                    call_ensures(Self::write_byte, (b, a, v), ()) && w.covers(a, 1) ==> {
                        &&& &*b == &*old(self) ==> reads_window(
                            Self::read_byte,
                            Self::read_word,
                            Self::read_long,
                            &*final(b),
                            w.base,
                            w.len,
                            w.patched(w.ptr@, a, seq![v]),
                        )
                        &&& &*b == &*final(self) && final(w.ptr)@.len() == w.ptr@.len() ==> reads_window(
                            Self::read_byte,
                            Self::read_word,
                            Self::read_long,
                            &*final(b),
                            w.base,
                            w.len,
                            w.patched(final(w.ptr)@, a, seq![v]),
                        )
                    }
                &&& forall|b: &mut Self, a: u32, v: u16| #[trigger]
                    call_ensures(Self::write_word, (b, a, v), ()) && w.covers(a, 2) ==> {
                        &&& &*b == &*old(self) ==> reads_window(
                            Self::read_byte,
                            Self::read_word,
                            Self::read_long,
                            &*final(b),
                            w.base,
                            w.len,
                            w.patched(w.ptr@, a, linear_memory::be_word(v)),
                        )
                        &&& &*b == &*final(self) && final(w.ptr)@.len() == w.ptr@.len() ==> reads_window(
                            Self::read_byte,
                            Self::read_word,
                            Self::read_long,
                            &*final(b),
                            w.base,
                            w.len,
                            w.patched(final(w.ptr)@, a, linear_memory::be_word(v)),
                        )
                    }
                &&& forall|b: &mut Self, a: u32, v: u32| #[trigger]
                    call_ensures(Self::write_long, (b, a, v), ()) && w.covers(a, 4) ==> {
                        &&& &*b == &*old(self) ==> reads_window(
                            Self::read_byte,
                            Self::read_word,
                            Self::read_long,
                            &*final(b),
                            w.base,
                            w.len,
                            w.patched(w.ptr@, a, linear_memory::be_long(v)),
                        )
                        &&& &*b == &*final(self) && final(w.ptr)@.len() == w.ptr@.len() ==> reads_window(
                            Self::read_byte,
                            Self::read_word,
                            Self::read_long,
                            &*final(b),
                            w.base,
                            w.len,
                            w.patched(final(w.ptr)@, a, linear_memory::be_long(v)),
                        )
                    }
            },
        default_ensures
            window is None,
            &*final(self) == &*old(self),
    {
        None
    }
}

/// Optional companion trait for buses that version instruction-visible memory.
///
/// This is intentionally separate from `AddressBus`, so that buses that need
/// only [`AddressBus`] carry nothing of it. Embedders can use it to coordinate
/// external code caches.
pub trait InstructionCacheBus: AddressBus {
    /// Stable version for instruction memory at `address`, when known.
    ///
    /// Returning `Some(version)` tells an instruction cache that fetches from
    /// this address may be reused until the version changes. Returning `None`
    /// is conservative.
    fn instruction_cache_version(&mut self, address: u32) -> (version: Option<u64>)
        requires
            old(self).inv(),
        ensures
            final(self).inv(),
        default_ensures
            version is None,
            &*final(self) == &*old(self),
    {
        None
    }

    /// Notify the bus that bytes in a code-visible range were written by the CPU.
    ///
    /// Buses that implement `instruction_cache_version` should update the relevant version here.
    fn invalidate_instruction_cache(&mut self, address: u32, len: u32)
        requires
            old(self).inv(),
        ensures
            final(self).inv(),
        default_ensures
            &*final(self) == &*old(self),
    {
    }
}

} // verus!
