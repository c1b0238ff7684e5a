//! A bus over one flat block of RAM.

use vstd::prelude::*;

use crate::bits;
use crate::memory;
use crate::memory::{AddressBus, FastMem, InstructionCacheBus};

verus! {

/// The cell of a `len`-byte buffer that backs the guest byte `offset` past
/// `address`. The address wraps at 32 bits, then within the buffer.
pub open spec fn cell(len: nat, address: u32, offset: int) -> int {
    (memory::bus_offset(address, offset) as int) % (len as int)
}

/// The `count` bytes found at `address` and onwards.
pub open spec fn bytes_at(memory: Seq<u8>, address: u32, count: nat) -> Seq<u8> {
    Seq::new(count, |i: int| memory[cell(memory.len(), address, i)])
}

/// `memory` after the bytes of `data` were stored one after the other at
/// `address` and onwards.
pub open spec fn store_bytes(memory: Seq<u8>, address: u32, data: Seq<u8>) -> Seq<u8>
    decreases data.len(),
{
    if data.len() == 0 {
        memory
    } else {
        store_bytes(memory, address, data.drop_last()).update(
            cell(memory.len(), address, data.len() - 1),
            data.last(),
        )
    }
}

/// The value of a big-endian byte string.
pub open spec fn be_value(bytes: Seq<u8>) -> nat
    decreases bytes.len(),
{
    if bytes.len() == 0 {
        0
    } else {
        be_value(bytes.drop_last()) * 256 + bytes.last() as nat
    }
}

/// The two bytes of a word, most significant first.
pub open spec fn be_word(value: u16) -> Seq<u8> {
    seq![(value / 256) as u8, (value % 256) as u8]
}

/// The low three bytes of a longword, most significant first.
pub open spec fn be_three(value: u32) -> Seq<u8> {
    seq![((value / 0x1_0000) % 256) as u8, ((value / 256) % 256) as u8, (value % 256) as u8]
}

/// The four bytes of a longword, most significant first.
pub open spec fn be_long(value: u32) -> Seq<u8> {
    seq![
        (value / 0x100_0000) as u8,
        ((value / 0x1_0000) % 256) as u8,
        ((value / 256) % 256) as u8,
        (value % 256) as u8,
    ]
}

/// The instruction-memory version that follows `version`. Zero is skipped.
pub open spec fn next_version(version: u64) -> u64 {
    if version == u64::MAX {
        1
    } else {
        (version + 1) as u64
    }
}

/// Fast linear-memory bus for RAM-backed emulators and WebAssembly builds.
///
/// This keeps all normal memory accesses inside Rust/wasm linear memory instead of crossing into a
/// host callback for each byte/word/long. Addresses wrap within the backing buffer, with a fast mask
/// path for power-of-two sizes.
///
/// Its view is the content of the backing buffer.
#[derive(Debug)]
pub struct LinearMemoryBus {
    memory: Vec<u8>,
    wrap_mask: usize,
    power_of_two_len: bool,
    instruction_version: u64,
}

impl View for LinearMemoryBus {
    type V = Seq<u8>;

    closed spec fn view(&self) -> Seq<u8> {
        self.memory@
    }
}

impl Clone for LinearMemoryBus {
    fn clone(&self) -> (copy: Self)
        ensures
            copy@ == self@,
            copy.version() == self.version(),
            copy.wf() == self.wf(),
    {
        let memory: Vec<u8> = self.memory.clone();
        assert(memory@ =~= self.memory@);
        Self {
            memory,
            wrap_mask: self.wrap_mask,
            power_of_two_len: self.power_of_two_len,
            instruction_version: self.instruction_version,
        }
    }
}

impl LinearMemoryBus {
    /// The buffer is not empty, the wrapping parameters belong to its length,
    /// and the version is not zero.
    pub closed spec fn wf(&self) -> bool {
        &&& self.memory@.len() > 0
        &&& self.wrap_mask == self.memory@.len() - 1
        &&& self.power_of_two_len == vstd::arithmetic::power2::is_pow2(self.memory@.len() as int)
        &&& self.instruction_version != 0
    }

    /// The current version of instruction-visible memory.
    pub closed spec fn version(&self) -> u64 {
        self.instruction_version
    }

    /// A well-formed bus holds at least one byte, as many as a `usize` counts,
    /// and has a version that is not zero.
    pub proof fn lemma_wf(&self)
        requires
            self.wf(),
        ensures
            0 < self@.len() <= usize::MAX,
            self.version() != 0,
    {
        assert(self.memory.len() == self.memory@.len());
    }

    /// Create a zero-filled bus with `size` bytes.
    pub fn new(size: usize) -> (bus: Self)
        requires
            size > 0,
        ensures
            bus.wf(),
            bus@ == Seq::new(size as nat, |i: int| 0u8),
            bus.version() == 1,
    {
        let memory: Vec<u8> = vec![0u8; size];
        assert(memory@ =~= Seq::new(size as nat, |i: int| 0u8));
        Self::from_vec(memory)
    }

    /// Create a bus using an existing memory buffer, which may not be empty.
    pub fn from_vec(memory: Vec<u8>) -> (bus: Self)
        requires
            memory@.len() > 0,
        ensures
            bus.wf(),
            bus@ == memory@,
            bus.version() == 1,
    {
        let power_of_two_len: bool = bits::is_power_of_two(memory.len());
        let wrap_mask: usize = memory.len().saturating_sub(1);
        Self { memory, wrap_mask, power_of_two_len, instruction_version: 1 }
    }

    /// Create a bus using an existing memory buffer, or `None` if the buffer is
    /// empty.
    pub fn try_from_vec(memory: Vec<u8>) -> (bus: Option<Self>)
        ensures
            bus is None == (memory@.len() == 0),
            bus matches Some(b) ==> b.wf() && b@ == memory@ && b.version() == 1,
    {
        if memory.is_empty() {
            None
        } else {
            Some(Self::from_vec(memory))
        }
    }

    /// Return the number of bytes in the backing buffer.
    pub fn len(&self) -> (len: usize)
        ensures
            len == self@.len(),
    {
        self.memory.len()
    }

    /// Return whether the backing buffer is empty.
    ///
    /// A constructed `LinearMemoryBus` is never empty because
    /// [`LinearMemoryBus::from_vec`] requires a buffer that is not, and
    /// [`LinearMemoryBus::try_from_vec`] makes no bus of an empty one.
    pub fn is_empty(&self) -> (empty: bool)
        ensures
            empty == (self@.len() == 0),
            self.wf() ==> !empty,
    {
        self.memory.is_empty()
    }

    /// Borrow the complete backing buffer.
    pub fn as_slice(&self) -> (slice: &[u8])
        ensures
            slice@ == self@,
    {
        self.memory.as_slice()
    }

    /// Mutably borrow the complete backing buffer.
    ///
    /// Taking a mutable slice advances the instruction-memory version
    /// conservatively because the caller may change executable bytes. A slice
    /// cannot change its length, so the bus stays well-formed.
    pub fn as_mut_slice(&mut self) -> (slice: &mut [u8])
        requires
            old(self).wf(),
        ensures
            slice@ == old(self)@,
            final(self)@ == final(slice)@,
            final(self).version() == next_version(old(self).version()),
            final(slice)@.len() == slice@.len() ==> final(self).wf(),
    {
        self.bump_instruction_version();
        self.memory.as_mut_slice()
    }

    /// Copy bytes into memory at `address`, wrapping at the end of the backing buffer.
    pub fn load(&mut self, address: u32, data: &[u8])
        requires
            old(self).wf(),
        ensures
            final(self).wf(),
            final(self)@ == store_bytes(old(self)@, address, data@),
            final(self).version() == next_version(old(self).version()),
    {
        let mut offset: usize = 0;
        assert(data@.take(0).len() == 0);
        while offset < data.len()
            invariant
                offset <= data@.len(),
                self.wf(),
                self@.len() == old(self)@.len(),
                self.version() == old(self).version(),
                self@ == store_bytes(old(self)@, address, data@.take(offset as int)),
            decreases data@.len() - offset,
        {
            let step: u32 = #[verifier::truncate] (offset as u32);
            proof {
                lemma_truncated_offset(address, offset);
                assert(data@.take(offset + 1).drop_last() =~= data@.take(offset as int));
            }
            let idx: usize = self.index(address.wrapping_add(step));
            self.write_index(idx, data[offset]);
            offset += 1;
        }
        assert(data@.take(offset as int) =~= data@);
        self.bump_instruction_version();
    }

    /// Write one big-endian word, wrapping within the backing buffer.
    pub fn write_word_at(&mut self, address: u32, value: u16)
        requires
            old(self).wf(),
        ensures
            final(self).wf(),
            final(self)@ == store_bytes(old(self)@, address, be_word(value)),
            final(self).version() == next_version(old(self).version()),
    {
        self.write_word(address, value);
    }

    /// Write one big-endian longword, wrapping within the backing buffer.
    pub fn write_long_at(&mut self, address: u32, value: u32)
        requires
            old(self).wf(),
        ensures
            final(self).wf(),
            final(self)@ == store_bytes(old(self)@, address, be_long(value)),
            final(self).version() == next_version(old(self).version()),
    {
        self.write_long(address, value);
    }

    /// The cell that backs guest address `address`: the remainder of the
    /// address by the length, whichever way it is computed.
    pub fn index(&self, address: u32) -> (index: usize)
        requires
            self.wf(),
        ensures
            index == address as int % self@.len() as int,
            index == cell(self@.len(), address, 0),
            index < self@.len(),
    {
        if self.power_of_two_len {
            proof {
                bits::lemma_mask_is_remainder(address as usize, self.memory.len());
            }
            (address as usize) & self.wrap_mask
        } else {
            (address as usize) % self.memory.len()
        }
    }

    /// The byte in cell `index`.
    fn read_index(&self, index: usize) -> (value: u8)
        requires
            index < self@.len(),
        ensures
            value == self@[index as int],
    {
        self.memory[index]
    }

    /// Replaces the byte in cell `index`.
    fn write_index(&mut self, index: usize, value: u8)
        requires
            old(self).wf(),
            index < old(self)@.len(),
        ensures
            final(self).wf(),
            final(self)@ == old(self)@.update(index as int, value),
            final(self).version() == old(self).version(),
    {
        self.memory[index] = value;
    }

    /// Moves on to the next instruction-memory version: one more, and one in
    /// place of zero where that overflows.
    pub fn bump_instruction_version(&mut self)
        requires
            old(self).wf(),
        ensures
            final(self).wf(),
            final(self)@ == old(self)@,
            final(self).version() == next_version(old(self).version()),
            old(self).version() < u64::MAX ==> final(self).version() == old(self).version() + 1,
            old(self).version() == u64::MAX ==> final(self).version() == 1,
    {
        self.instruction_version = self.instruction_version.wrapping_add(1);
        if self.instruction_version == 0 {
            self.instruction_version = 1;
        }
    }
}

impl AddressBus for LinearMemoryBus {
    open spec fn inv(&self) -> bool {
        self.wf()
    }

    fn read_byte(&mut self, address: u32) -> (value: u8)
        ensures
            *final(self) == *old(self),
            value == old(self)@[cell(old(self)@.len(), address, 0)],
    {
        let idx: usize = self.index(address);
        self.read_index(idx)
    }

    fn read_word(&mut self, address: u32) -> (value: u16)
        ensures
            *final(self) == *old(self),
            value == be_value(bytes_at(old(self)@, address, 2)),
    {
        let b0: u8 = self.read_index(self.index(address));
        let b1: u8 = self.read_index(self.index(address.wrapping_add(1)));
        proof {
            lemma_be_value(bytes_at(self@, address, 2));
            lemma_be_join_word(b0 as u16, b1 as u16);
        }
        ((b0 as u16) << 8) | b1 as u16
    }

    fn read_long(&mut self, address: u32) -> (value: u32)
        ensures
            *final(self) == *old(self),
            value == be_value(bytes_at(old(self)@, address, 4)),
    {
        let b0: u8 = self.read_index(self.index(address));
        let b1: u8 = self.read_index(self.index(address.wrapping_add(1)));
        let b2: u8 = self.read_index(self.index(address.wrapping_add(2)));
        let b3: u8 = self.read_index(self.index(address.wrapping_add(3)));
        proof {
            lemma_be_value(bytes_at(self@, address, 4));
            lemma_be_join_long(b0 as u32, b1 as u32, b2 as u32, b3 as u32);
        }
        ((b0 as u32) << 24) | ((b1 as u32) << 16) | ((b2 as u32) << 8) | b3 as u32
    }

    fn write_byte(&mut self, address: u32, value: u8)
        ensures
            final(self)@ == store_bytes(old(self)@, address, seq![value]),
            final(self).version() == next_version(old(self).version()),
    {
        proof {
            lemma_store_steps(self@, address, seq![value]);
        }
        let idx: usize = self.index(address);
        self.write_index(idx, value);
        self.bump_instruction_version();
    }

    fn write_word(&mut self, address: u32, value: u16)
        ensures
            final(self)@ == store_bytes(old(self)@, address, be_word(value)),
            final(self).version() == next_version(old(self).version()),
    {
        proof {
            lemma_store_steps(self@, address, be_word(value));
            lemma_be_split_word(value);
        }
        let idx0: usize = self.index(address);
        let idx1: usize = self.index(address.wrapping_add(1));
        self.write_index(idx0, #[verifier::truncate] ((value >> 8) as u8));
        self.write_index(idx1, #[verifier::truncate] (value as u8));
        self.bump_instruction_version();
    }

    fn write_long(&mut self, address: u32, value: u32)
        ensures
            final(self)@ == store_bytes(old(self)@, address, be_long(value)),
            final(self).version() == next_version(old(self).version()),
    {
        proof {
            lemma_store_steps(self@, address, be_long(value));
            lemma_be_split_long(value);
        }
        let idx0: usize = self.index(address);
        let idx1: usize = self.index(address.wrapping_add(1));
        let idx2: usize = self.index(address.wrapping_add(2));
        let idx3: usize = self.index(address.wrapping_add(3));
        self.write_index(idx0, #[verifier::truncate] ((value >> 24) as u8));
        self.write_index(idx1, #[verifier::truncate] ((value >> 16) as u8));
        self.write_index(idx2, #[verifier::truncate] ((value >> 8) as u8));
        self.write_index(idx3, #[verifier::truncate] (value as u8));
        self.bump_instruction_version();
    }

    /// The whole backing buffer is side-effect-free RAM, so expose it as a
    /// fastmem window starting at guest address 0. Accesses beyond `len`
    /// (which the bus methods wrap) simply fall back to the bus.
    // It stands behind the six accesses that its contract speaks of: Verus
    // does not know their contracts before.
    fn fast_mem(&mut self) -> (window: Option<FastMem<'_>>)
        ensures
            window matches Some(w) && {
                &&& w.ptr@ == old(self)@
                &&& w.base == 0
                &&& w.len == if old(self)@.len() <= u32::MAX {
                    old(self)@.len() as int
                } else {
                    u32::MAX as int
                }
                &&& final(self)@ == final(w.ptr)@
            },
            final(self).version() == old(self).version(),
    {
        let len: u32 = if self.memory.len() <= u32::MAX as usize {
            self.memory.len() as u32
        } else {
            u32::MAX
        };
        proof {
            lemma_window_reads(len);
            lemma_window_writes(len);
        }
        Some(FastMem { ptr: self.memory.as_mut_slice(), base: 0, len })
    }

    fn read_immediate_word(&mut self, address: u32) -> (value: u16)
        ensures
            *final(self) == *old(self),
            value == be_value(bytes_at(old(self)@, address, 2)),
    {
        self.read_word(address)
    }

    fn read_immediate_long(&mut self, address: u32) -> (value: u32)
        ensures
            *final(self) == *old(self),
            value == be_value(bytes_at(old(self)@, address, 4)),
    {
        self.read_long(address)
    }
}

impl InstructionCacheBus for LinearMemoryBus {
    fn instruction_cache_version(&mut self, address: u32) -> (version: Option<u64>)
        ensures
            version == Some(old(self).version()),
            *final(self) == *old(self),
    {
        Some(self.instruction_version)
    }

    fn invalidate_instruction_cache(&mut self, address: u32, len: u32)
        ensures
            final(self)@ == old(self)@,
            final(self).version() == next_version(old(self).version()),
    {
        self.bump_instruction_version();
    }
}

/// Bytes inside the buffer are found at their own address.
proof fn lemma_low_cell(len: nat, address: u32, offset: int)
    requires
        0 <= offset,
        address + offset < len,
        address + offset <= u32::MAX,
    ensures
        cell(len, address, offset) == address + offset,
{
    vstd::arithmetic::div_mod::lemma_small_mod((address + offset) as nat, 0x1_0000_0000);
    vstd::arithmetic::div_mod::lemma_small_mod((address + offset) as nat, len);
}

/// What stands in a buffer at addresses below `len`, as bytes, words and
/// longwords.
proof fn lemma_window_reads(len: u32)
    ensures
        forall|n: nat, a: u32| a < len && len <= n ==> #[trigger] cell(n, a, 0) == a,
        forall|bytes: Seq<u8>, a: u32|
            a + 2 <= len && len <= bytes.len() ==> be_value(#[trigger] bytes_at(bytes, a, 2))
                == bytes[a as int] * 256 + bytes[a + 1],
        forall|bytes: Seq<u8>, a: u32|
            a + 4 <= len && len <= bytes.len() ==> be_value(#[trigger] bytes_at(bytes, a, 4))
                == bytes[a as int] * 0x100_0000 + bytes[a + 1] * 0x1_0000 + bytes[a + 2] * 256
                + bytes[a + 3],
{
    assert forall|n: nat, a: u32, i: int|
        0 <= i && a + i < len && len <= n implies #[trigger] cell(n, a, i) == a + i by {
        lemma_low_cell(n, a, i);
    }
    assert forall|bytes: Seq<u8>, a: u32| a + 2 <= len && len <= bytes.len() implies be_value(
        #[trigger] bytes_at(bytes, a, 2),
    ) == bytes[a as int] * 256 + bytes[a + 1] by {
        lemma_be_value(bytes_at(bytes, a, 2));
    }
    assert forall|bytes: Seq<u8>, a: u32| a + 4 <= len && len <= bytes.len() implies be_value(
        #[trigger] bytes_at(bytes, a, 4),
    ) == bytes[a as int] * 0x100_0000 + bytes[a + 1] * 0x1_0000 + bytes[a + 2] * 256 + bytes[a
        + 3] by {
        lemma_be_value(bytes_at(bytes, a, 4));
    }
}

/// Storing below `len` replaces the bytes at their address.
proof fn lemma_window_writes(len: u32)
    ensures
        forall|memory: Seq<u8>, a: u32, data: Seq<u8>|
            len <= memory.len() && a + data.len() <= len ==> #[trigger] store_bytes(memory, a, data)
                == memory::patched_at(memory, a as int, data),
{
    assert forall|memory: Seq<u8>, a: u32, data: Seq<u8>|
        len <= memory.len() && a + data.len() <= len implies #[trigger] store_bytes(memory, a, data)
        == memory::patched_at(memory, a as int, data) by {
        lemma_low_store(memory, a, data);
    }
}

/// Storing inside the buffer replaces the bytes at their address.
proof fn lemma_low_store(memory: Seq<u8>, address: u32, data: Seq<u8>)
    requires
        address + data.len() <= memory.len(),
        address + data.len() <= u32::MAX,
    ensures
        store_bytes(memory, address, data) == memory::patched_at(memory, address as int, data),
    decreases data.len(),
{
    if data.len() > 0 {
        lemma_low_store(memory, address, data.drop_last());
        lemma_low_cell(memory.len(), address, data.len() - 1);
    }
    assert(store_bytes(memory, address, data) =~= memory::patched_at(memory, address as int, data));
}

/// The value of a short big-endian byte string, written out.
proof fn lemma_be_value(bytes: Seq<u8>)
    ensures
        bytes.len() == 2 ==> be_value(bytes) == bytes[0] * 256 + bytes[1],
        bytes.len() == 3 ==> be_value(bytes) == bytes[0] * 0x1_0000 + bytes[1] * 256 + bytes[2],
        bytes.len() == 4 ==> be_value(bytes) == bytes[0] * 0x100_0000 + bytes[1] * 0x1_0000
            + bytes[2] * 256 + bytes[3],
{
    reveal_with_fuel(be_value, 5);
}

/// Shifting two bytes into place and joining them adds up their weights.
proof fn lemma_be_join_word(b0: u16, b1: u16)
    by (bit_vector)
    requires
        b0 < 256,
        b1 < 256,
    ensures
        (b0 << 8) | b1 == b0 * 256 + b1,
{
}

/// Shifting four bytes into place and joining them adds up their weights.
proof fn lemma_be_join_long(b0: u32, b1: u32, b2: u32, b3: u32)
    by (bit_vector)
    requires
        b0 < 256,
        b1 < 256,
        b2 < 256,
        b3 < 256,
    ensures
        (b0 << 24) | (b1 << 16) | (b2 << 8) | b3 == b0 * 0x100_0000 + b1 * 0x1_0000 + b2 * 256 + b3,
{
}

/// Shifting a word down and cutting it gives its bytes.
proof fn lemma_be_split_word(value: u16)
    by (bit_vector)
    ensures
        (value >> 8) as u8 == value / 256,
        value as u8 == value % 256,
{
}

/// Shifting a longword down and cutting it gives its bytes.
proof fn lemma_be_split_long(value: u32)
    by (bit_vector)
    ensures
        (value >> 24) as u8 == value / 0x100_0000,
        (value >> 16) as u8 == (value / 0x1_0000) % 256,
        (value >> 8) as u8 == (value / 256) % 256,
        value as u8 == value % 256,
{
}

/// Storing a short byte string, step by step.
pub proof fn lemma_store_steps(memory: Seq<u8>, address: u32, data: Seq<u8>)
    ensures
        data.len() == 1 ==> store_bytes(memory, address, data) == memory.update(
            cell(memory.len(), address, 0),
            data[0],
        ),
        data.len() == 2 ==> store_bytes(memory, address, data) == memory.update(
            cell(memory.len(), address, 0),
            data[0],
        ).update(cell(memory.len(), address, 1), data[1]),
        data.len() == 3 ==> store_bytes(memory, address, data) == memory.update(
            cell(memory.len(), address, 0),
            data[0],
        ).update(cell(memory.len(), address, 1), data[1]).update(
            cell(memory.len(), address, 2),
            data[2],
        ),
        data.len() == 4 ==> store_bytes(memory, address, data) == memory.update(
            cell(memory.len(), address, 0),
            data[0],
        ).update(cell(memory.len(), address, 1), data[1]).update(
            cell(memory.len(), address, 2),
            data[2],
        ).update(cell(memory.len(), address, 3), data[3]),
{
    reveal_with_fuel(store_bytes, 5);
}

/// Adding an offset that was cut to 32 bits reaches the same address.
proof fn lemma_truncated_offset(address: u32, offset: usize)
    ensures
        address.wrapping_add(offset as u32) == memory::bus_offset(address, offset as int),
        forall|len: nat|
            len > 0 ==> cell(len, address.wrapping_add(offset as u32), 0) == #[trigger] cell(
                len,
                address,
                offset as int,
            ),
{
    let wide = offset as u64;
    assert(wide as u32 == wide % 0x1_0000_0000) by (bit_vector);
    vstd::arithmetic::div_mod::lemma_add_mod_noop_right(
        address as int,
        offset as int,
        0x1_0000_0000,
    );
}

} // verus!
