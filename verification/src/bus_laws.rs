//! What the operations of a linear-memory bus do, call by call.
//!
//! The laws speak of calls and of the bytes of the backing buffer: the guest
//! byte at `a` stands at index `a % n` of a buffer of `n` bytes, and operands
//! of several bytes go on at the next address, which wraps at 32 bits.

use vstd::prelude::*;

use crate::linear_memory;
use crate::linear_memory::LinearMemoryBus;
use crate::memory;
use crate::memory::{join_three_bytes, split_three_bytes};
use crate::memory::{AddressBus, BusFault, FastMem, InstructionCacheBus};
use crate::memory_laws;

verus! {

/// The index of guest byte `i` past `a` in a buffer of `n` bytes.
pub open spec fn at(n: nat, a: u32, i: int) -> int {
    if a + i < 0x1_0000_0000 {
        (a + i) % n as int
    } else {
        (a + i - 0x1_0000_0000) % n as int
    }
}

/// The version that follows `version` on a bus.
pub open spec fn stepped(version: u64) -> int {
    if version == 0xFFFF_FFFF_FFFF_FFFF {
        1
    } else {
        version + 1
    }
}

/// Reads give the bytes at the address and onwards, most significant first, and
/// change nothing.
pub proof fn reads_are_big_endian()
    ensures
        forall|bus: &mut LinearMemoryBus, a: u32, v: u8| #[trigger]
            call_ensures(LinearMemoryBus::read_byte, (bus, a), v) && (&*bus)@.len() > 0 ==> {
                let m = (&*bus)@;
                v == m[at(m.len(), a, 0)] && &*final(bus) == &*bus
            },
        forall|bus: &mut LinearMemoryBus, a: u32, v: u16| #[trigger]
            call_ensures(LinearMemoryBus::read_word, (bus, a), v) && (&*bus)@.len() > 0 ==> {
                let m = (&*bus)@;
                v == m[at(m.len(), a, 0)] * 256 + m[at(m.len(), a, 1)] && &*final(bus) == &*bus
            },
        forall|bus: &mut LinearMemoryBus, a: u32, v: u32| #[trigger]
            call_ensures(LinearMemoryBus::read_long, (bus, a), v) && (&*bus)@.len() > 0 ==> {
                let m = (&*bus)@;
                v == m[at(m.len(), a, 0)] * 0x100_0000 + m[at(m.len(), a, 1)] * 0x1_0000 + m[at(m.len(), a, 2)] * 256 + m[at(m.len(), a, 3)] && &*final(bus) == &*bus
            },
        forall|bus: &mut LinearMemoryBus, a: u32, v: u16| #[trigger]
            call_ensures(LinearMemoryBus::read_immediate_word, (bus, a), v) && (&*bus)@.len() > 0 ==> {
                let m = (&*bus)@;
                v == m[at(m.len(), a, 0)] * 256 + m[at(m.len(), a, 1)] && &*final(bus) == &*bus
            },
        forall|bus: &mut LinearMemoryBus, a: u32, v: u32| #[trigger]
            call_ensures(LinearMemoryBus::read_immediate_long, (bus, a), v) && (&*bus)@.len() > 0 ==> {
                let m = (&*bus)@;
                v == m[at(m.len(), a, 0)] * 0x100_0000 + m[at(m.len(), a, 1)] * 0x1_0000 + m[at(m.len(), a, 2)] * 256 + m[at(m.len(), a, 3)] && &*final(bus) == &*bus
            },
{
    lemma_cells();
    lemma_values();
}

/// A read of three bytes gives them in the low 24 bits, and changes nothing.
pub proof fn three_bytes_read_big_endian()
    ensures
        forall|bus: &mut LinearMemoryBus, a: u32, v: u32| #[trigger]
            call_ensures(LinearMemoryBus::read_three_bytes, (bus, a), v) && (&*bus)@.len() > 0 ==> {
                let m = (&*bus)@;
                v == m[at(m.len(), a, 0)] * 0x1_0000 + m[at(m.len(), a, 1)] * 256 + m[at(m.len(), a, 2)] && &*final(bus) == &*bus
            },
{
    lemma_cells();
    lemma_values();
}

/// Fallible reads never fault here and give what the plain reads give.
pub proof fn fallible_reads_succeed()
    ensures
        forall|bus: &mut LinearMemoryBus, a: u32, r: Result<u8, BusFault>| #[trigger]
            call_ensures(LinearMemoryBus::try_read_byte, (bus, a), r) && (&*bus)@.len() > 0 ==> {
                let m = (&*bus)@;
                r matches Ok(v) && v == m[at(m.len(), a, 0)] && &*final(bus) == &*bus
            },
        forall|bus: &mut LinearMemoryBus, a: u32, r: Result<u16, BusFault>| #[trigger]
            call_ensures(LinearMemoryBus::try_read_word, (bus, a), r) && (&*bus)@.len() > 0 ==> {
                let m = (&*bus)@;
                r matches Ok(v) && v == m[at(m.len(), a, 0)] * 256 + m[at(m.len(), a, 1)] && &*final(bus) == &*bus
            },
        forall|bus: &mut LinearMemoryBus, a: u32, r: Result<u32, BusFault>| #[trigger]
            call_ensures(LinearMemoryBus::try_read_long, (bus, a), r) && (&*bus)@.len() > 0 ==> {
                let m = (&*bus)@;
                r matches Ok(v) && v == m[at(m.len(), a, 0)] * 0x100_0000 + m[at(m.len(), a, 1)] * 0x1_0000 + m[at(m.len(), a, 2)] * 256 + m[at(m.len(), a, 3)] && &*final(bus) == &*bus
            },
        forall|bus: &mut LinearMemoryBus, a: u32, r: Result<u16, BusFault>| #[trigger]
            call_ensures(LinearMemoryBus::try_read_immediate_word, (bus, a), r) && (&*bus)@.len() > 0 ==> {
                let m = (&*bus)@;
                r matches Ok(v) && v == m[at(m.len(), a, 0)] * 256 + m[at(m.len(), a, 1)] && &*final(bus) == &*bus
            },
        forall|bus: &mut LinearMemoryBus, a: u32, r: Result<u32, BusFault>| #[trigger]
            call_ensures(LinearMemoryBus::try_read_immediate_long, (bus, a), r) && (&*bus)@.len() > 0 ==> {
                let m = (&*bus)@;
                r matches Ok(v) && v == m[at(m.len(), a, 0)] * 0x100_0000 + m[at(m.len(), a, 1)] * 0x1_0000 + m[at(m.len(), a, 2)] * 256 + m[at(m.len(), a, 3)] && &*final(bus) == &*bus
            },
{
    lemma_cells();
    lemma_values();
}

/// A fallible read of three bytes never faults here and gives what the plain one
/// gives.
pub proof fn fallible_three_byte_read_succeeds()
    ensures
        forall|bus: &mut LinearMemoryBus, a: u32, r: Result<u32, BusFault>| #[trigger]
            call_ensures(LinearMemoryBus::try_read_three_bytes, (bus, a), r) && (&*bus)@.len() > 0 ==> {
                let m = (&*bus)@;
                r matches Ok(v) && v == m[at(m.len(), a, 0)] * 0x1_0000 + m[at(m.len(), a, 1)] * 256 + m[at(m.len(), a, 2)] && &*final(bus) == &*bus
            },
{
    lemma_cells();
    lemma_values();
}

/// Writes store their bytes at the address and onwards, most significant first,
/// and nothing else. Where bytes share a cell, the later one stays. Each write
/// steps the version once.
pub proof fn writes_store_big_endian()
    ensures
        forall|bus: &mut LinearMemoryBus, a: u32, v: u8| #[trigger]
            call_ensures(LinearMemoryBus::write_byte, (bus, a, v), ()) && (&*bus)@.len() > 0 ==> {
                let m = (&*bus)@;
                &&& (&*final(bus))@ == m.update(at(m.len(), a, 0), (v) as u8)
                &&& (&*final(bus)).version() == stepped((&*bus).version())
            },
        forall|bus: &mut LinearMemoryBus, a: u32, v: u16| #[trigger]
            call_ensures(LinearMemoryBus::write_word, (bus, a, v), ()) && (&*bus)@.len() > 0 ==> {
                let m = (&*bus)@;
                &&& (&*final(bus))@ == m.update(at(m.len(), a, 0), (v / 256) as u8).update(at(m.len(), a, 1), (v % 256) as u8)
                &&& (&*final(bus)).version() == stepped((&*bus).version())
            },
        forall|bus: &mut LinearMemoryBus, a: u32, v: u32| #[trigger]
            call_ensures(LinearMemoryBus::write_long, (bus, a, v), ()) && (&*bus)@.len() > 0 ==> {
                let m = (&*bus)@;
                &&& (&*final(bus))@ == m.update(at(m.len(), a, 0), (v / 0x100_0000) as u8).update(at(m.len(), a, 1), ((v / 0x1_0000) % 256) as u8).update(at(m.len(), a, 2), ((v / 256) % 256) as u8).update(at(m.len(), a, 3), (v % 256) as u8)
                &&& (&*final(bus)).version() == stepped((&*bus).version())
            },
        forall|bus: &mut LinearMemoryBus, a: u32, v: u16| #[trigger]
            call_ensures(LinearMemoryBus::write_word_at, (bus, a, v), ()) && (&*bus)@.len() > 0 ==> {
                let m = (&*bus)@;
                &&& (&*final(bus))@ == m.update(at(m.len(), a, 0), (v / 256) as u8).update(at(m.len(), a, 1), (v % 256) as u8)
                &&& (&*final(bus)).version() == stepped((&*bus).version())
            },
        forall|bus: &mut LinearMemoryBus, a: u32, v: u32| #[trigger]
            call_ensures(LinearMemoryBus::write_long_at, (bus, a, v), ()) && (&*bus)@.len() > 0 ==> {
                let m = (&*bus)@;
                &&& (&*final(bus))@ == m.update(at(m.len(), a, 0), (v / 0x100_0000) as u8).update(at(m.len(), a, 1), ((v / 0x1_0000) % 256) as u8).update(at(m.len(), a, 2), ((v / 256) % 256) as u8).update(at(m.len(), a, 3), (v % 256) as u8)
                &&& (&*final(bus)).version() == stepped((&*bus).version())
            },
{
    lemma_cells();
    lemma_stores();
}

/// Fallible writes never fault here and do what the plain writes do.
pub proof fn fallible_writes_succeed()
    ensures
        forall|bus: &mut LinearMemoryBus, a: u32, v: u8, r: Result<(), BusFault>| #[trigger]
            call_ensures(LinearMemoryBus::try_write_byte, (bus, a, v), r) && (&*bus)@.len() > 0 ==> {
                let m = (&*bus)@;
                &&& (&*final(bus))@ == m.update(at(m.len(), a, 0), (v) as u8)
                &&& (&*final(bus)).version() == stepped((&*bus).version())
                &&& r is Ok
            },
        forall|bus: &mut LinearMemoryBus, a: u32, v: u16, r: Result<(), BusFault>| #[trigger]
            call_ensures(LinearMemoryBus::try_write_word, (bus, a, v), r) && (&*bus)@.len() > 0 ==> {
                let m = (&*bus)@;
                &&& (&*final(bus))@ == m.update(at(m.len(), a, 0), (v / 256) as u8).update(at(m.len(), a, 1), (v % 256) as u8)
                &&& (&*final(bus)).version() == stepped((&*bus).version())
                &&& r is Ok
            },
        forall|bus: &mut LinearMemoryBus, a: u32, v: u32, r: Result<(), BusFault>| #[trigger]
            call_ensures(LinearMemoryBus::try_write_long, (bus, a, v), r) && (&*bus)@.len() > 0 ==> {
                let m = (&*bus)@;
                &&& (&*final(bus))@ == m.update(at(m.len(), a, 0), (v / 0x100_0000) as u8).update(at(m.len(), a, 1), ((v / 0x1_0000) % 256) as u8).update(at(m.len(), a, 2), ((v / 256) % 256) as u8).update(at(m.len(), a, 3), (v % 256) as u8)
                &&& (&*final(bus)).version() == stepped((&*bus).version())
                &&& r is Ok
            },
{
    lemma_cells();
    lemma_stores();
}

/// A write of three bytes stores the low 24 bits, most significant first, and
/// nothing else. It is two writes to the version.
pub proof fn three_bytes_stored_big_endian()
    ensures
        forall|bus: &mut LinearMemoryBus, a: u32, v: u32| #[trigger]
            call_ensures(LinearMemoryBus::write_three_bytes, (bus, a, v), ()) && (&*bus)@.len() > 0 ==> {
                let m = (&*bus)@;
                &&& (&*final(bus))@ == m.update(at(m.len(), a, 0), ((v / 0x1_0000) % 256) as u8).update(at(m.len(), a, 1), ((v / 256) % 256) as u8).update(at(m.len(), a, 2), (v % 256) as u8)
                &&& (&*final(bus)).version() == stepped(stepped((&*bus).version()) as u64)
            },
{
    lemma_cells();
    lemma_stores();
    lemma_three_bytes();
}

/// A fallible write of three bytes never faults here and does what the plain
/// one does.
pub proof fn fallible_three_byte_write_succeeds()
    ensures
        forall|bus: &mut LinearMemoryBus, a: u32, v: u32, r: Result<(), BusFault>| #[trigger]
            call_ensures(LinearMemoryBus::try_write_three_bytes, (bus, a, v), r) && (&*bus)@.len() > 0 ==> {
                let m = (&*bus)@;
                &&& (&*final(bus))@ == m.update(at(m.len(), a, 0), ((v / 0x1_0000) % 256) as u8).update(at(m.len(), a, 1), ((v / 256) % 256) as u8).update(at(m.len(), a, 2), (v % 256) as u8)
                &&& (&*final(bus)).version() == stepped(stepped((&*bus).version()) as u64)
                &&& r is Ok
            },
{
    lemma_cells();
    lemma_stores();
    lemma_three_bytes();
}

/// Loading puts byte `k` of the data at `k` past the address. A cell that gets
/// several bytes keeps the last of them, and a cell that gets none keeps what it
/// held. The version steps once, however much is loaded.
pub proof fn load_copies_bytes()
    ensures
        forall|bus: &mut LinearMemoryBus, a: u32, data: &[u8]| #[trigger]
            call_ensures(LinearMemoryBus::load, (bus, a, data), ()) && (&*bus)@.len() > 0 ==> {
                let m = (&*bus)@;
                &&& (&*final(bus))@.len() == m.len()
                &&& (&*final(bus)).version() == stepped((&*bus).version())
                &&& forall|k: int|
                    #![trigger data@[k]]
                    0 <= k < data@.len() && (forall|j: int|
                        k < j < data@.len() ==> (a + #[trigger] same(j)) % 0x1_0000_0000 % m.len() as int
                            != (a + k) % 0x1_0000_0000 % m.len() as int) ==> (
                    &*final(bus))@[(a + k) % 0x1_0000_0000 % m.len() as int] == data@[k]
                &&& forall|i: int|
                    #![trigger (&*final(bus))@[i]]
                    0 <= i < m.len() && (forall|k: int|
                        0 <= k < data@.len() ==> (a + #[trigger] same(k)) % 0x1_0000_0000 % m.len() as int
                            != i) ==> (&*final(bus))@[i] == m[i]
            },
{
    assert forall|bus: &mut LinearMemoryBus, a: u32, data: &[u8]| #[trigger]
        call_ensures(LinearMemoryBus::load, (bus, a, data), ()) && (&*bus)@.len() > 0 implies {
        let m = (&*bus)@;
        &&& (&*final(bus))@.len() == m.len()
        &&& forall|k: int|
            #![trigger data@[k]]
            0 <= k < data@.len() && (forall|j: int|
                k < j < data@.len() ==> (a + #[trigger] same(j)) % 0x1_0000_0000 % m.len() as int != (
                a + k) % 0x1_0000_0000 % m.len() as int) ==> (&*final(bus))@[(a + k)
                % 0x1_0000_0000 % m.len() as int] == data@[k]
        &&& forall|i: int|
            #![trigger (&*final(bus))@[i]]
            0 <= i < m.len() && (forall|k: int|
                0 <= k < data@.len() ==> (a + #[trigger] same(k)) % 0x1_0000_0000 % m.len() as int
                    != i) ==> (&*final(bus))@[i] == m[i]
    } by {
        let m = (&*bus)@;
        let after = linear_memory::store_bytes(m, a, data@);
        memory_laws::store_keeps_length(m, a, data@);
        assert forall|k: int|
            #![trigger data@[k]]
            0 <= k < data@.len() && (forall|j: int|
                k < j < data@.len() ==> (a + #[trigger] same(j)) % 0x1_0000_0000 % m.len() as int != (
                a + k) % 0x1_0000_0000 % m.len() as int) implies after[(a + k) % 0x1_0000_0000
            % m.len() as int] == data@[k] by {
            assert forall|j: int| k < j < data@.len() implies #[trigger] linear_memory::cell(
                m.len(),
                a,
                j,
            ) != linear_memory::cell(m.len(), a, k) by {
                assert(same(j) == j);
            }
            memory_laws::store_last_byte_stays(m, a, data@, k);
        }
        assert forall|i: int|
            #![trigger after[i]]
            0 <= i < m.len() && (forall|k: int|
                0 <= k < data@.len() ==> (a + #[trigger] same(k)) % 0x1_0000_0000 % m.len() as int
                    != i) implies after[i] == m[i] by {
            assert forall|k: int| 0 <= k < data@.len() implies #[trigger] linear_memory::cell(
                m.len(),
                a,
                k,
            ) != i by {
                assert(same(k) == k);
            }
            memory_laws::store_keeps_other_cells(m, a, data@, i);
        }
    }
}

/// The offset itself.
pub open spec fn same(i: int) -> int {
    i
}

/// A new bus holds the bytes it was made of, at version 1.
pub proof fn new_buses()
    ensures
        forall|size: usize, bus: LinearMemoryBus| #[trigger]
            call_ensures(LinearMemoryBus::new, (size,), bus) ==> {
                &&& bus@.len() == size && bus.version() == 1
                &&& forall|i: int| 0 <= i < size ==> #[trigger] bus@[i] == 0
            },
        forall|memory: Vec<u8>, bus: LinearMemoryBus| #[trigger]
            call_ensures(LinearMemoryBus::from_vec, (memory,), bus) ==> bus@ == memory@
                && bus.version() == 1,
        forall|memory: Vec<u8>, bus: Option<LinearMemoryBus>| #[trigger]
            call_ensures(LinearMemoryBus::try_from_vec, (memory,), bus) ==> {
                &&& bus is None == (memory@.len() == 0)
                &&& bus matches Some(b) ==> b@ == memory@ && b.version() == 1
            },
{
}

/// The index of a guest address is its remainder by the length.
pub proof fn index_is_remainder()
    ensures
        forall|bus: &LinearMemoryBus, a: u32, index: usize| #[trigger]
            call_ensures(LinearMemoryBus::index, (bus, a), index) ==> index == a as int
                % bus@.len() as int,
{
}

/// Looking at a bus tells its bytes, their number and its version, at every
/// address, and changes nothing.
pub proof fn looking_changes_nothing()
    ensures
        forall|bus: &LinearMemoryBus, slice: &[u8]| #[trigger]
            call_ensures(LinearMemoryBus::as_slice, (bus,), slice) ==> slice@ == bus@,
        forall|bus: &LinearMemoryBus, len: usize| #[trigger]
            call_ensures(LinearMemoryBus::len, (bus,), len) ==> len == bus@.len(),
        forall|bus: &LinearMemoryBus, empty: bool| #[trigger]
            call_ensures(LinearMemoryBus::is_empty, (bus,), empty) ==> empty == (bus@.len() == 0),
        forall|bus: &mut LinearMemoryBus, a: u32, version: Option<u64>| #[trigger]
            call_ensures(LinearMemoryBus::instruction_cache_version, (bus, a), version) ==> {
                &&& version == Some((&*bus).version())
                &&& &*final(bus) == &*bus
            },
{
}

/// A mutable slice is the buffer itself. Handing it out steps the version, and
/// so does invalidating or bumping it, which changes no byte. The version never
/// becomes zero and never stays.
pub proof fn version_steps()
    ensures
        forall|bus: &mut LinearMemoryBus, slice: &mut [u8]| #[trigger]
            call_ensures(LinearMemoryBus::as_mut_slice, (bus,), slice) ==> {
                &&& slice@ == (&*bus)@
                &&& (&*final(bus))@ == final(slice)@
                &&& (&*final(bus)).version() == stepped((&*bus).version())
            },
        forall|bus: &mut LinearMemoryBus| #[trigger]
            call_ensures(LinearMemoryBus::bump_instruction_version, (bus,), ()) ==> {
                &&& (&*final(bus))@ == (&*bus)@
                &&& (&*final(bus)).version() == stepped((&*bus).version())
            },
        forall|bus: &mut LinearMemoryBus, a: u32, len: u32| #[trigger]
            call_ensures(LinearMemoryBus::invalidate_instruction_cache, (bus, a, len), ()) ==> {
                &&& (&*final(bus))@ == (&*bus)@
                &&& (&*final(bus)).version() == stepped((&*bus).version())
            },
        forall|version: u64| #[trigger] stepped(version) != 0 && stepped(version) != version,
{
}

/// The window of a bus is its whole buffer from guest address 0 on, as far as 32
/// bits count. What is written through it is in the buffer, and the version does
/// not notice.
pub proof fn window_is_whole_buffer()
    ensures
        forall|bus: &mut LinearMemoryBus, window: Option<FastMem<'_>>| #[trigger]
            call_ensures(LinearMemoryBus::fast_mem, (bus,), window) ==> {
                &&& window matches Some(w) && {
                    &&& w.base == 0
                    &&& w.ptr@ == (&*bus)@
                    &&& (&*bus)@.len() <= 0xFFFF_FFFF ==> w.len == (&*bus)@.len()
                    &&& (&*bus)@.len() > 0xFFFF_FFFF ==> w.len == 0xFFFF_FFFF
                    &&& (&*final(bus))@ == final(w.ptr)@
                }
                &&& (&*final(bus)).version() == (&*bus).version()
            },
{
}

/// Three-byte operands are split into a word and a byte, and joined again: the
/// upper eight bits of a longword drop out.
pub proof fn three_bytes_split_and_join()
    ensures
        forall|value: u32, parts: (u16, u8)| #[trigger]
            call_ensures(split_three_bytes, (value,), parts) ==> parts.0 * 256 + parts.1 == value
                % 0x100_0000,
        forall|hi: u16, lo: u8, value: u32| #[trigger]
            call_ensures(join_three_bytes, (hi, lo), value) ==> value / 256 == hi && value % 256
                == lo,
{
}

/// Linear memory has no devices: the hooks for timing, interrupts and resets
/// change nothing, no boundary is requested, interrupts are autovectored at
/// every level, and every fetch counts as cached.
pub proof fn hooks_are_quiet()
    ensures
        forall|bus: &mut LinearMemoryBus, clocks: u32| #[trigger]
            call_ensures(LinearMemoryBus::sync, (bus, clocks), ()) ==> &*final(bus) == &*bus,
        forall|bus: &mut LinearMemoryBus| #[trigger]
            call_ensures(LinearMemoryBus::begin_instruction_fetches, (bus,), ()) ==> &*final(bus) == &*bus,
        forall|bus: &mut LinearMemoryBus| #[trigger]
            call_ensures(LinearMemoryBus::ipl_hold_sample, (bus,), ()) ==> &*final(bus) == &*bus,
        forall|bus: &mut LinearMemoryBus| #[trigger]
            call_ensures(LinearMemoryBus::ipl_release_sample, (bus,), ()) ==> &*final(bus) == &*bus,
        forall|bus: &mut LinearMemoryBus| #[trigger]
            call_ensures(LinearMemoryBus::reset_devices, (bus,), ()) ==> &*final(bus) == &*bus,
        forall|bus: &mut LinearMemoryBus, requested: bool| #[trigger]
            call_ensures(LinearMemoryBus::take_boundary_request, (bus,), requested) ==> !requested && &*final(bus) == &*bus,
        forall|bus: &mut LinearMemoryBus, level: u8, vector: u32| #[trigger]
            call_ensures(LinearMemoryBus::interrupt_acknowledge, (bus, level), vector) ==> vector == 0xFFFF_FFFF && &*final(bus) == &*bus,
        forall|bus: &LinearMemoryBus, cached: bool| #[trigger]
            call_ensures(LinearMemoryBus::last_fetch_was_cached, (bus,), cached) ==> cached,
        forall|bus: &LinearMemoryBus, cached: bool| #[trigger]
            call_ensures(LinearMemoryBus::instruction_fetches_were_cached, (bus,), cached) ==> cached,
{
}

/// A copy of a bus has its bytes and its version.
pub proof fn copies_are_equal()
    ensures
        forall|bus: &LinearMemoryBus, copy: LinearMemoryBus| #[trigger]
            call_ensures(LinearMemoryBus::clone, (bus,), copy) ==> copy@ == bus@ && copy.version()
                == bus.version(),
{
}

/// The cells of a buffer are where guest bytes stand.
proof fn lemma_cells()
    ensures
        forall|n: nat, a: u32, i: int|
            0 <= i < 4 && n > 0 ==> #[trigger] linear_memory::cell(n, a, i) == at(n, a, i),
        forall|n: nat, a: u32, i: int|
            0 <= i < 2 && n > 0 ==> #[trigger] linear_memory::cell(n, memory::bus_offset(a, 2), i) == at(n, a, 2 + i),
{
    assert forall|n: nat, a: u32, i: int| 0 <= i < 4 && n > 0 implies #[trigger] linear_memory::cell(
        n,
        a,
        i,
    ) == at(n, a, i) by {
    }
    assert forall|n: nat, a: u32, i: int|
        0 <= i < 2 && n > 0 implies #[trigger] linear_memory::cell(n, memory::bus_offset(a, 2), i)
        == at(n, a, 2 + i) by {
    }
}

/// The value of two, three and four bytes, written out.
proof fn lemma_values()
    ensures
        forall|m: Seq<u8>, a: u32|
            linear_memory::be_value(#[trigger] linear_memory::bytes_at(m, a, 2)) == m[linear_memory::cell(
                m.len(),
                a,
                0,
            )] * 256 + m[linear_memory::cell(m.len(), a, 1)],
        forall|m: Seq<u8>, a: u32|
            linear_memory::be_value(#[trigger] linear_memory::bytes_at(m, a, 4)) == m[linear_memory::cell(
                m.len(),
                a,
                0,
            )] * 0x100_0000 + m[linear_memory::cell(m.len(), a, 1)] * 0x1_0000
                + m[linear_memory::cell(m.len(), a, 2)] * 256 + m[linear_memory::cell(
                m.len(),
                a,
                3,
            )],
{
    reveal_with_fuel(linear_memory::be_value, 5);
}

/// What storing one, two and four bytes does, step by step.
proof fn lemma_stores()
    ensures
        forall|m: Seq<u8>, a: u32, v: u8| #[trigger]
            linear_memory::store_bytes(m, a, seq![v]) == m.update(
                linear_memory::cell(m.len(), a, 0),
                v,
            ),
        forall|m: Seq<u8>, a: u32, v: u16| #[trigger]
            linear_memory::store_bytes(m, a, linear_memory::be_word(v)) == m.update(
                linear_memory::cell(m.len(), a, 0),
                (v / 256) as u8,
            ).update(linear_memory::cell(m.len(), a, 1), (v % 256) as u8),
        forall|m: Seq<u8>, a: u32, v: u32| #[trigger]
            linear_memory::store_bytes(m, a, linear_memory::be_long(v)) == m.update(
                linear_memory::cell(m.len(), a, 0),
                (v / 0x100_0000) as u8,
            ).update(linear_memory::cell(m.len(), a, 1), ((v / 0x1_0000) % 256) as u8).update(
                linear_memory::cell(m.len(), a, 2),
                ((v / 256) % 256) as u8,
            ).update(linear_memory::cell(m.len(), a, 3), (v % 256) as u8),
{
    assert forall|m: Seq<u8>, a: u32, v: u8| #[trigger]
        linear_memory::store_bytes(m, a, seq![v]) == m.update(
            linear_memory::cell(m.len(), a, 0),
            v,
        ) by {
        linear_memory::lemma_store_steps(m, a, seq![v]);
    }
    assert forall|m: Seq<u8>, a: u32, v: u16| #[trigger]
        linear_memory::store_bytes(m, a, linear_memory::be_word(v)) == m.update(
            linear_memory::cell(m.len(), a, 0),
            (v / 256) as u8,
        ).update(linear_memory::cell(m.len(), a, 1), (v % 256) as u8) by {
        linear_memory::lemma_store_steps(m, a, linear_memory::be_word(v));
    }
    assert forall|m: Seq<u8>, a: u32, v: u32| #[trigger]
        linear_memory::store_bytes(m, a, linear_memory::be_long(v)) == m.update(
            linear_memory::cell(m.len(), a, 0),
            (v / 0x100_0000) as u8,
        ).update(linear_memory::cell(m.len(), a, 1), ((v / 0x1_0000) % 256) as u8).update(
            linear_memory::cell(m.len(), a, 2),
            ((v / 256) % 256) as u8,
        ).update(linear_memory::cell(m.len(), a, 3), (v % 256) as u8) by {
        linear_memory::lemma_store_steps(m, a, linear_memory::be_long(v));
    }
}

/// The bytes of the word at the front of a three-byte operand.
proof fn lemma_three_bytes()
    ensures
        forall|v: u32|
            (#[trigger] memory::three_byte_word(v)) / 256 == (v / 0x1_0000) % 256
                && memory::three_byte_word(v) % 256 == (v / 256) % 256,
{
    assert forall|v: u32|
        (#[trigger] memory::three_byte_word(v)) / 256 == (v / 0x1_0000) % 256
            && memory::three_byte_word(v) % 256 == (v / 256) % 256 by {
        assert(((v / 256) % 0x1_0000) / 256 == (v / 0x1_0000) % 256 && ((v / 256) % 0x1_0000) % 256
            == (v / 256) % 256) by (bit_vector);
    }
}

} // verus!
