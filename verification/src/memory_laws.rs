//! What holds of linear memory across reads, writes, loads and versions.

use vstd::prelude::*;

use crate::bits;
use crate::linear_memory;
use crate::memory;

verus! {

/// Wherever two of the bytes at `address` and onwards share a cell, `data`
/// holds the same byte for both.
pub open spec fn cells_agree(len: nat, address: u32, data: Seq<u8>) -> bool {
    forall|i: int, j: int|
        0 <= i < j < data.len() && #[trigger] linear_memory::cell(len, address, i)
            == #[trigger] linear_memory::cell(len, address, j) ==> data[i] == data[j]
}

/// Cells lie in the buffer.
pub proof fn cell_in_range(len: nat, address: u32, offset: int)
    requires
        len > 0,
    ensures
        0 <= linear_memory::cell(len, address, offset) < len,
{
    vstd::arithmetic::div_mod::lemma_mod_bound(
        memory::bus_offset(address, offset) as int,
        len as int,
    );
}

/// An address names the byte at its remainder by the buffer's length. Where
/// that length is a power of two, masking the address gives the remainder.
pub proof fn addressed_cell(len: usize, address: u32)
    requires
        len > 0,
    ensures
        linear_memory::cell(len as nat, address, 0) == address as int % len as int,
        vstd::arithmetic::power2::is_pow2(len as int) ==> (address as usize) & (len - 1) as usize
            == linear_memory::cell(len as nat, address, 0),
{
    if vstd::arithmetic::power2::is_pow2(len as int) {
        bits::lemma_mask_is_remainder(address as usize, len);
    }
}

/// Addresses that differ by a multiple of the buffer's length name the same
/// byte: memory wraps within the buffer.
pub proof fn addresses_wrap(len: nat, a: u32, b: u32)
    requires
        len > 0,
        a as int % len as int == b as int % len as int,
    ensures
        linear_memory::cell(len, a, 0) == linear_memory::cell(len, b, 0),
{
}

/// Storing never changes the size of memory.
pub proof fn store_keeps_length(memory: Seq<u8>, address: u32, data: Seq<u8>)
    requires
        memory.len() > 0,
    ensures
        linear_memory::store_bytes(memory, address, data).len() == memory.len(),
    decreases data.len(),
{
    if data.len() > 0 {
        store_keeps_length(memory, address, data.drop_last());
        cell_in_range(memory.len(), address, data.len() - 1);
    }
}

/// A cell that no stored byte falls into keeps its content.
pub proof fn store_keeps_other_cells(memory: Seq<u8>, address: u32, data: Seq<u8>, i: int)
    requires
        0 <= i < memory.len(),
        forall|k: int|
            0 <= k < data.len() ==> #[trigger] linear_memory::cell(memory.len(), address, k) != i,
    ensures
        linear_memory::store_bytes(memory, address, data)[i] == memory[i],
    decreases data.len(),
{
    if data.len() > 0 {
        store_keeps_other_cells(memory, address, data.drop_last(), i);
        store_keeps_length(memory, address, data.drop_last());
        cell_in_range(memory.len(), address, data.len() - 1);
        assert(linear_memory::cell(memory.len(), address, data.len() - 1) != i);
    }
}

/// Of the bytes stored into one cell, the last one stays.
pub proof fn store_last_byte_stays(memory: Seq<u8>, address: u32, data: Seq<u8>, k: int)
    requires
        memory.len() > 0,
        0 <= k < data.len(),
        forall|j: int|
            k < j < data.len() ==> #[trigger] linear_memory::cell(memory.len(), address, j)
                != linear_memory::cell(memory.len(), address, k),
    ensures
        linear_memory::store_bytes(memory, address, data)[linear_memory::cell(
            memory.len(),
            address,
            k,
        )] == data[k],
    decreases data.len(),
{
    let last = data.len() - 1;
    store_keeps_length(memory, address, data.drop_last());
    cell_in_range(memory.len(), address, k);
    cell_in_range(memory.len(), address, last);
    if k < last {
        store_last_byte_stays(memory, address, data.drop_last(), k);
        assert(linear_memory::cell(memory.len(), address, last) != linear_memory::cell(
            memory.len(),
            address,
            k,
        ));
    }
}

/// The last of the offsets below `count` that fall into the cell of offset `k`.
proof fn lemma_last_in_cell(len: nat, address: u32, k: int, count: int) -> (last: int)
    requires
        0 <= k < count,
    ensures
        k <= last < count,
        linear_memory::cell(len, address, last) == linear_memory::cell(len, address, k),
        forall|j: int|
            last < j < count ==> #[trigger] linear_memory::cell(len, address, j)
                != linear_memory::cell(len, address, k),
    decreases count,
{
    if linear_memory::cell(len, address, count - 1) == linear_memory::cell(len, address, k) {
        count - 1
    } else {
        lemma_last_in_cell(len, address, k, count - 1)
    }
}

/// Reading back what was stored gives it unchanged exactly where bytes that
/// share a cell agree.
pub proof fn stored_bytes_read_back(memory: Seq<u8>, address: u32, data: Seq<u8>)
    requires
        memory.len() > 0,
    ensures
        (linear_memory::bytes_at(
            linear_memory::store_bytes(memory, address, data),
            address,
            data.len(),
        ) == data) == cells_agree(memory.len(), address, data),
{
    let len = memory.len();
    let after = linear_memory::store_bytes(memory, address, data);
    let read = linear_memory::bytes_at(after, address, data.len());
    store_keeps_length(memory, address, data);
    if cells_agree(len, address, data) {
        assert forall|k: int| 0 <= k < data.len() implies read[k] == data[k] by {
            let last = lemma_last_in_cell(len, address, k, data.len() as int);
            store_last_byte_stays(memory, address, data, last);
        }
        assert(read =~= data);
    }
    if read == data {
        assert forall|i: int, j: int|
            0 <= i < j < data.len() && #[trigger] linear_memory::cell(len, address, i)
                == #[trigger] linear_memory::cell(len, address, j) implies data[i] == data[j] by {
            assert(read[i] == read[j]);
        }
    }
}

/// Up to as many bytes as the buffer holds fall into cells of their own, if
/// they do not run over the end of the 32-bit address space, or if that end
/// is also an end of the buffer.
pub proof fn distinct_cells_agree(len: nat, address: u32, data: Seq<u8>)
    requires
        0 < data.len() <= len,
        address + data.len() <= 0x1_0000_0000 || 0x1_0000_0000int % len as int == 0,
    ensures
        cells_agree(len, address, data),
{
    let n = len as int;
    let wrap = 0x1_0000_0000int;
    assert forall|i: int, j: int|
        0 <= i < j < data.len() && #[trigger] linear_memory::cell(len, address, i)
            == #[trigger] linear_memory::cell(len, address, j) implies data[i] == data[j] by {
        let x = address + i;
        let y = address + j;
        if address + data.len() <= wrap {
            vstd::arithmetic::div_mod::lemma_small_mod(x as nat, wrap as nat);
            vstd::arithmetic::div_mod::lemma_small_mod(y as nat, wrap as nat);
        } else {
            vstd::arithmetic::div_mod::lemma_fundamental_div_mod(wrap, n);
            let q = wrap / n;
            assert(wrap == n * q);
            assert(n <= wrap) by (nonlinear_arith)
                requires
                    wrap == n * q,
                    wrap > 0,
                    n > 0,
            ;
            assert(q > 0) by (nonlinear_arith)
                requires
                    wrap == n * q,
                    wrap > 0,
                    n > 0,
            ;
            vstd::arithmetic::div_mod::lemma_mod_mod(x, n, q);
            vstd::arithmetic::div_mod::lemma_mod_mod(y, n, q);
        }
        assert(x % n == y % n);
        vstd::arithmetic::div_mod::lemma_fundamental_div_mod(x, n);
        vstd::arithmetic::div_mod::lemma_fundamental_div_mod(y, n);
        let (p, q) = (x / n, y / n);
        assert(y - x == n * (q - p)) by (nonlinear_arith)
            requires
                x == n * p + x % n,
                y == n * q + y % n,
                x % n == y % n,
        ;
        assert(false) by (nonlinear_arith)
            requires
                0 < y - x < n,
                y - x == n * (q - p),
        ;
    }
}

/// A buffer whose length is a power of two of at most 32 bits ends where the
/// address space ends.
pub proof fn power_of_two_divides_address_space(len: nat)
    requires
        vstd::arithmetic::power2::is_pow2(len as int),
        len <= 0x1_0000_0000,
    ensures
        len > 0,
        0x1_0000_0000int % len as int == 0,
{
    vstd::arithmetic::power2::is_pow2_equiv(len as int);
    let k = choose|k: nat| vstd::arithmetic::power::pow(2, k) == len;
    vstd::arithmetic::power2::lemma_pow2_pos(k);
    vstd::arithmetic::power2::lemma2_to64();
    if k > 32 {
        vstd::arithmetic::power2::lemma_pow2_strictly_increases(32, k);
    }
    let rest = (32 - k) as nat;
    vstd::arithmetic::power2::lemma_pow2_adds(k, rest);
    let other = vstd::arithmetic::power2::pow2(rest) as int;
    assert(0x1_0000_0000int == other * len as int) by (nonlinear_arith)
        requires
            0x1_0000_0000int == len * other,
    ;
    vstd::arithmetic::div_mod::lemma_mod_multiples_basic(other, len as int);
}

/// Byte strings of one length have different values.
proof fn lemma_be_value_injective(a: Seq<u8>, b: Seq<u8>)
    requires
        a.len() == b.len(),
        linear_memory::be_value(a) == linear_memory::be_value(b),
    ensures
        a == b,
    decreases a.len(),
{
    if a.len() > 0 {
        assert(a.last() == b.last() && linear_memory::be_value(a.drop_last())
            == linear_memory::be_value(b.drop_last()));
        lemma_be_value_injective(a.drop_last(), b.drop_last());
        assert(a =~= a.drop_last().push(a.last()));
        assert(b =~= b.drop_last().push(b.last()));
    } else {
        assert(a =~= b);
    }
}

/// The bytes of a word have the word's value.
pub proof fn word_bytes_have_its_value(value: u16)
    ensures
        linear_memory::be_value(linear_memory::be_word(value)) == value,
{
    reveal_with_fuel(linear_memory::be_value, 3);
}

/// The three low bytes of a longword have its value cut to 24 bits.
pub proof fn three_bytes_have_their_value(value: u32)
    ensures
        linear_memory::be_value(linear_memory::be_three(value)) == value % 0x100_0000,
{
    reveal_with_fuel(linear_memory::be_value, 4);
}

/// The bytes of a longword have the longword's value.
pub proof fn long_bytes_have_its_value(value: u32)
    ensures
        linear_memory::be_value(linear_memory::be_long(value)) == value,
{
    reveal_with_fuel(linear_memory::be_value, 5);
}

/// A byte reads back as written, always.
pub proof fn byte_reads_back(memory: Seq<u8>, address: u32, value: u8)
    requires
        memory.len() > 0,
    ensures
        linear_memory::store_bytes(memory, address, seq![value])[linear_memory::cell(
            memory.len(),
            address,
            0,
        )] == value,
{
    store_last_byte_stays(memory, address, seq![value], 0);
}

/// A word reads back as written, exactly where its two bytes agree if they
/// share a cell.
pub proof fn word_reads_back(memory: Seq<u8>, address: u32, value: u16)
    requires
        memory.len() > 0,
    ensures
        (linear_memory::be_value(
            linear_memory::bytes_at(
                linear_memory::store_bytes(memory, address, linear_memory::be_word(value)),
                address,
                2,
            ),
        ) == value) == cells_agree(memory.len(), address, linear_memory::be_word(value)),
{
    let data = linear_memory::be_word(value);
    let after = linear_memory::store_bytes(memory, address, data);
    stored_bytes_read_back(memory, address, data);
    word_bytes_have_its_value(value);
    if linear_memory::be_value(linear_memory::bytes_at(after, address, 2)) == value {
        lemma_be_value_injective(linear_memory::bytes_at(after, address, 2), data);
    }
}

/// A longword reads back as written, exactly where those of its bytes agree
/// that share a cell.
pub proof fn long_reads_back(memory: Seq<u8>, address: u32, value: u32)
    requires
        memory.len() > 0,
    ensures
        (linear_memory::be_value(
            linear_memory::bytes_at(
                linear_memory::store_bytes(memory, address, linear_memory::be_long(value)),
                address,
                4,
            ),
        ) == value) == cells_agree(memory.len(), address, linear_memory::be_long(value)),
{
    let data = linear_memory::be_long(value);
    let after = linear_memory::store_bytes(memory, address, data);
    stored_bytes_read_back(memory, address, data);
    long_bytes_have_its_value(value);
    if linear_memory::be_value(linear_memory::bytes_at(after, address, 4)) == value {
        lemma_be_value_injective(linear_memory::bytes_at(after, address, 4), data);
    }
}

/// Words and longwords read back as written in every buffer that holds them,
/// unless they run over the end of the address space and the buffer does not
/// end there.
pub proof fn operands_read_back(memory: Seq<u8>, address: u32, word: u16, long: u32)
    requires
        memory.len() >= 4,
        address + 4 <= 0x1_0000_0000 || 0x1_0000_0000int % memory.len() as int == 0,
    ensures
        linear_memory::be_value(
            linear_memory::bytes_at(
                linear_memory::store_bytes(memory, address, linear_memory::be_word(word)),
                address,
                2,
            ),
        ) == word,
        linear_memory::be_value(
            linear_memory::bytes_at(
                linear_memory::store_bytes(memory, address, linear_memory::be_long(long)),
                address,
                4,
            ),
        ) == long,
{
    distinct_cells_agree(memory.len(), address, linear_memory::be_word(word));
    distinct_cells_agree(memory.len(), address, linear_memory::be_long(long));
    word_reads_back(memory, address, word);
    long_reads_back(memory, address, long);
}

/// Offsets add up along the 32-bit address bus.
proof fn lemma_offset_of_offset(address: u32, a: int, b: int)
    ensures
        memory::bus_offset(memory::bus_offset(address, a), b) == memory::bus_offset(address, a + b),
{
    vstd::arithmetic::div_mod::lemma_add_mod_noop_right(b, address + a, 0x1_0000_0000);
}

/// A longword is its two words, the upper one first.
pub proof fn long_is_two_words(memory: Seq<u8>, address: u32)
    ensures
        linear_memory::be_value(linear_memory::bytes_at(memory, address, 4))
            == linear_memory::be_value(linear_memory::bytes_at(memory, address, 2)) * 0x1_0000
            + linear_memory::be_value(
            linear_memory::bytes_at(memory, memory::bus_offset(address, 2), 2),
        ),
{
    reveal_with_fuel(linear_memory::be_value, 5);
    lemma_offset_of_offset(address, 2, 0);
    lemma_offset_of_offset(address, 2, 1);
}

/// A word is its two bytes, the upper one first.
pub proof fn word_is_two_bytes(memory: Seq<u8>, address: u32)
    ensures
        linear_memory::be_value(linear_memory::bytes_at(memory, address, 2))
            == memory[linear_memory::cell(memory.len(), address, 0)] * 256
            + memory[linear_memory::cell(memory.len(), memory::bus_offset(address, 1), 0)],
{
    reveal_with_fuel(linear_memory::be_value, 3);
    lemma_offset_of_offset(address, 1, 0);
}

/// A word and the byte behind it make up the big-endian three-byte operand.
pub proof fn three_bytes_are_read(memory: Seq<u8>, address: u32)
    ensures
        linear_memory::be_value(linear_memory::bytes_at(memory, address, 3))
            == linear_memory::be_value(linear_memory::bytes_at(memory, address, 2)) * 256
            + memory[linear_memory::cell(memory.len(), memory::bus_offset(address, 2), 0)],
{
    reveal_with_fuel(linear_memory::be_value, 4);
    lemma_offset_of_offset(address, 2, 0);
    assert(linear_memory::bytes_at(memory, address, 3).drop_last() =~= linear_memory::bytes_at(
        memory,
        address,
        2,
    ));
}

/// The bytes of the word at the front of a three-byte operand.
proof fn lemma_three_byte_parts(value: u32)
    by (bit_vector)
    ensures
        ((value / 256) % 0x1_0000) / 256 == (value / 0x1_0000) % 256,
        ((value / 256) % 0x1_0000) % 256 == (value / 256) % 256,
{
}

/// Storing a word and the byte behind it stores the big-endian three-byte
/// operand and nothing else.
pub proof fn three_bytes_are_written(memory: Seq<u8>, address: u32, value: u32)
    requires
        memory.len() > 0,
    ensures
        linear_memory::store_bytes(
            linear_memory::store_bytes(
                memory,
                address,
                linear_memory::be_word(memory::three_byte_word(value)),
            ),
            memory::bus_offset(address, 2),
            seq![memory::three_byte_tail(value)],
        ) == linear_memory::store_bytes(memory, address, linear_memory::be_three(value)),
{
    let word = linear_memory::be_word(memory::three_byte_word(value));
    let three = linear_memory::be_three(value);
    lemma_three_byte_parts(value);
    assert(word[0] == three[0] && word[1] == three[1]);
    let mid = linear_memory::store_bytes(memory, address, word);
    let tail = seq![memory::three_byte_tail(value)];
    lemma_offset_of_offset(address, 2, 0);
    store_keeps_length(memory, address, word);
    linear_memory::lemma_store_steps(memory, address, word);
    linear_memory::lemma_store_steps(mid, memory::bus_offset(address, 2), tail);
    linear_memory::lemma_store_steps(memory, address, three);
}

/// Inside the buffer the cells are the addresses, so that multi-byte values
/// stand big-endian in a window that shows the buffer.
pub proof fn window_is_big_endian(memory: Seq<u8>, address: u32)
    requires
        address + 4 <= memory.len(),
        address + 4 <= 0x1_0000_0000,
    ensures
        memory[linear_memory::cell(memory.len(), address, 0)] == memory[address as int],
        linear_memory::be_value(linear_memory::bytes_at(memory, address, 2)) == memory[address as int]
            * 256 + memory[address + 1],
        linear_memory::be_value(linear_memory::bytes_at(memory, address, 4)) == memory[address as int]
            * 0x100_0000 + memory[address + 1] * 0x1_0000 + memory[address + 2] * 256
            + memory[address + 3],
{
    reveal_with_fuel(linear_memory::be_value, 5);
    let len = memory.len();
    assert forall|i: int| 0 <= i < 4 implies #[trigger] linear_memory::cell(len, address, i)
        == address + i by {
        vstd::arithmetic::div_mod::lemma_small_mod((address + i) as nat, 0x1_0000_0000);
        vstd::arithmetic::div_mod::lemma_small_mod((address + i) as nat, len);
    }
}

/// Storing a byte through a window that shows the buffer leaves the same
/// bytes as a bus write of it.
pub proof fn window_write_is_bus_write(memory: Seq<u8>, address: u32, value: u8)
    requires
        address < memory.len(),
    ensures
        linear_memory::store_bytes(memory, address, seq![value]) == memory.update(
            address as int,
            value,
        ),
{
    vstd::arithmetic::div_mod::lemma_small_mod(address as nat, memory.len());
    linear_memory::lemma_store_steps(memory, address, seq![value]);
}

/// The instruction-memory version counts up and skips zero. Every step leads
/// to another version, so a code cache that compares versions notices it.
pub proof fn version_changes(version: u64)
    ensures
        linear_memory::next_version(version) == if version < u64::MAX {
            version + 1
        } else {
            1
        },
        linear_memory::next_version(version) != version,
        linear_memory::next_version(version) != 0,
{
}

} // verus!
