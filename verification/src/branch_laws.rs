//! What the operations of the branch cache do, call by call.
//!
//! The laws speak of calls and of the tags and state bytes of the cache: the
//! branch at `pc` has slot `pc / 2 % 256`; of a state byte, bit 2 says that
//! the entry is valid and bit 3 that it was allocated in user mode, and the
//! two low bits are the taken counter.

use vstd::prelude::*;

use crate::branch_cache::BranchCache060;

verus! {

/// The table has all its slots, as that of every cache has.
pub open spec fn complete(cache: &BranchCache060) -> bool {
    cache@.tags.len() == 256 && cache@.state.len() == 256
}

/// A slot is bits 8 to 1 of the branch's address.
pub proof fn slot_is_bits_8_to_1()
    ensures
        forall|pc: u32, slot: usize| #[trigger]
            call_ensures(BranchCache060::slot, (pc,), slot) ==> slot == (pc / 2) % 256,
{
}

/// A branch is predicted exactly if its slot is valid and holds its address,
/// and then taken exactly from counter 2 on.
pub proof fn prediction_reads_counter()
    ensures
        forall|cache: &BranchCache060, pc: u32, taken: Option<bool>| #[trigger]
            call_ensures(BranchCache060::predict, (cache, pc), taken) ==> {
                let slot = (pc / 2) % 256;
                let state = cache@.state[slot as int];
                taken == if (state / 4) % 2 == 1 && cache@.tags[slot as int] == pc {
                    Some(state % 4 == 2 || state % 4 == 3)
                } else {
                    None
                }
            },
{
}

/// A taken hit raises the counter by one below 3 and keeps 3. A not-taken hit
/// lowers it by one above 0 and keeps 0. Nothing else changes: not the tags,
/// not the other bits of the state byte, not the other slots.
pub proof fn hit_moves_counter_by_one()
    ensures
        forall|cache: &mut BranchCache060, pc: u32, taken: bool, user: bool| #[trigger]
            call_ensures(BranchCache060::update, (cache, pc, taken, user), ()) && complete(&*cache)
                ==> {
                let slot = ((pc / 2) % 256) as int;
                let before = (&*cache)@.state[slot];
                let after = (&*final(cache))@.state[slot];
                (before / 4) % 2 == 1 && (&*cache)@.tags[slot] == pc ==> {
                    &&& taken && before % 4 < 3 ==> after == before + 1
                    &&& taken && before % 4 == 3 ==> after == before
                    &&& !taken && before % 4 > 0 ==> after == before - 1
                    &&& !taken && before % 4 == 0 ==> after == before
                    &&& (&*final(cache))@.tags == (&*cache)@.tags
                    &&& (&*final(cache))@.state.len() == 256
                    &&& forall|i: int|
                        0 <= i < 256 && i != slot ==> #[trigger] (&*final(cache))@.state[i]
                            == (&*cache)@.state[i]
                }
            },
{
}

/// A taken miss makes the slot valid with the branch's address, weakly taken
/// (counter 2), and with the privilege mode of the branch. Nothing else
/// changes.
pub proof fn taken_miss_fills_slot()
    ensures
        forall|cache: &mut BranchCache060, pc: u32, user: bool| #[trigger]
            call_ensures(BranchCache060::update, (cache, pc, true, user), ()) && complete(&*cache)
                ==> {
                let slot = ((pc / 2) % 256) as int;
                let before = (&*cache)@.state[slot];
                (before / 4) % 2 == 0 || (&*cache)@.tags[slot] != pc ==> {
                    &&& (&*final(cache))@.tags == (&*cache)@.tags.update(slot, pc)
                    &&& (&*final(cache))@.state == (&*cache)@.state.update(
                        slot,
                        if user {
                            0b1110
                        } else {
                            0b0110
                        },
                    )
                }
            },
{
}

/// A not-taken miss changes nothing.
pub proof fn not_taken_miss_is_ignored()
    ensures
        forall|cache: &mut BranchCache060, pc: u32, user: bool| #[trigger]
            call_ensures(BranchCache060::update, (cache, pc, false, user), ()) ==> {
                let slot = ((pc / 2) % 256) as int;
                let before = (&*cache)@.state[slot];
                (before / 4) % 2 == 0 || (&*cache)@.tags[slot] != pc ==> (&*final(cache))@
                    == (&*cache)@
            },
{
}

/// After a taken branch its slot holds its address and is valid, whatever was
/// there before.
pub proof fn taken_branch_has_entry()
    ensures
        forall|cache: &mut BranchCache060, pc: u32, user: bool, prediction: Option<bool>| #[trigger]
            call_ensures(BranchCache060::update, (cache, pc, true, user), ()) && #[trigger]
            call_ensures(BranchCache060::predict, (&*final(cache), pc), prediction) && complete(
                &*cache,
            ) ==> prediction is Some,
{
    hit_moves_counter_by_one();
    taken_miss_fills_slot();
    prediction_reads_counter();
    assert forall|cache: &mut BranchCache060, pc: u32, user: bool, prediction: Option<bool>| #[trigger]
        call_ensures(BranchCache060::update, (cache, pc, true, user), ()) && #[trigger] call_ensures(
            BranchCache060::predict,
            (&*final(cache), pc),
            prediction,
        ) && complete(&*cache) implies prediction is Some by {
        let before = (&*cache)@.state[((pc / 2) % 256) as int];
        if (before / 4) % 2 == 1 {
            lemma_step_stays_valid(before);
        }
    }
}

/// A step of the counter does not reach the bits above it.
proof fn lemma_step_stays_valid(x: u8)
    by (bit_vector)
    requires
        (x / 4) % 2 == 1,
    ensures
        x % 4 < 3 ==> (((x + 1) as u8) / 4) % 2 == 1 && ((x + 1) as u8) % 4 == x % 4 + 1 && x + 1
            < 256 && (((x + 1) as u8) / 8) % 2 == (x / 8) % 2,
        x % 4 > 0 ==> (((x - 1) as u8) / 4) % 2 == 1 && ((x - 1) as u8) % 4 == x % 4 - 1 && x - 1
            >= 0 && (((x - 1) as u8) / 8) % 2 == (x / 8) % 2,
{
}

/// Taking a branch once and then not taking it, or the other way round, leads
/// its counter back to where it stood, unless the first step was held at the
/// end of the range: then the counter is one off that end. So an alternating
/// branch keeps its prediction.
pub proof fn opposite_outcomes_cancel()
    ensures
        forall|
            first: &mut BranchCache060,
            second: &mut BranchCache060,
            pc: u32,
            taken: bool,
            back: bool,
            user: bool,
        | #[trigger]
            call_ensures(BranchCache060::update, (first, pc, taken, user), ()) && #[trigger]
            call_ensures(BranchCache060::update, (second, pc, back, user), ()) && back != taken
                && &*second == &*final(first) && complete(&*first) ==> {
                let slot = ((pc / 2) % 256) as int;
                let before = (&*first)@.state[slot];
                (before / 4) % 2 == 1 && (&*first)@.tags[slot] == pc ==> {
                    &&& taken && before % 4 < 3 ==> (&*final(second))@.state[slot] == before
                    &&& !taken && before % 4 > 0 ==> (&*final(second))@.state[slot] == before
                    &&& taken && before % 4 == 3 ==> (&*final(second))@.state[slot] == before - 1
                    &&& !taken && before % 4 == 0 ==> (&*final(second))@.state[slot] == before + 1
                }
            },
{
    hit_moves_counter_by_one();
    assert forall|
            first: &mut BranchCache060,
            second: &mut BranchCache060,
            pc: u32,
            taken: bool,
            back: bool,
            user: bool,
        | #[trigger]
            call_ensures(BranchCache060::update, (first, pc, taken, user), ()) && #[trigger]
            call_ensures(BranchCache060::update, (second, pc, back, user), ()) && back != taken
                && &*second == &*final(first) && complete(&*first) implies {
                let slot = ((pc / 2) % 256) as int;
                let before = (&*first)@.state[slot];
                (before / 4) % 2 == 1 && (&*first)@.tags[slot] == pc ==> {
                    &&& taken && before % 4 < 3 ==> (&*final(second))@.state[slot] == before
                    &&& !taken && before % 4 > 0 ==> (&*final(second))@.state[slot] == before
                    &&& taken && before % 4 == 3 ==> (&*final(second))@.state[slot] == before - 1
                    &&& !taken && before % 4 == 0 ==> (&*final(second))@.state[slot] == before + 1
                }
            } by {
        let before = (&*first)@.state[((pc / 2) % 256) as int];
        if (before / 4) % 2 == 1 {
            lemma_step_stays_valid(before);
        }
    }
}

/// Clearing the cache leaves no prediction for any branch.
pub proof fn cleared_cache_predicts_nothing()
    ensures
        forall|cache: &mut BranchCache060, pc: u32, prediction: Option<bool>| #[trigger]
            call_ensures(BranchCache060::clear_all, (cache,), ()) && #[trigger] call_ensures(
                BranchCache060::predict,
                (&*final(cache), pc),
                prediction,
            ) && complete(&*cache) ==> prediction is None,
        forall|cache: &mut BranchCache060| #[trigger]
            call_ensures(BranchCache060::clear_all, (cache,), ()) ==> {
                &&& (&*final(cache))@.tags == (&*cache)@.tags
                &&& (&*final(cache))@.state.len() == (&*cache)@.state.len()
                &&& forall|i: int|
                    0 <= i < (&*cache)@.state.len() ==> #[trigger] (&*final(cache))@.state[i] == 0
            },
{
    prediction_reads_counter();
}

/// Clearing the user entries zeroes the state bytes with bit 3 set and no
/// other, so that every other branch keeps its prediction.
pub proof fn clearing_user_zeroes_user_entries()
    ensures
        forall|cache: &mut BranchCache060| #[trigger]
            call_ensures(BranchCache060::clear_user, (cache,), ()) ==> {
                &&& (&*final(cache))@.tags == (&*cache)@.tags
                &&& (&*final(cache))@.state.len() == (&*cache)@.state.len()
                &&& forall|i: int|
                    0 <= i < (&*cache)@.state.len() ==> #[trigger] (&*final(cache))@.state[i]
                        == if ((&*cache)@.state[i] / 8) % 2 == 1 {
                        0u8
                    } else {
                        (&*cache)@.state[i]
                    }
            },
{
}

/// A new cache has 256 slots and predicts nothing.
pub proof fn new_cache_predicts_nothing()
    ensures
        forall|cache: BranchCache060, pc: u32, prediction: Option<bool>| #[trigger]
            call_ensures(BranchCache060::default, (), cache) && #[trigger] call_ensures(
                BranchCache060::predict,
                (&cache, pc),
                prediction,
            ) ==> prediction is None && complete(&cache),
{
    prediction_reads_counter();
}

/// A copy of a cache has the same tags and state bytes.
pub proof fn copies_are_equal()
    ensures
        forall|cache: &BranchCache060, copy: BranchCache060| #[trigger]
            call_ensures(BranchCache060::clone, (cache,), copy) ==> copy@ == cache@,
{
}

/// The parts of a cache make up a cache with the same contents, and nothing
/// but 256 tags and 256 state bytes makes up a cache.
pub proof fn parts_round_trip()
    ensures
        forall|tags: Vec<u32>, state: Vec<u8>, cache: Option<BranchCache060>| #[trigger]
            call_ensures(BranchCache060::from_parts, (tags, state), cache) ==> {
                &&& cache is Some == (tags@.len() == 256 && state@.len() == 256)
                &&& cache matches Some(c) ==> c@.tags == tags@ && c@.state == state@
            },
        forall|cache: &BranchCache060, tags: &Vec<u32>| #[trigger]
            call_ensures(BranchCache060::tags, (cache,), tags) ==> tags@ == cache@.tags && tags@.len()
                == 256,
        forall|cache: &BranchCache060, state: &Vec<u8>| #[trigger]
            call_ensures(BranchCache060::state, (cache,), state) ==> state@ == cache@.state
                && state@.len() == 256,
{
}

} // verus!
