//! The 68060's branch cache.

use vstd::prelude::*;

verus! {

/// The 68060's 256-entry branch cache, modeled as a direct-mapped table of
/// branch PCs with 2-bit saturating taken counters. A hit that predicts a
/// taken branch correctly lets it fold to zero cycles, onto the instruction
/// before it; misses predict not-taken and allocate on a taken execution. Entries record the privilege mode at
/// allocation so CACR.CUBC can clear only user entries. The cache changes
/// cycle counts and cycle counts change chipset interleaving, so it is part
/// of a machine's saved state.
#[derive(Debug, PartialEq, Eq)]
pub struct BranchCache060 {
    /// Full branch PC per slot (the tag).
    tags: Vec<u32>,
    /// Bit 2 = valid, bit 3 = allocated in user mode, bits 1:0 = 2-bit
    /// saturating taken counter (predict taken when >= 2).
    state: Vec<u8>,
}

/// Number of slots.
pub const BC_SLOTS: usize = 256;

const BC_VALID: u8 = 0x04;

const BC_USER: u8 = 0x08;

const BC_COUNTER: u8 = 0x03;

/// What a branch cache holds: a tag and a state byte for each slot.
pub struct BranchTable {
    /// The branch PC of each slot.
    pub tags: Seq<u32>,
    /// The state byte of each slot.
    pub state: Seq<u8>,
}

/// The slot of the branch at `pc`: bits 8-1 of its address.
pub open spec fn slot_of(pc: u32) -> int {
    (pc as int / 2) % 256
}

/// The entry of this state byte is valid.
pub open spec fn is_valid(state: u8) -> bool {
    (state / 4) % 2 == 1
}

/// The entry of this state byte was allocated in user mode.
pub open spec fn is_user(state: u8) -> bool {
    (state / 8) % 2 == 1
}

/// The taken counter in this state byte.
pub open spec fn counter(state: u8) -> int {
    state as int % 4
}

/// A saturating step of a taken counter.
pub open spec fn step_counter(counter: int, taken: bool) -> int {
    if taken && counter < 3 {
        counter + 1
    } else if !taken && counter > 0 {
        counter - 1
    } else {
        counter
    }
}

/// The state byte of an entry that a taken branch has just allocated: valid,
/// weakly taken.
pub open spec fn allocated(user: bool) -> u8 {
    if user {
        14
    } else {
        6
    }
}

impl BranchTable {
    /// The table has all its slots.
    pub open spec fn wf(self) -> bool {
        self.tags.len() == 256 && self.state.len() == 256
    }

    /// The branch at `pc` has an entry.
    pub open spec fn hits(self, pc: u32) -> bool {
        is_valid(self.state[slot_of(pc)]) && self.tags[slot_of(pc)] == pc
    }

    /// The prediction for the branch at `pc`, if it has an entry.
    pub open spec fn prediction(self, pc: u32) -> Option<bool> {
        if self.hits(pc) {
            Some(counter(self.state[slot_of(pc)]) >= 2)
        } else {
            None
        }
    }

    /// The table after the branch at `pc` was executed.
    pub open spec fn updated(self, pc: u32, taken: bool, user: bool) -> BranchTable {
        let slot = slot_of(pc);
        let state = self.state[slot];
        if self.hits(pc) {
            BranchTable {
                state: self.state.update(
                    slot,
                    (state - counter(state) + step_counter(counter(state), taken)) as u8,
                ),
                ..self
            }
        } else if taken {
            BranchTable {
                tags: self.tags.update(slot, pc),
                state: self.state.update(slot, allocated(user)),
            }
        } else {
            self
        }
    }

    /// The table without any entry.
    pub open spec fn cleared(self) -> BranchTable {
        BranchTable { state: self.state.map_values(|s: u8| 0u8), ..self }
    }

    /// The table without the entries that were allocated in user mode.
    pub open spec fn user_cleared(self) -> BranchTable {
        BranchTable {
            state: self.state.map_values(
                |s: u8|
                    if is_user(s) {
                        0u8
                    } else {
                        s
                    },
            ),
            ..self
        }
    }
}

impl View for BranchCache060 {
    type V = BranchTable;

    closed spec fn view(&self) -> BranchTable {
        BranchTable { tags: self.tags@, state: self.state@ }
    }
}

impl Clone for BranchCache060 {
    fn clone(&self) -> (copy: Self)
        ensures
            copy@ == self@,
    {
        proof {
            use_type_invariant(self);
        }
        let tags: Vec<u32> = self.tags.clone();
        let state: Vec<u8> = self.state.clone();
        assert(tags@ =~= self.tags@);
        assert(state@ =~= self.state@);
        BranchCache060 { tags, state }
    }
}

impl Default for BranchCache060 {
    /// A cache without entries.
    fn default() -> (cache: Self)
        ensures
            cache@.tags == Seq::new(256, |i: int| 0u32),
            cache@.state == Seq::new(256, |i: int| 0u8),
    {
        let cache = BranchCache060 { tags: vec![0u32; BC_SLOTS], state: vec![0u8; BC_SLOTS] };
        assert(cache.tags@ =~= Seq::new(256, |i: int| 0u32));
        assert(cache.state@ =~= Seq::new(256, |i: int| 0u8));
        cache
    }
}

impl BranchCache060 {
    /// The cache has all its slots.
    #[verifier::type_invariant]
    spec fn wf(self) -> bool {
        self@.wf()
    }

    /// A cache with the given tags and state bytes, if both are complete.
    pub fn from_parts(tags: Vec<u32>, state: Vec<u8>) -> (cache: Option<Self>)
        ensures
            cache is Some == (tags@.len() == 256 && state@.len() == 256),
            cache matches Some(cache) ==> cache@ == (BranchTable { tags: tags@, state: state@ }),
    {
        if tags.len() == BC_SLOTS && state.len() == BC_SLOTS {
            Some(BranchCache060 { tags, state })
        } else {
            None
        }
    }

    /// The branch PC of each slot.
    pub fn tags(&self) -> (tags: &Vec<u32>)
        ensures
            tags@ == self@.tags,
            tags@.len() == 256,
    {
        proof {
            use_type_invariant(self);
        }
        &self.tags
    }

    /// The state byte of each slot.
    pub fn state(&self) -> (state: &Vec<u8>)
        ensures
            state@ == self@.state,
            state@.len() == 256,
    {
        proof {
            use_type_invariant(self);
        }
        &self.state
    }

    /// The slot of the branch at `pc`.
    pub fn slot(pc: u32) -> (slot: usize)
        ensures
            slot == slot_of(pc),
            slot < 256,
    {
        assert((pc >> 1) & 0xFF == (pc / 2) % 256) by (bit_vector);
        ((pc >> 1) & 0xFF) as usize
    }

    /// Invalidate every branch-cache entry (CACR.CABC).
    pub fn clear_all(&mut self)
        ensures
            final(self)@ == old(self)@.cleared(),
    {
        proof {
            use_type_invariant(&*self);
        }
        let mut i: usize = 0;
        while i < self.state.len()
            invariant
                i <= self.state@.len(),
                self.tags@ == old(self).tags@,
                self.state@.len() == old(self).state@.len(),
                self@.wf(),
                forall|j: int| 0 <= j < i ==> self.state@[j] == 0,
            decreases self.state@.len() - i,
        {
            self.state[i] = 0;
            i += 1;
        }
        assert(self.state@ =~= old(self)@.cleared().state);
    }

    /// CACR.CUBC: clear only entries allocated in user mode.
    pub fn clear_user(&mut self)
        ensures
            final(self)@ == old(self)@.user_cleared(),
    {
        proof {
            use_type_invariant(&*self);
        }
        let mut i: usize = 0;
        while i < self.state.len()
            invariant
                i <= self.state@.len(),
                self.tags@ == old(self).tags@,
                self.state@.len() == old(self).state@.len(),
                self@.wf(),
                forall|j: int|
                    0 <= j < i ==> self.state@[j] == old(self)@.user_cleared().state[j],
                forall|j: int| i <= j < self.state@.len() ==> self.state@[j] == old(self).state@[j],
            decreases self.state@.len() - i,
        {
            proof {
                lemma_state_bits(self.state@[i as int]);
            }
            if self.state[i] & BC_USER != 0 {
                self.state[i] = 0;
            }
            i += 1;
        }
        assert(self.state@ =~= old(self)@.user_cleared().state);
    }

    /// Prediction for the branch at `pc`: Some(taken?) on a hit, None on a
    /// miss (which predicts not-taken).
    pub fn predict(&self, pc: u32) -> (taken: Option<bool>)
        ensures
            taken == self@.prediction(pc),
    {
        proof {
            use_type_invariant(self);
        }
        let i: usize = Self::slot(pc);
        proof {
            lemma_state_bits(self.state@[i as int]);
        }
        if self.state[i] & BC_VALID != 0 && self.tags[i] == pc {
            Some(self.state[i] & BC_COUNTER >= 2)
        } else {
            None
        }
    }

    /// Record an executed branch: allocate on a taken miss (weakly taken),
    /// step the counter on a hit. Not-taken misses do not allocate.
    pub fn update(&mut self, pc: u32, taken: bool, user: bool)
        ensures
            final(self)@ == old(self)@.updated(pc, taken, user),
    {
        proof {
            use_type_invariant(&*self);
        }
        let i: usize = Self::slot(pc);
        let state: u8 = self.state[i];
        proof {
            lemma_state_bits(state);
        }
        let hit: bool = state & BC_VALID != 0 && self.tags[i] == pc;
        if hit {
            let counter: u8 = state & BC_COUNTER;
            let stepped: u8 = if taken {
                if counter < 3 {
                    counter + 1
                } else {
                    3
                }
            } else {
                counter.saturating_sub(1)
            };
            proof {
                lemma_replaced_counter(state, stepped);
            }
            self.state[i] = (state & !BC_COUNTER) | stepped;
        } else if taken {
            proof {
                lemma_new_state();
            }
            self.tags[i] = pc;
            self.state[i] = BC_VALID | (if user {
                BC_USER
            } else {
                0
            }) | 2;
        }
    }
}

/// The parts of a state byte by mask.
proof fn lemma_state_bits(state: u8)
    ensures
        (state & BC_VALID != 0) == is_valid(state),
        (state & BC_USER != 0) == is_user(state),
        state & BC_COUNTER == counter(state),
{
    assert((state & 0x04 != 0) == ((state / 4) % 2 == 1) && (state & 0x08 != 0) == ((state / 8) % 2
        == 1) && state & 0x03 == state % 4) by (bit_vector);
}

/// Replacing the counter keeps the rest of a state byte.
proof fn lemma_replaced_counter(state: u8, new: u8)
    requires
        new < 4,
    ensures
        (state & !BC_COUNTER) | new == state - counter(state) + new,
{
    assert((state & !0x03u8) | new == state - state % 4 + new) by (bit_vector)
        requires
            new < 4,
    ;
}

/// The state bytes of new entries.
proof fn lemma_new_state()
    ensures
        (BC_VALID | BC_USER) | 2 == allocated(true),
        (BC_VALID | 0) | 2 == allocated(false),
{
    assert((0x04u8 | 0x08u8) | 2 == 14 && (0x04u8 | 0u8) | 2 == 6) by (bit_vector);
}

} // verus!
