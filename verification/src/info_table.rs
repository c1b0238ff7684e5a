//! Timing entries of all opcodes, by table and one by one.

use vstd::prelude::*;

use crate::classify;
use crate::classify::classify_060_opcode;
use crate::entry_060::Info060;
use crate::shim::OnceLock;

verus! {

/// `table` holds the packed timing entry of every opcode word.
pub open spec fn is_info_table(table: Seq<u16>) -> bool {
    &&& table.len() == 0x1_0000
    &&& forall|op: u16| Info060(#[trigger] table[op as int])@ == classify::opcode_timing(op)
}

/// Classify every opcode word.
pub fn build_info_table() -> (table: Vec<u16>)
    ensures
        is_info_table(table@),
{
    let mut table: Vec<u16> = vec![0u16; 0x1_0000];
    let mut op: usize = 0;
    while op < 0x1_0000
        invariant
            op <= 0x1_0000,
            table@.len() == 0x1_0000,
            forall|done: u16|
                done < op ==> Info060(#[trigger] table[done as int])@
                    == classify::opcode_timing(done),
        decreases 0x1_0000 - op,
    {
        table[op] = classify_060_opcode(op as u16).0;
        op += 1;
    }
    table
}

/// Look up the packed timing entry for an opcode. It is the entry at `op` of
/// every [`InfoTable060`].
pub fn info_060(op: u16) -> (info: Info060)
    ensures
        info@ == classify::opcode_timing(op),
{
    classify_060_opcode(op)
}

/// The 64K classification table, built when it is first asked for. It is a
/// pure function of the opcode word, so it is no part of any saved state.
#[derive(Debug)]
pub struct InfoTable060 {
    slot: OnceLock<Vec<u16>>,
}

impl InfoTable060 {
    /// The slot is empty or holds the table.
    pub closed spec fn wf(&self) -> bool {
        self.slot@ matches Some(table) ==> is_info_table(table@)
    }

    /// The table was built.
    pub closed spec fn is_built(&self) -> bool {
        self.slot@ is Some
    }

    /// A table that is not built yet.
    pub fn new() -> (table: Self)
        ensures
            table.wf(),
            !table.is_built(),
    {
        InfoTable060 { slot: OnceLock::new() }
    }

    /// The packed timing entries, in the order of the opcode words. A table
    /// that was built is not built again.
    pub fn info_table(&mut self) -> (table: &Vec<u16>)
        requires
            old(self).wf(),
        ensures
            is_info_table(table@),
            final(self).wf(),
            final(self).is_built(),
            old(self).is_built() ==> *final(self) == *old(self),
    {
        self.slot.get_or_init(build_info_table)
    }

    /// Look up the packed timing entry for an opcode.
    pub fn lookup(&mut self, op: u16) -> (info: Info060)
        requires
            old(self).wf(),
        ensures
            info@ == classify::opcode_timing(op),
            final(self).wf(),
            final(self).is_built(),
            old(self).is_built() ==> *final(self) == *old(self),
    {
        let table: &Vec<u16> = self.info_table();
        Info060(table[op as usize])
    }
}

} // verus!
