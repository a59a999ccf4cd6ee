//! The register file: eight general-purpose registers, the program counter
//! and the condition-flag register, which always holds exactly one of the
//! three flags.

use vstd::prelude::*;
use crate::isa::{FL_NEG, FL_POS, FL_ZRO, PC_START};

verus! {

/// The flag that `update_flags` assigns for a register holding `v`: zero,
/// negative (bit 15 set) or positive.
pub open spec fn flag_of(v: u16) -> u16 {
    if v == 0 {
        FL_ZRO
    } else if (v >> 15) & 1 == 1 {
        FL_NEG
    } else {
        FL_POS
    }
}

/// True of the three values the condition register may hold.
pub open spec fn valid_flag(f: u16) -> bool {
    f == FL_POS || f == FL_ZRO || f == FL_NEG
}

/// The flag assigned for `v` sorts the 16-bit values into the three classes
/// zero, negative (top bit set, value at least 0x8000) and positive.
pub proof fn lemma_flag_classes(v: u16)
    ensures
        valid_flag(flag_of(v)),
        (flag_of(v) == FL_ZRO) <==> (v == 0),
        (flag_of(v) == FL_NEG) <==> (v >= 0x8000),
        (flag_of(v) == FL_POS) <==> (0 < v < 0x8000),
{
    assert(((v >> 15) & 1 == 1) <==> (v >= 0x8000)) by (bit_vector);
}

/// Eight general registers, the program counter and the condition flags.
pub struct Registers {
    /// The general-purpose registers R0..R7.
    pub gpr: Vec<u16>,
    /// The program counter.
    pub pc: u16,
    /// The condition-flag register; always one of the three flag values.
    pub cond: u16,
}

impl Registers {
    /// The register file is well formed: eight general registers and a
    /// single valid condition flag.
    pub open spec fn wf(self) -> bool {
        &&& self.gpr@.len() == 8
        &&& valid_flag(self.cond)
    }

    /// A fresh register file: all general registers zero, the program
    /// counter at the entry address, the condition flag reflecting the
    /// all-zero registers.
    pub fn new() -> (r: Registers)
        ensures
            r.wf(),
            r.gpr@ == Seq::new(8, |i: int| 0u16),
            r.pc == PC_START,
            r.cond == FL_ZRO,
    {
        let mut gpr: Vec<u16> = Vec::new();
        while gpr.len() < 8
            invariant
                gpr@.len() <= 8,
                forall|i: int| 0 <= i < gpr@.len() ==> gpr@[i] == 0u16,
            decreases 8 - gpr@.len(),
        {
            gpr.push(0);
        }
        proof {
            assert(gpr@ =~= Seq::new(8, |i: int| 0u16));
        }
        Registers { gpr, pc: PC_START, cond: FL_ZRO }
    }

    /// Reads general register `r`.
    pub fn get(&self, r: u16) -> (v: u16)
        requires
            self.wf(),
            r < 8,
        ensures
            v == self.gpr@[r as int],
    {
        self.gpr[r as usize]
    }

    /// Writes `v` to general register `r`; the flags are not touched.
    pub fn set(&mut self, r: u16, v: u16)
        requires
            old(self).wf(),
            r < 8,
        ensures
            final(self).wf(),
            final(self).gpr@ == old(self).gpr@.update(r as int, v),
            final(self).pc == old(self).pc,
            final(self).cond == old(self).cond,
    {
        self.gpr.set(r as usize, v);
    }

    /// Sets the condition flags from the current value of general register
    /// `r`: zero, negative if bit 15 is set, positive otherwise.
    pub fn update_flags(&mut self, r: u16)
        requires
            old(self).wf(),
            r < 8,
        ensures
            final(self).wf(),
            final(self).cond == flag_of(old(self).gpr@[r as int]),
            final(self).gpr@ == old(self).gpr@,
            final(self).pc == old(self).pc,
    {
        let v = self.gpr[r as usize];
        if v == 0 {
            self.cond = FL_ZRO;
        } else if (v >> 15) & 1 == 1 {
            self.cond = FL_NEG;
        } else {
            self.cond = FL_POS;
        }
    }
}

} // verus!
