//! The opcode dispatch table: one slot per possible opcode byte value,
//! each either unassigned (unimplemented instruction) or bound to one of
//! the closed set of instruction kinds.

use vstd::prelude::*;

verus! {

/// Number of slots in the dispatch table: one per possible opcode byte.
pub const TABLE_SIZE: usize = 256;

/// Lowest of the eight contiguous move-immediate opcode bytes; the
/// destination register is encoded as `opcode - MOV_OPCODE_BASE`.
pub const MOV_OPCODE_BASE: u8 = 0xB8;

/// Opcode byte of the short relative jump.
pub const JMP_SHORT_OPCODE: u8 = 0xEB;

/// The closed set of instruction kinds this core implements.  Dispatch
/// goes through this tagged union rather than function references, so the
/// table stays a flat array of plain values.
#[derive(Clone, Copy, PartialEq, Eq, Debug)]
pub enum Instruction {
    /// Move a 32-bit immediate into the register encoded in the opcode
    /// byte (opcodes `0xB8..=0xBF`).
    MovR32Imm32,
    /// Short relative jump with a signed 8-bit displacement (opcode
    /// `0xEB`).
    ShortJump,
}

/// The handler registration policy: which instruction, if any, an opcode
/// byte is bound to.  Opcodes `0xB8..=0xBF` all map to the move-immediate
/// handler, `0xEB` to the short jump; the remaining 247 are unassigned.
pub open spec fn dispatch_spec(op: u8) -> Option<Instruction> {
    if MOV_OPCODE_BASE <= op <= MOV_OPCODE_BASE + 7 {
        Some(Instruction::MovR32Imm32)
    } else if op == JMP_SHORT_OPCODE {
        Some(Instruction::ShortJump)
    } else {
        None
    }
}

/// A 256-entry table mapping each opcode byte to an optional instruction
/// kind.  Built once before the loop starts and immutable thereafter.
pub struct DispatchTable {
    entries: Vec<Option<Instruction>>,
}

impl DispatchTable {
    /// The table holds exactly one entry per opcode byte value, and every
    /// entry agrees with the registration policy `dispatch_spec`.
    pub closed spec fn wf(&self) -> bool {
        &&& self.entries@.len() == TABLE_SIZE
        &&& forall|i: int| 0 <= i < TABLE_SIZE ==> self.entries@[i] == dispatch_spec(i as u8)
    }

    /// Build the table according to the registration policy.
    pub fn new() -> (t: DispatchTable)
        ensures
            t.wf(),
    {
        let mut entries: Vec<Option<Instruction>> = Vec::new();
        let mut i: usize = 0;
        while i < TABLE_SIZE
            invariant
                i <= TABLE_SIZE,
                entries@.len() == i,
                forall|j: int| 0 <= j < i ==> entries@[j] == dispatch_spec(j as u8),
            decreases TABLE_SIZE - i,
        {
            let op = i as u8;
            let e: Option<Instruction> = if MOV_OPCODE_BASE <= op && op <= MOV_OPCODE_BASE + 7 {
                Some(Instruction::MovR32Imm32)
            } else if op == JMP_SHORT_OPCODE {
                Some(Instruction::ShortJump)
            } else {
                None
            };
            entries.push(e);
            i = i + 1;
        }
        DispatchTable { entries }
    }

    /// Look an opcode byte up: the registered instruction kind, or `None`
    /// for an unimplemented opcode.
    pub fn lookup(&self, opcode: u8) -> (r: Option<Instruction>)
        requires
            self.wf(),
        ensures
            r == dispatch_spec(opcode),
    {
        self.entries[opcode as usize]
    }
}

} // verus!
