//! The fetch-decode-execute engine: the two instruction handlers, the
//! single-step transition, and the driver loop with its termination
//! policy.  The exec functions are specified against the spec-level
//! transition functions `step_spec` and `run_spec` over `MachineView`.

use vstd::prelude::*;

use crate::dispatch::DispatchTable;
use crate::dispatch::Instruction;
use crate::dispatch::MOV_OPCODE_BASE;
use crate::dispatch::dispatch_spec;
use crate::machine::EmuError;
use crate::machine::Emulator;
use crate::machine::MachineView;
use crate::machine::imm24_at;
use crate::machine::sign_extend8;

verus! {

/// Why the execution loop stopped in one of its two expected, non-fatal
/// terminal states.
#[derive(Clone, Copy, PartialEq, Eq, Debug)]
pub enum HaltReason {
    /// The dispatch table had no handler for the fetched opcode byte;
    /// carries the offending opcode and its address.
    UnimplementedOpcode { opcode: u8, addr: u32 },
    /// A handler left the instruction pointer at address zero, the
    /// convention for an intentional end-of-program signal.
    HaltedAtZero,
}

/// Outcome of executing a single instruction.
#[derive(Clone, Copy, PartialEq, Eq, Debug)]
pub enum StepResult {
    /// The handler ran and the machine may fetch again.
    Running,
    /// The loop must stop: one of the expected terminal states.
    Halted(HaltReason),
}

/// Outcome of driving the loop for a bounded number of steps.
#[derive(Clone, Copy, PartialEq, Eq, Debug)]
pub enum RunOutcome {
    /// One of the expected terminal states was reached.
    Halted(HaltReason),
    /// The instruction pointer left the memory range, so there was no
    /// byte to fetch; the loop condition ended the run.
    IpOutOfRange,
    /// The step bound was exhausted while the machine was still running.
    OutOfSteps,
}

/// `x` reduced modulo 2^32: the wraparound arithmetic of the 32-bit
/// instruction pointer and registers.
pub open spec fn wrap32(x: int) -> int {
    x % 0x1_0000_0000
}

/// Effect of the move-immediate handler on the machine: the register
/// encoded in the opcode byte receives the immediate at `eip + 1`, and
/// the instruction pointer advances past the 5 encoded bytes.
pub open spec fn mov_step(s: MachineView) -> MachineView {
    let reg = s.memory[s.eip as int] - MOV_OPCODE_BASE;
    MachineView {
        eip: wrap32(s.eip + 5) as u32,
        registers: s.registers.update(reg, imm24_at(s.memory, s.eip + 1) as u32),
        ..s
    }
}

/// Effect of the short-jump handler on the machine: the instruction
/// pointer becomes `eip + displacement + 2` modulo 2^32, where 2 is the
/// length of the jump's own encoding.
pub open spec fn jump_step(s: MachineView) -> MachineView {
    MachineView { eip: wrap32(s.eip + sign_extend8(s.memory[s.eip as int + 1]) + 2) as u32, ..s }
}

/// Whether a handler's step leaves the machine running or halted: a
/// resulting instruction pointer of zero signals end of program.
pub open spec fn step_outcome(s: MachineView) -> StepResult {
    if s.eip == 0 {
        StepResult::Halted(HaltReason::HaltedAtZero)
    } else {
        StepResult::Running
    }
}

/// One transition of the execution state machine, for a machine whose
/// instruction pointer indexes memory: fetch the opcode byte at `eip`,
/// look it up, and either halt on a miss, fail fatally when the handler's
/// operand bytes lie beyond memory, or apply the handler's effect.
pub open spec fn step_spec(s: MachineView) -> (MachineView, Result<StepResult, EmuError>) {
    let op = s.memory[s.eip as int];
    match dispatch_spec(op) {
        None => (
            s,
            Ok(StepResult::Halted(HaltReason::UnimplementedOpcode { opcode: op, addr: s.eip })),
        ),
        Some(Instruction::MovR32Imm32) => {
            if s.eip + 3 < s.memory.len() {
                let s2 = mov_step(s);
                (s2, Ok(step_outcome(s2)))
            } else {
                (s, Err(EmuError::OutOfBoundsAccess { addr: s.memory.len() as u64 }))
            }
        },
        Some(Instruction::ShortJump) => {
            if s.eip + 1 < s.memory.len() {
                let s2 = jump_step(s);
                (s2, Ok(step_outcome(s2)))
            } else {
                (s, Err(EmuError::OutOfBoundsAccess { addr: s.memory.len() as u64 }))
            }
        },
    }
}

/// The execution loop as a function of the machine state and a step
/// bound: while the instruction pointer indexes memory and steps remain,
/// take one `step_spec` transition; stop on a halt or a fatal error.
pub open spec fn run_spec(s: MachineView, fuel: nat) -> (
    MachineView,
    Result<RunOutcome, EmuError>,
)
    decreases fuel,
{
    if s.eip >= s.memory.len() {
        (s, Ok(RunOutcome::IpOutOfRange))
    } else if fuel == 0 {
        (s, Ok(RunOutcome::OutOfSteps))
    } else {
        let stepped = step_spec(s);
        match stepped.1 {
            Err(e) => (stepped.0, Err(e)),
            Ok(StepResult::Halted(h)) => (stepped.0, Ok(RunOutcome::Halted(h))),
            Ok(StepResult::Running) => run_spec(stepped.0, (fuel - 1) as nat),
        }
    }
}

/// `wrap32` written without the modulo, for arguments no further than one
/// span of 2^32 outside the 32-bit range; every wraparound this core
/// performs stays within that window.
pub proof fn lemma_wrap32_window(x: int)
    requires
        -0x1_0000_0000 <= x < 0x2_0000_0000,
    ensures
        wrap32(x) == if x < 0 {
            x + 0x1_0000_0000
        } else if x < 0x1_0000_0000 {
            x
        } else {
            x - 0x1_0000_0000
        },
{
    let m = 0x1_0000_0000int;
    if x < 0 {
        vstd::arithmetic::div_mod::lemma_mod_sub_multiples_vanish(x + m, m);
        vstd::arithmetic::div_mod::lemma_small_mod((x + m) as nat, m as nat);
    } else if x < m {
        vstd::arithmetic::div_mod::lemma_small_mod(x as nat, m as nat);
    } else {
        vstd::arithmetic::div_mod::lemma_mod_add_multiples_vanish(x - m, m);
        vstd::arithmetic::div_mod::lemma_small_mod((x - m) as nat, m as nat);
    }
}

impl Emulator {
    /// Handler for opcodes `0xB8..=0xBF`: move a 32-bit immediate into
    /// the register encoded as `opcode - 0xB8`, then advance the
    /// instruction pointer past the 5 encoded bytes (with the 32-bit
    /// wraparound used throughout this core).  Flags are not affected.
    pub fn mov_r32_imm32(&mut self)
        requires
            old(self)@.wf(),
            old(self)@.eip + 3 < old(self)@.memory.len(),
            MOV_OPCODE_BASE <= old(self)@.memory[old(self)@.eip as int] <= MOV_OPCODE_BASE + 7,
        ensures
            final(self)@.wf(),
            final(self)@ == mov_step(old(self)@),
    {
        let reg = self.get_code8(0) - MOV_OPCODE_BASE;
        let imm = self.get_code32(1);
        self.registers.set(reg as usize, imm);
        self.eip = self.eip.wrapping_add(5);
        proof {
            lemma_wrap32_window(old(self)@.eip + 5);
            assert(self@ =~= mov_step(old(self)@));
        }
    }

    /// Handler for opcode `0xEB`: add the signed 8-bit displacement at
    /// `eip + 1` plus the instruction's own length of 2 to the
    /// instruction pointer, modulo 2^32.  The loop adds nothing further
    /// after a jump.
    pub fn short_jump(&mut self)
        requires
            old(self)@.wf(),
            old(self)@.eip + 1 < old(self)@.memory.len(),
        ensures
            final(self)@.wf(),
            final(self)@ == jump_step(old(self)@),
    {
        let diff = self.get_sign_code8(1);
        let displacement: i32 = diff as i32;
        self.eip = self.eip.wrapping_add_signed(displacement + 2);
        proof {
            lemma_wrap32_window(
                old(self)@.eip + sign_extend8(old(self)@.memory[old(self)@.eip as int + 1]) + 2,
            );
            assert(self@ =~= jump_step(old(self)@));
        }
    }

    /// One transition of the execution state machine: fetch the opcode
    /// byte at `eip`, look it up in the dispatch table, and run the
    /// handler or halt.  A lookup miss and a resulting instruction
    /// pointer of zero are the two expected halts; a handler whose
    /// operand bytes would lie beyond memory is a fatal error and the
    /// machine is left unchanged.
    pub fn step(&mut self, table: &DispatchTable) -> (r: Result<StepResult, EmuError>)
        requires
            old(self)@.wf(),
            table.wf(),
            old(self)@.eip < old(self)@.memory.len(),
        ensures
            final(self)@.wf(),
            final(self)@ == step_spec(old(self)@).0,
            r == step_spec(old(self)@).1,
    {
        let op = self.get_code8(0);
        match table.lookup(op) {
            None => Ok(
                StepResult::Halted(HaltReason::UnimplementedOpcode { opcode: op, addr: self.eip }),
            ),
            Some(Instruction::MovR32Imm32) => {
                if (self.eip as u64) + 3 < self.memory.len() as u64 {
                    self.mov_r32_imm32();
                    if self.eip == 0 {
                        Ok(StepResult::Halted(HaltReason::HaltedAtZero))
                    } else {
                        Ok(StepResult::Running)
                    }
                } else {
                    Err(EmuError::OutOfBoundsAccess { addr: self.memory.len() as u64 })
                }
            },
            Some(Instruction::ShortJump) => {
                if (self.eip as u64) + 1 < self.memory.len() as u64 {
                    self.short_jump();
                    if self.eip == 0 {
                        Ok(StepResult::Halted(HaltReason::HaltedAtZero))
                    } else {
                        Ok(StepResult::Running)
                    }
                } else {
                    Err(EmuError::OutOfBoundsAccess { addr: self.memory.len() as u64 })
                }
            },
        }
    }

    /// Drive the fetch-decode-execute loop for at most `max_steps`
    /// instructions: the verified form of the emulator's main loop.  The
    /// loop itself recovers nothing: it ends on one of the two expected
    /// halts, on the instruction pointer leaving memory, on a fatal
    /// out-of-bounds operand read, or when the step bound runs out.
    #[verifier::loop_isolation(false)]
    pub fn run(&mut self, table: &DispatchTable, max_steps: u64) -> (r: Result<
        RunOutcome,
        EmuError,
    >)
        requires
            old(self)@.wf(),
            table.wf(),
        ensures
            final(self)@.wf(),
            final(self)@ == run_spec(old(self)@, max_steps as nat).0,
            r == run_spec(old(self)@, max_steps as nat).1,
    {
        let ghost goal = run_spec(old(self)@, max_steps as nat);
        let mut fuel: u64 = max_steps;
        loop
            invariant
                self@.wf(),
                table.wf(),
                run_spec(self@, fuel as nat) == goal,
            decreases fuel,
        {
            if (self.eip as u64) >= (self.memory.len() as u64) {
                return Ok(RunOutcome::IpOutOfRange);
            }
            if fuel == 0 {
                return Ok(RunOutcome::OutOfSteps);
            }
            let stepped = self.step(table);
            fuel = fuel - 1;
            match stepped {
                Err(e) => return Err(e),
                Ok(StepResult::Halted(h)) => return Ok(RunOutcome::Halted(h)),
                Ok(StepResult::Running) => (),
            }
        }
    }
}

} // verus!
