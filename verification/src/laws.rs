//! The laws of the instruction set: general properties of the spec-level
//! transition functions `step_spec` and `run_spec`, proved once and for
//! all machine states.  Each exec function's contract ties it to those
//! transition functions, so these laws carry over to the running code.

use vstd::prelude::*;

use crate::dispatch::JMP_SHORT_OPCODE;
use crate::dispatch::MOV_OPCODE_BASE;
use crate::dispatch::dispatch_spec;
use crate::machine::EmuError;
use crate::machine::MachineView;
use crate::machine::le32_at;
use crate::machine::sign_extend8;
use crate::exec::HaltReason;
use crate::exec::RunOutcome;
use crate::exec::StepResult;
use crate::exec::run_spec;
use crate::exec::step_outcome;
use crate::exec::step_spec;
use crate::exec::lemma_wrap32_window;
use crate::exec::wrap32;

verus! {

/// Law: executing any of the eight move-immediate instructions
/// (opcode bytes `0xB8..=0xBF`, full 5-byte encoding in memory) stores
/// the 32-bit little-endian immediate, truncated to its low 24 bits by
/// the decoder's 3-byte read, into the register selected by
/// `opcode - 0xB8`, advances the instruction pointer by exactly 5, keeps
/// running, and touches neither memory nor the flags.
pub proof fn lemma_mov_imm_effect(s: MachineView)
    requires
        s.wf(),
        MOV_OPCODE_BASE <= s.memory[s.eip as int] <= MOV_OPCODE_BASE + 7,
        s.eip + 4 < s.memory.len(),
        s.eip + 5 <= u32::MAX,
    ensures
        step_spec(s).1 == Ok::<StepResult, EmuError>(StepResult::Running),
        step_spec(s).0.eip == s.eip + 5,
        step_spec(s).0.registers == s.registers.update(
            s.memory[s.eip as int] - MOV_OPCODE_BASE,
            (le32_at(s.memory, s.eip + 1) % 0x100_0000) as u32,
        ),
        step_spec(s).0.memory == s.memory,
        step_spec(s).0.eflags == s.eflags,
{
    lemma_wrap32_window(s.eip + 5);
    let a = s.eip + 1;
    let imm24 = s.memory[a] + 0x100 * s.memory[a + 1] + 0x1_0000 * s.memory[a + 2];
    vstd::arithmetic::div_mod::lemma_mod_multiples_vanish(
        s.memory[a + 3] as int,
        imm24,
        0x100_0000,
    );
    vstd::arithmetic::div_mod::lemma_small_mod(imm24 as nat, 0x100_0000);
    assert(le32_at(s.memory, a) % 0x100_0000 == imm24);
}

/// Law: executing the short jump (opcode `0xEB`) with signed displacement
/// `d` at instruction address `a` sets the instruction pointer to exactly
/// `(a + d + 2) mod 2^32` — wrapping included — leaves every register,
/// the flags and memory unchanged, and halts only when that target is
/// address zero.
pub proof fn lemma_short_jump_effect(s: MachineView)
    requires
        s.wf(),
        s.memory[s.eip as int] == JMP_SHORT_OPCODE,
        s.eip + 1 < s.memory.len(),
    ensures
        step_spec(s).0.eip == wrap32(s.eip + sign_extend8(s.memory[s.eip as int + 1]) + 2),
        step_spec(s).0.registers == s.registers,
        step_spec(s).0.memory == s.memory,
        step_spec(s).0.eflags == s.eflags,
        step_spec(s).1 == Ok::<StepResult, EmuError>(step_outcome(step_spec(s).0)),
{
    lemma_wrap32_window(s.eip + sign_extend8(s.memory[s.eip as int + 1]) + 2);
}

/// Law: fetching an opcode byte with no handler registered — opcode
/// `0x00` of all-zero memory included — halts the machine unchanged, with
/// the offending opcode and its address reported.
pub proof fn lemma_unassigned_opcode_halts(s: MachineView)
    requires
        dispatch_spec(s.memory[s.eip as int]) is None,
    ensures
        step_spec(s) == (
            s,
            Ok::<StepResult, EmuError>(
                StepResult::Halted(
                    HaltReason::UnimplementedOpcode {
                        opcode: s.memory[s.eip as int],
                        addr: s.eip,
                    },
                ),
            ),
        ),
{
}

/// Law: a run that fetches a zero byte — the first byte past a loaded
/// program, when the rest of memory is zero-initialized — ends at once in
/// the `UnimplementedOpcode` halt at that address, since opcode `0x00` is
/// unassigned.
pub proof fn lemma_zero_byte_halts_run(s: MachineView, fuel: nat)
    requires
        s.eip < s.memory.len(),
        s.memory[s.eip as int] == 0,
        fuel >= 1,
    ensures
        run_spec(s, fuel) == (
            s,
            Ok::<RunOutcome, EmuError>(
                RunOutcome::Halted(
                    HaltReason::UnimplementedOpcode { opcode: 0, addr: s.eip },
                ),
            ),
        ),
{
    lemma_unassigned_opcode_halts(s);
}

/// Law: a short jump with displacement `-2` (encoded `0xEB 0xFE`) returns
/// the instruction pointer to its own address and changes nothing else:
/// the infinite-loop encoding.  The step halts only when that address is
/// zero — the halt convention is address-zero-specific.
pub proof fn lemma_jump_back_two_is_self(s: MachineView)
    requires
        s.wf(),
        s.memory[s.eip as int] == JMP_SHORT_OPCODE,
        s.eip + 1 < s.memory.len(),
        s.memory[s.eip as int + 1] == 0xFE,
    ensures
        step_spec(s).0 == s,
        step_spec(s).1 == Ok::<StepResult, EmuError>(
            if s.eip == 0 {
                StepResult::Halted(HaltReason::HaltedAtZero)
            } else {
                StepResult::Running
            },
        ),
{
    lemma_wrap32_window(s.eip as int);
    assert(step_spec(s).0 =~= s);
}

/// Law: a machine whose next step leaves it unchanged and running — a
/// jump to its own non-zero address — never halts on its own: the loop is
/// only ever ended from outside by the step bound.  The halt-at-zero
/// convention detects address zero, not infinite loops.
pub proof fn lemma_self_loop_never_halts(s: MachineView, fuel: nat)
    requires
        s.eip < s.memory.len(),
        step_spec(s) == (s, Ok::<StepResult, EmuError>(StepResult::Running)),
    ensures
        run_spec(s, fuel) == (s, Ok::<RunOutcome, EmuError>(RunOutcome::OutOfSteps)),
    decreases fuel,
{
    if fuel == 0 {
    } else {
        lemma_self_loop_never_halts(s, (fuel - 1) as nat);
    }
}

/// Law: the `0xEB 0xFE` self-jump at any non-zero address keeps a run
/// from ever terminating on its own, whatever the step bound.
pub proof fn lemma_jump_back_two_loops_forever(s: MachineView, fuel: nat)
    requires
        s.wf(),
        s.eip != 0,
        s.eip + 1 < s.memory.len(),
        s.memory[s.eip as int] == JMP_SHORT_OPCODE,
        s.memory[s.eip as int + 1] == 0xFE,
    ensures
        run_spec(s, fuel) == (s, Ok::<RunOutcome, EmuError>(RunOutcome::OutOfSteps)),
{
    lemma_jump_back_two_is_self(s);
    lemma_self_loop_never_halts(s, fuel);
}

} // verus!

