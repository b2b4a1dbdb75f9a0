use x86emu::dispatch::DispatchTable;
use x86emu::dispatch::Instruction;
use x86emu::exec::HaltReason;
use x86emu::exec::RunOutcome;
use x86emu::exec::StepResult;
use x86emu::machine::EmuError;
use x86emu::machine::Emulator;
use x86emu::machine::REG_COUNT;
use x86emu::machine::Register;

const REGISTERS_IN_ORDER: [Register; 8] = [
    Register::EAX,
    Register::ECX,
    Register::EDX,
    Register::EBX,
    Register::ESP,
    Register::EBP,
    Register::ESI,
    Register::EDI,
];

fn machine_with_program(size: usize, entry: u32, load_at: usize, program: &[u8]) -> Emulator {
    let mut emu = Emulator::new(size, entry, 0x7C00);
    emu.write_bytes(load_at, &program.to_vec()).expect("program must fit");
    emu
}

#[test]
fn new_machine_is_zeroed_except_esp() {
    let emu = Emulator::new(64, 3, 0xABCD_1234);
    assert_eq!(emu.eip, 3);
    assert_eq!(emu.eflags, 0);
    assert_eq!(emu.get_register(Register::ESP), 0xABCD_1234);
    for r in REGISTERS_IN_ORDER {
        if r != Register::ESP {
            assert_eq!(emu.get_register(r), 0);
        }
    }
    for a in 0..64u32 {
        assert_eq!(emu.read_byte(a), 0);
    }
}

#[test]
fn register_indices_follow_declaration_order() {
    for (i, r) in REGISTERS_IN_ORDER.iter().enumerate() {
        assert_eq!(r.index(), i);
    }
    assert_eq!(REG_COUNT, 8);
}

#[test]
fn set_register_changes_only_its_slot() {
    let mut emu = Emulator::new(8, 0, 0);
    emu.set_register(Register::EBX, 77);
    for r in REGISTERS_IN_ORDER {
        let expected = if r == Register::EBX { 77 } else { 0 };
        assert_eq!(emu.get_register(r), expected);
    }
}

#[test]
fn dispatch_table_maps_exactly_the_assigned_opcodes() {
    let table = DispatchTable::new();
    let mut assigned = 0;
    for op in 0..=255u8 {
        let entry = table.lookup(op);
        if (0xB8..=0xBF).contains(&op) {
            assert_eq!(entry, Some(Instruction::MovR32Imm32));
            assigned += 1;
        } else if op == 0xEB {
            assert_eq!(entry, Some(Instruction::ShortJump));
            assigned += 1;
        } else {
            assert_eq!(entry, None);
        }
    }
    assert_eq!(assigned, 9);
}

#[test]
fn decoder_reads_relative_to_eip() {
    let emu = machine_with_program(32, 4, 4, &[0x10, 0x7F, 0x80, 0xFE, 0xFF]);
    assert_eq!(emu.get_code8(0), 0x10);
    assert_eq!(emu.get_code8(2), 0x80);
    assert_eq!(emu.get_sign_code8(1), 127);
    assert_eq!(emu.get_sign_code8(2), -128);
    assert_eq!(emu.get_sign_code8(3), -2);
    assert_eq!(emu.get_sign_code8(4), -1);
}

#[test]
fn decoder_u32_assembles_three_bytes_little_endian() {
    let emu = machine_with_program(32, 0, 0, &[0x78, 0x56, 0x34, 0x12]);
    // The most significant byte (0x12) is deliberately left out.
    assert_eq!(emu.get_code32(0), 0x0034_5678);
}

#[test]
fn mov_imm_writes_each_register_and_advances_by_five() {
    let table = DispatchTable::new();
    for (i, r) in REGISTERS_IN_ORDER.iter().enumerate() {
        let opcode = 0xB8 + i as u8;
        let mut emu = machine_with_program(64, 0, 0, &[opcode, 0x78, 0x56, 0x34, 0x12]);
        let outcome = emu.step(&table).expect("in-bounds step");
        assert_eq!(outcome, StepResult::Running);
        // Low 24 bits of the immediate 0x12345678: the decoder's 3-byte read.
        assert_eq!(emu.get_register(*r), 0x0034_5678);
        assert_eq!(emu.eip, 5);
        assert_eq!(emu.eflags, 0);
        for other in REGISTERS_IN_ORDER {
            if other != *r && other != Register::ESP {
                assert_eq!(emu.get_register(other), 0);
            }
        }
    }
}

#[test]
fn short_jump_forward() {
    let table = DispatchTable::new();
    let mut emu = machine_with_program(64, 10, 10, &[0xEB, 0x05]);
    let outcome = emu.step(&table).expect("in-bounds step");
    assert_eq!(outcome, StepResult::Running);
    // 10 + 5 + 2
    assert_eq!(emu.eip, 17);
}

#[test]
fn short_jump_negative_wraps_modulo_two_to_the_32() {
    let table = DispatchTable::new();
    // Displacement -5 at address 0: 0 - 5 + 2 wraps to 0xFFFF_FFFD.
    let mut emu = machine_with_program(64, 0, 0, &[0xEB, 0xFB]);
    let outcome = emu.step(&table).expect("in-bounds step");
    assert_eq!(outcome, StepResult::Running);
    assert_eq!(emu.eip, 0xFFFF_FFFD);
}

#[test]
fn zero_memory_past_program_halts_unimplemented_at_first_free_byte() {
    let table = DispatchTable::new();
    let mut emu = machine_with_program(64, 0, 0, &[0xB8, 0x01, 0x00, 0x00, 0x00]);
    let outcome = emu.run(&table, 100).expect("no out-of-bounds access");
    assert_eq!(
        outcome,
        RunOutcome::Halted(HaltReason::UnimplementedOpcode { opcode: 0, addr: 5 })
    );
    assert_eq!(emu.get_register(Register::EAX), 1);
}

#[test]
fn jump_back_two_returns_to_its_own_address() {
    let table = DispatchTable::new();
    let mut emu = machine_with_program(64, 10, 10, &[0xEB, 0xFE]);
    let outcome = emu.step(&table).expect("in-bounds step");
    assert_eq!(outcome, StepResult::Running);
    assert_eq!(emu.eip, 10);
}

#[test]
fn jump_to_address_zero_halts_at_zero() {
    let table = DispatchTable::new();
    // Self-jump at address 0 lands on 0, the end-of-program signal.
    let mut emu = machine_with_program(64, 0, 0, &[0xEB, 0xFE]);
    let outcome = emu.step(&table).expect("in-bounds step");
    assert_eq!(outcome, StepResult::Halted(HaltReason::HaltedAtZero));
    assert_eq!(emu.eip, 0);
}

#[test]
fn run_reaches_halt_at_zero_through_a_real_jump() {
    let table = DispatchTable::new();
    // At address 2: displacement -4, so 2 - 4 + 2 == 0.
    let mut emu = machine_with_program(64, 2, 2, &[0xEB, 0xFC]);
    let outcome = emu.run(&table, 10).expect("no out-of-bounds access");
    assert_eq!(outcome, RunOutcome::Halted(HaltReason::HaltedAtZero));
}

#[test]
fn non_zero_cycling_program_is_only_stopped_by_the_step_bound() {
    let table = DispatchTable::new();
    // Move 1 into EAX, then jump back 2: an intentional infinite loop at 5.
    let program = [0xB8, 0x01, 0x00, 0x00, 0x00, 0xEB, 0xFE];
    for bound in [1u64, 2, 3, 1000] {
        let mut emu = machine_with_program(64, 0, 0, &program);
        let outcome = emu.run(&table, bound).expect("no out-of-bounds access");
        if bound == 1 {
            // Only the move ran so far.
            assert_eq!(outcome, RunOutcome::OutOfSteps);
            assert_eq!(emu.eip, 5);
        } else {
            // However large the bound, the loop never halts on its own.
            assert_eq!(outcome, RunOutcome::OutOfSteps);
            assert_eq!(emu.eip, 5);
            assert_eq!(emu.get_register(Register::EAX), 1);
        }
    }
}

#[test]
fn run_stops_when_eip_leaves_memory() {
    let table = DispatchTable::new();
    // Jump from 0 to 8 in a 6-byte memory: nothing left to fetch.
    let mut emu = machine_with_program(6, 0, 0, &[0xEB, 0x06]);
    let outcome = emu.run(&table, 10).expect("no out-of-bounds access");
    assert_eq!(outcome, RunOutcome::IpOutOfRange);
    assert_eq!(emu.eip, 8);
}

#[test]
fn mov_operands_past_memory_end_are_a_fatal_error() {
    let table = DispatchTable::new();
    // Opcode at address 4 of a 6-byte memory: immediate bytes 5..9 missing.
    let mut emu = machine_with_program(6, 4, 4, &[0xB8]);
    let r = emu.step(&table);
    assert_eq!(r, Err(EmuError::OutOfBoundsAccess { addr: 6 }));
    assert_eq!(emu.eip, 4);
}

#[test]
fn jump_displacement_past_memory_end_is_a_fatal_error() {
    let table = DispatchTable::new();
    let mut emu = machine_with_program(1, 0, 0, &[0xEB]);
    let r = emu.step(&table);
    assert_eq!(r, Err(EmuError::OutOfBoundsAccess { addr: 1 }));
    assert_eq!(emu.eip, 0);
}

#[test]
fn loading_into_zero_sized_memory_fails_not_truncates() {
    let mut emu = Emulator::new(0, 0, 0);
    let r = emu.write_bytes(0, &vec![0x90]);
    assert_eq!(r, Err(EmuError::OutOfBoundsAccess { addr: 0 }));
}

#[test]
fn loading_past_the_end_fails_and_writes_nothing() {
    let mut emu = Emulator::new(10, 0, 0);
    let r = emu.write_bytes(8, &vec![1, 2, 3, 4, 5]);
    assert_eq!(r, Err(EmuError::OutOfBoundsAccess { addr: 10 }));
    for a in 0..10u32 {
        assert_eq!(emu.read_byte(a), 0);
    }
    let r2 = emu.write_bytes(12, &vec![1]);
    assert_eq!(r2, Err(EmuError::OutOfBoundsAccess { addr: 12 }));
}

#[test]
fn loading_writes_exactly_the_given_bytes() {
    let mut emu = Emulator::new(8, 0, 0);
    assert_eq!(emu.write_bytes(3, &vec![9, 8, 7]), Ok(()));
    let expected = [0, 0, 0, 9, 8, 7, 0, 0];
    for a in 0..8u32 {
        assert_eq!(emu.read_byte(a), expected[a as usize]);
    }
}
