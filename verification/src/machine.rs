//! The machine model: register file, flags, instruction pointer, memory,
//! and the stateless instruction-decoder helpers that read code bytes
//! relative to the instruction pointer.

use vstd::prelude::*;

verus! {

/// Number of general-purpose registers: the cardinality of the closed
/// register enumeration below.
pub const REG_COUNT: usize = 8;

/// The closed set of 32-bit general-purpose registers, in x86 declaration
/// order.  The set is fixed at compile time; no identifier is added or
/// removed at runtime.
#[derive(Clone, Copy, PartialEq, Eq, Debug)]
pub enum Register {
    EAX,
    ECX,
    EDX,
    EBX,
    ESP,
    EBP,
    ESI,
    EDI,
}

/// Position of a register in declaration order; the index of its slot in
/// the register file.
pub open spec fn reg_index(r: Register) -> int {
    match r {
        Register::EAX => 0,
        Register::ECX => 1,
        Register::EDX => 2,
        Register::EBX => 3,
        Register::ESP => 4,
        Register::EBP => 5,
        Register::ESI => 6,
        Register::EDI => 7,
    }
}

impl Register {
    /// Executable counterpart of `reg_index`.
    pub fn index(self) -> (i: usize)
        ensures
            i == reg_index(self),
            i < REG_COUNT,
    {
        match self {
            Register::EAX => 0,
            Register::ECX => 1,
            Register::EDX => 2,
            Register::EBX => 3,
            Register::ESP => 4,
            Register::EBP => 5,
            Register::ESI => 6,
            Register::EDI => 7,
        }
    }
}

/// Mathematical view of a machine: the abstract state every contract in
/// this crate speaks about.
#[verifier::ext_equal]
pub ghost struct MachineView {
    /// Instruction pointer: address of the next opcode byte to fetch.
    pub eip: u32,
    /// Flags register, reserved for condition bits; no handler in this
    /// minimal core writes it.
    pub eflags: u32,
    /// One 32-bit value per register of the closed enumeration, in
    /// declaration order.
    pub registers: Seq<u32>,
    /// The entire address space as a byte sequence.
    pub memory: Seq<u8>,
}

impl MachineView {
    /// Well-formedness: the register file has exactly one slot per
    /// register, and memory does not exceed the 32-bit address space
    /// (anything beyond 2^32 bytes would be unreachable through `eip`).
    pub open spec fn wf(self) -> bool {
        &&& self.registers.len() == REG_COUNT
        &&& self.memory.len() <= 0x1_0000_0000
    }
}

/// Reason a memory access or program load fails.  Both are fatal: the
/// execution loop never recovers from either.
#[derive(Clone, Copy, PartialEq, Eq, Debug)]
pub enum EmuError {
    /// A read or write addressed a byte at or beyond the memory capacity;
    /// `addr` is the lowest out-of-range address the access needed.
    OutOfBoundsAccess { addr: u64 },
    /// The program image could not be placed into memory.
    LoadFailure,
}

/// A machine instance: it exclusively owns its register file, flags,
/// instruction pointer and memory.  Only the instruction handlers and the
/// execution loop in `exec` mutate this state once the program is loaded.
pub struct Emulator {
    /// Instruction pointer.
    pub eip: u32,
    /// Flags register.
    pub eflags: u32,
    /// Register file, indexed by `reg_index`; always `REG_COUNT` entries.
    pub registers: Vec<u32>,
    /// Flat, byte-addressable memory of fixed capacity.
    pub memory: Vec<u8>,
}

impl View for Emulator {
    type V = MachineView;

    open spec fn view(&self) -> MachineView {
        MachineView {
            eip: self.eip,
            eflags: self.eflags,
            registers: self.registers@,
            memory: self.memory@,
        }
    }
}

/// The byte reinterpreted as a signed two's-complement quantity, widened
/// to a mathematical integer.
pub open spec fn sign_extend8(b: u8) -> int {
    if b < 0x80 {
        b as int
    } else {
        b - 0x100
    }
}

/// The immediate assembled little-endian from the three bytes at
/// `a`, `a + 1`, `a + 2`.  The decoder's 32-bit read deliberately leaves
/// the most significant byte zero (see `Emulator::get_code32`).
pub open spec fn imm24_at(mem: Seq<u8>, a: int) -> int {
    mem[a] + 0x100 * mem[a + 1] + 0x1_0000 * mem[a + 2]
}

/// The full 32-bit little-endian value of the four bytes at `a..a + 4`;
/// used only to relate the decoder's truncated read to the four bytes of
/// an instruction's encoded immediate.
pub open spec fn le32_at(mem: Seq<u8>, a: int) -> int {
    mem[a] + 0x100 * mem[a + 1] + 0x1_0000 * mem[a + 2] + 0x100_0000 * mem[a + 3]
}

impl Emulator {
    /// Construct a machine: memory of `size` zero bytes, all registers
    /// zero except the stack pointer seeded with `esp`, flags zero, and
    /// the instruction pointer at the caller-supplied entry point.
    ///
    /// `size` may not exceed the 32-bit address space, since no larger
    /// memory could be addressed through `eip`.
    pub fn new(size: usize, eip: u32, esp: u32) -> (emu: Emulator)
        requires
            size <= 0x1_0000_0000,
        ensures
            emu@.wf(),
            emu@.eip == eip,
            emu@.eflags == 0,
            emu@.memory.len() == size,
            forall|i: int| 0 <= i < size ==> emu@.memory[i] == 0,
            emu@.registers[reg_index(Register::ESP)] == esp,
            forall|i: int|
                0 <= i < REG_COUNT && i != reg_index(Register::ESP) ==> emu@.registers[i] == 0,
    {
        let mut registers: Vec<u32> = Vec::new();
        let mut i: usize = 0;
        while i < REG_COUNT
            invariant
                i <= REG_COUNT,
                registers@.len() == i,
                forall|j: int| 0 <= j < i ==> registers@[j] == 0,
            decreases REG_COUNT - i,
        {
            registers.push(0);
            i = i + 1;
        }
        let mut memory: Vec<u8> = Vec::new();
        let mut a: usize = 0;
        while a < size
            invariant
                a <= size,
                memory@.len() == a,
                forall|j: int| 0 <= j < a ==> memory@[j] == 0,
            decreases size - a,
        {
            memory.push(0);
            a = a + 1;
        }
        let mut emu = Emulator { eip, eflags: 0, registers, memory };
        emu.set_register(Register::ESP, esp);
        emu
    }

    /// Read one register of the closed enumeration.
    pub fn get_register(&self, r: Register) -> (v: u32)
        requires
            self@.wf(),
        ensures
            v == self@.registers[reg_index(r)],
    {
        self.registers[r.index()]
    }

    /// Write one register of the closed enumeration.  Register writes
    /// carry full 32-bit values; they wrap at 32 bits by construction.
    pub fn set_register(&mut self, r: Register, v: u32)
        requires
            old(self)@.wf(),
        ensures
            final(self)@.wf(),
            final(self)@.registers == old(self)@.registers.update(reg_index(r), v),
            final(self)@.eip == old(self)@.eip,
            final(self)@.eflags == old(self)@.eflags,
            final(self)@.memory == old(self)@.memory,
    {
        let i = r.index();
        self.registers.set(i, v);
    }

    /// Read the byte at an absolute memory address.
    pub fn read_byte(&self, addr: u32) -> (b: u8)
        requires
            addr < self@.memory.len(),
        ensures
            b == self@.memory[addr as int],
    {
        self.memory[addr as usize]
    }

    /// Bulk-load `data` into memory starting at `offset`: the loader's
    /// only way of placing a program image before the loop starts.
    ///
    /// Succeeds exactly when the whole of `data` fits below the memory
    /// capacity; otherwise nothing is written and the first out-of-range
    /// address the write would have needed is reported.  A program image
    /// is never silently truncated.
    pub fn write_bytes(&mut self, offset: usize, data: &Vec<u8>) -> (r: Result<(), EmuError>)
        requires
            old(self)@.wf(),
        ensures
            final(self)@.wf(),
            final(self)@.eip == old(self)@.eip,
            final(self)@.eflags == old(self)@.eflags,
            final(self)@.registers == old(self)@.registers,
            final(self)@.memory.len() == old(self)@.memory.len(),
            offset + data@.len() <= old(self)@.memory.len() ==> {
                &&& r is Ok
                &&& forall|i: int| 0 <= i < data@.len() ==> final(self)@.memory[offset + i] == data@[i]
                &&& forall|i: int|
                    0 <= i < final(self)@.memory.len() && !(offset <= i < offset + data@.len())
                        ==> final(self)@.memory[i] == old(self)@.memory[i]
            },
            offset + data@.len() > old(self)@.memory.len() ==> {
                &&& final(self)@.memory == old(self)@.memory
                &&& r == Err::<(), EmuError>(EmuError::OutOfBoundsAccess {
                    addr: if offset > old(self)@.memory.len() {
                        offset as u64
                    } else {
                        old(self)@.memory.len() as u64
                    },
                })
            },
    {
        let mem_len: u64 = self.memory.len() as u64;
        if offset as u64 > mem_len || data.len() as u64 > mem_len - offset as u64 {
            let addr: u64 = if offset as u64 > mem_len {
                offset as u64
            } else {
                mem_len
            };
            return Err(EmuError::OutOfBoundsAccess { addr });
        }
        let ghost m0 = self@;
        let mut i: usize = 0;
        while i < data.len()
            invariant
                i <= data@.len(),
                offset + data@.len() <= m0.memory.len(),
                offset + data@.len() <= usize::MAX,
                self@.eip == m0.eip,
                self@.eflags == m0.eflags,
                self@.registers == m0.registers,
                self@.memory.len() == m0.memory.len(),
                forall|j: int| 0 <= j < i ==> self@.memory[offset + j] == data@[j],
                forall|j: int|
                    0 <= j < self@.memory.len() && !(offset <= j < offset + i)
                        ==> self@.memory[j] == m0.memory[j],
            decreases data@.len() - i,
        {
            self.memory.set(offset + i, data[i]);
            i = i + 1;
        }
        Ok(())
    }

    /// Decoder: the unsigned code byte at `eip + index`.
    pub fn get_code8(&self, index: i32) -> (b: u8)
        requires
            self@.wf(),
            0 <= index,
            self@.eip + index < self@.memory.len(),
        ensures
            b == self@.memory[self@.eip + index],
    {
        self.memory[(self.eip + index as u32) as usize]
    }

    /// Decoder: the code byte at `eip + index` reinterpreted as a signed
    /// two's-complement quantity, for short relative displacements.
    pub fn get_sign_code8(&self, index: i32) -> (b: i8)
        requires
            self@.wf(),
            0 <= index,
            self@.eip + index < self@.memory.len(),
        ensures
            b as int == sign_extend8(self@.memory[self@.eip + index]),
    {
        let v = self.get_code8(index);
        if v < 0x80 {
            v as i8
        } else {
            ((v as i16) - 0x100) as i8
        }
    }

    /// Decoder: a 32-bit unsigned immediate assembled little-endian from
    /// the code bytes at `eip + index`.
    ///
    /// Only the three low bytes are assembled; the most significant byte
    /// of the result is always zero, so a 32-bit immediate in the code
    /// stream is stored truncated to its low 24 bits.  This narrowing is
    /// deliberate and kept bit-exact; `laws` states it precisely.
    pub fn get_code32(&self, index: i32) -> (v: u32)
        requires
            self@.wf(),
            0 <= index,
            index + 2 <= i32::MAX,
            self@.eip + index + 2 < self@.memory.len(),
        ensures
            v == imm24_at(self@.memory, self@.eip + index),
    {
        let b0 = self.get_code8(index);
        let b1 = self.get_code8(index + 1);
        let b2 = self.get_code8(index + 2);
        (b0 as u32) + 0x100 * (b1 as u32) + 0x1_0000 * (b2 as u32)
    }
}

} // verus!
