//! The mathematical model of the machine: its state as plain values, and what
//! one instruction and a whole run do to it.

use crate::encoding::{i32_le_bytes, le_i32, le_u32};
use crate::instruction::Opcode;
use vstd::prelude::*;

verus! {

/// Number of registers in the register file.
pub const REGISTER_COUNT: usize = 32;

/// How a run ends when no fault stops it.
#[derive(Debug, Clone, Copy, PartialEq, Eq, Structural)]
pub enum Exit {
    /// A `HLT` instruction was executed.
    Halted,
    /// The counter reached the end of the program.
    Exhausted,
}

/// A condition that ends the run at the instruction that raised it.
#[derive(Debug, Clone, Copy, PartialEq, Eq, Structural)]
pub enum Fault {
    /// The byte at the counter encodes no operation.
    IllegalOpcode,
    /// An operand names a register outside the register file.
    RegisterOutOfRange,
    /// A four-byte access does not lie inside the data segment.
    AddressOutOfBounds,
    /// The program ends in the middle of an instruction's operands.
    TruncatedInstruction,
}

/// What a single step reports: `Ok(None)` while the run goes on, `Ok(Some(_))`
/// when it has ended normally, `Err(_)` when a fault has ended it.
pub type StepResult = Result<Option<Exit>, Fault>;

/// The state of a machine.
pub struct MachineState {
    pub registers: Seq<i32>,
    pub pc: nat,
    pub program: Seq<u8>,
    pub data: Seq<u8>,
}

impl MachineState {
    /// The state that a new machine starts in, given its two buffers.
    pub open spec fn fresh(program: Seq<u8>, data: Seq<u8>) -> MachineState {
        MachineState {
            registers: Seq::new(REGISTER_COUNT as nat, |i: int| 0i32),
            pc: 0,
            program,
            data,
        }
    }

    /// The register file has its fixed size.
    pub open spec fn wf(self) -> bool {
        self.registers.len() == REGISTER_COUNT
    }

    /// This state with the counter moved to `pc`.
    pub open spec fn at(self, pc: nat) -> MachineState {
        MachineState { pc, ..self }
    }

    /// `n` more bytes of the program can be read at the counter.
    pub open spec fn available(self, n: nat) -> bool {
        self.pc + n <= self.program.len()
    }

    /// The byte of the program at `offset` from the counter.
    pub open spec fn byte(self, offset: int) -> u8 {
        self.program[self.pc + offset]
    }

    /// The bytes of the program from `from` to `to`, both counted from the
    /// counter, the second not included.
    pub open spec fn bytes(self, from: int, to: int) -> Seq<u8> {
        self.program.subrange(self.pc + from, self.pc + to)
    }

    /// The `n` bytes of the program at the counter.
    pub open spec fn window(self, n: nat) -> Seq<u8> {
        self.bytes(0, n as int)
    }

    /// The opcode that the byte at the counter decodes to.
    pub open spec fn opcode(self) -> Opcode {
        Opcode::decode(self.byte(0))
    }

    /// The state after an attempt to read `n` bytes at the counter: the
    /// counter moves past them if they are all there, and stays otherwise.
    pub open spec fn skip(self, n: nat) -> MachineState {
        if self.available(n) {
            self.at(self.pc + n)
        } else {
            self
        }
    }

    /// The register file has a register `reg`.
    pub open spec fn valid_register(reg: int) -> bool {
        0 <= reg < REGISTER_COUNT
    }

    /// A four-byte access at `addr` lies inside the data segment.
    pub open spec fn addressable(self, addr: int) -> bool {
        0 <= addr && addr + 4 <= self.data.len()
    }

    /// The signed 32-bit value that the data segment holds at `addr`.
    pub open spec fn data_i32(self, addr: int) -> int {
        le_i32(self.data.subrange(addr, addr + 4))
    }

    /// This state with `value` in register `reg`.
    pub open spec fn with_register(self, reg: int, value: i32) -> MachineState {
        MachineState { registers: self.registers.update(reg, value), ..self }
    }

    /// This state with the four bytes of `value` in the data segment at `addr`.
    pub open spec fn with_data_i32(self, addr: int, value: i32) -> MachineState {
        let bytes = i32_le_bytes(value as int);
        MachineState {
            data: Seq::new(
                self.data.len(),
                |i: int|
                    if addr <= i < addr + 4 {
                        bytes[i - addr]
                    } else {
                        self.data[i]
                    },
            ),
            ..self
        }
    }

    /// What reading register `reg` gives: its value, or the fault if `reg` is
    /// out of range.
    pub open spec fn register(self, reg: int) -> Result<i32, Fault> {
        if Self::valid_register(reg) {
            Ok(self.registers[reg])
        } else {
            Err(Fault::RegisterOutOfRange)
        }
    }

    /// What writing `value` to register `reg` does: the new state, and the
    /// fault if `reg` is out of range.
    pub open spec fn set_register(self, reg: int, value: i32) -> (MachineState, Result<(), Fault>) {
        if Self::valid_register(reg) {
            (self.with_register(reg, value), Ok(()))
        } else {
            (self, Err(Fault::RegisterOutOfRange))
        }
    }

    /// What reading four bytes of the data segment at `addr` gives: their
    /// signed value, or the fault if they do not lie inside the segment.
    pub open spec fn read_data(self, addr: int) -> Result<i32, Fault> {
        if self.addressable(addr) {
            Ok(self.data_i32(addr) as i32)
        } else {
            Err(Fault::AddressOutOfBounds)
        }
    }

    /// What writing `value` to the data segment at `addr` does: the new
    /// state, and the fault if four bytes at `addr` do not lie inside the
    /// segment.
    pub open spec fn write_data(self, addr: int, value: i32) -> (MachineState, Result<(), Fault>) {
        if self.addressable(addr) {
            (self.with_data_i32(addr, value), Ok(()))
        } else {
            (self, Err(Fault::AddressOutOfBounds))
        }
    }

    /// The effect of `LDIM reg, value`, the counter already past the
    /// instruction.
    pub open spec fn load_immediate(self, reg: int, value: i32) -> (MachineState, StepResult) {
        if Self::valid_register(reg) {
            (self.with_register(reg, value), Ok(None))
        } else {
            (self, Err(Fault::RegisterOutOfRange))
        }
    }

    /// The effect of `MOV src, dst`, the counter already past the instruction.
    pub open spec fn move_register(self, src: int, dst: int) -> (MachineState, StepResult) {
        if Self::valid_register(src) && Self::valid_register(dst) {
            (self.with_register(dst, self.registers[src]), Ok(None))
        } else {
            (self, Err(Fault::RegisterOutOfRange))
        }
    }

    /// The effect of `LOAD reg, addr`, the counter already past the
    /// instruction. The data segment is read before the register is written,
    /// so a bad address is reported before a bad register.
    pub open spec fn load(self, reg: int, addr: int) -> (MachineState, StepResult) {
        if !self.addressable(addr) {
            (self, Err(Fault::AddressOutOfBounds))
        } else if Self::valid_register(reg) {
            (self.with_register(reg, self.data_i32(addr) as i32), Ok(None))
        } else {
            (self, Err(Fault::RegisterOutOfRange))
        }
    }

    /// The effect of `STOR reg, addr`, the counter already past the
    /// instruction. The register is read before the data segment is written,
    /// so a bad register is reported before a bad address.
    pub open spec fn store(self, reg: int, addr: int) -> (MachineState, StepResult) {
        if !Self::valid_register(reg) {
            (self, Err(Fault::RegisterOutOfRange))
        } else if self.addressable(addr) {
            (self.with_data_i32(addr, self.registers[reg]), Ok(None))
        } else {
            (self, Err(Fault::AddressOutOfBounds))
        }
    }

    /// What the instruction at the counter does, the whole of it inside the
    /// program. The first operand is the byte after the opcode; the second is
    /// what follows it.
    pub open spec fn execute(self) -> (MachineState, StepResult) {
        let op = self.opcode();
        let reg = self.byte(1) as int;
        let rest = self.bytes(2, op.width() as int);
        let after = self.at(self.pc + op.width());
        match op {
            Opcode::LDIM => after.load_immediate(reg, le_i32(rest) as i32),
            Opcode::MOV => after.move_register(reg, rest[0] as int),
            Opcode::LOAD => after.load(reg, le_u32(rest)),
            Opcode::STOR => after.store(reg, le_u32(rest)),
            Opcode::HLT => (after, Ok(Some(Exit::Halted))),
            Opcode::IGL => (after, Err(Fault::IllegalOpcode)),
        }
    }

    /// What one step does: the state after it and what it reports.
    ///
    /// At the end of the program nothing changes and the run is exhausted.
    /// Otherwise the opcode at the counter is consumed. `HLT` ends the run and
    /// `IGL` faults. Every other opcode has a register operand of one byte
    /// and a second operand; where the program ends before an operand is
    /// complete the step faults with the counter after the last operand that
    /// was read in full, and nothing else changed.
    pub open spec fn step(self) -> (MachineState, StepResult) {
        if !self.available(1) {
            (self, Ok(Some(Exit::Exhausted)))
        } else if self.available(self.opcode().width()) {
            self.execute()
        } else if self.available(2) {
            (self.at(self.pc + 2), Err(Fault::TruncatedInstruction))
        } else {
            (self.at(self.pc + 1), Err(Fault::TruncatedInstruction))
        }
    }

    /// What a run does: steps are taken until one ends the run.
    pub open spec fn run(self) -> (MachineState, Result<Exit, Fault>)
        decreases self.program.len() - self.pc,
    {
        let (next, result) = self.step();
        match result {
            Ok(None) => next.run(),
            Ok(Some(exit)) => (next, Ok(exit)),
            Err(fault) => (next, Err(fault)),
        }
    }
}

} // verus!
