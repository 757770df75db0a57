//! The execution engine: register file, program counter, program and data
//! segment, and the fetch-decode-execute loop over them.

use crate::encoding::{read_i32_le, read_u16_le, read_u32_le, write_i32_le};
use crate::encoding::{i32_le_bytes, le_i32, le_u16, le_u32, lemma_le_ranges};
use crate::instruction::Opcode;
use crate::state::{Exit, Fault, MachineState, StepResult, REGISTER_COUNT};
use vstd::prelude::*;
use vstd::slice::slice_subrange;

verus! {

/// A register machine.
pub struct VM {
    registers: [i32; 32],
    pc: usize,
    program: Vec<u8>,
    data: Vec<u8>,
}

impl View for VM {
    type V = MachineState;

    closed spec fn view(&self) -> MachineState {
        MachineState {
            registers: self.registers@,
            pc: self.pc as nat,
            program: self.program@,
            data: self.data@,
        }
    }
}

impl VM {
    /// A machine with every register zero, the counter at zero, and an empty
    /// program and data segment.
    pub fn new() -> (vm: VM)
        ensures
            vm@ == MachineState::fresh(Seq::empty(), Seq::empty()),
    {
        let vm = VM { registers: [0; 32], pc: 0, program: Vec::new(), data: Vec::new() };
        assert(vm@.registers =~= MachineState::fresh(Seq::empty(), Seq::empty()).registers);
        vm
    }

    /// Reads the byte at the counter and moves the counter past it. At the
    /// end of the program nothing is read and nothing changes.
    pub fn next_u8(&mut self) -> (r: Result<u8, Fault>)
        ensures
            final(self)@ == old(self)@.skip(1),
            r == if old(self)@.available(1) {
                Ok::<u8, Fault>(old(self)@.window(1)[0])
            } else {
                Err::<u8, Fault>(Fault::TruncatedInstruction)
            },
    {
        if self.pc >= self.program.len() {
            return Err(Fault::TruncatedInstruction);
        }
        let result = self.program[self.pc];
        self.pc += 1;
        Ok(result)
    }

    /// Reads the two bytes at the counter as a little-endian unsigned value
    /// and moves the counter past them. Where fewer than two bytes are left
    /// nothing is read and nothing changes.
    pub fn next_u16(&mut self) -> (r: Result<u16, Fault>)
        ensures
            final(self)@ == old(self)@.skip(2),
            r == if old(self)@.available(2) {
                Ok::<u16, Fault>(le_u16(old(self)@.window(2)) as u16)
            } else {
                Err::<u16, Fault>(Fault::TruncatedInstruction)
            },
    {
        if self.pc > self.program.len() || self.program.len() - self.pc < 2 {
            return Err(Fault::TruncatedInstruction);
        }
        let result = read_u16_le(slice_subrange(self.program.as_slice(), self.pc, self.pc + 2));
        self.pc += 2;
        Ok(result)
    }

    /// Reads the four bytes at the counter as a little-endian unsigned value
    /// and moves the counter past them. Where fewer than four bytes are left
    /// nothing is read and nothing changes.
    pub fn next_u32(&mut self) -> (r: Result<u32, Fault>)
        ensures
            final(self)@ == old(self)@.skip(4),
            r == if old(self)@.available(4) {
                Ok::<u32, Fault>(le_u32(old(self)@.window(4)) as u32)
            } else {
                Err::<u32, Fault>(Fault::TruncatedInstruction)
            },
    {
        if self.pc > self.program.len() || self.program.len() - self.pc < 4 {
            return Err(Fault::TruncatedInstruction);
        }
        let result = read_u32_le(slice_subrange(self.program.as_slice(), self.pc, self.pc + 4));
        self.pc += 4;
        Ok(result)
    }

    /// Reads the four bytes at the counter as a little-endian signed value
    /// and moves the counter past them. Where fewer than four bytes are left
    /// nothing is read and nothing changes.
    pub fn next_i32(&mut self) -> (r: Result<i32, Fault>)
        ensures
            final(self)@ == old(self)@.skip(4),
            r == if old(self)@.available(4) {
                Ok::<i32, Fault>(le_i32(old(self)@.window(4)) as i32)
            } else {
                Err::<i32, Fault>(Fault::TruncatedInstruction)
            },
    {
        if self.pc > self.program.len() || self.program.len() - self.pc < 4 {
            return Err(Fault::TruncatedInstruction);
        }
        let result = read_i32_le(slice_subrange(self.program.as_slice(), self.pc, self.pc + 4));
        self.pc += 4;
        Ok(result)
    }

    /// Reads the byte at the counter as a register index. The index is not
    /// held against the size of the register file here: that is done where a
    /// register is read or written.
    pub fn next_reg(&mut self) -> (r: Result<usize, Fault>)
        ensures
            final(self)@ == old(self)@.skip(1),
            r == if old(self)@.available(1) {
                Ok::<usize, Fault>(old(self)@.window(1)[0] as usize)
            } else {
                Err::<usize, Fault>(Fault::TruncatedInstruction)
            },
    {
        match self.next_u8() {
            Ok(byte) => Ok(byte as usize),
            Err(fault) => Err(fault),
        }
    }

    /// Reads the four bytes at the counter as an offset into the data
    /// segment. The offset is not held against the segment's length here:
    /// that is done where the segment is read or written.
    pub fn next_addr(&mut self) -> (r: Result<usize, Fault>)
        ensures
            final(self)@ == old(self)@.skip(4),
            r == if old(self)@.available(4) {
                Ok::<usize, Fault>(le_u32(old(self)@.window(4)) as usize)
            } else {
                Err::<usize, Fault>(Fault::TruncatedInstruction)
            },
    {
        proof {
            lemma_le_ranges(self@.window(4));
        }
        match self.next_u32() {
            Ok(addr) => Ok(addr as usize),
            Err(fault) => Err(fault),
        }
    }

    /// The value of register `reg`, or `RegisterOutOfRange` where the
    /// register file has no such register.
    pub fn register(&self, reg: usize) -> (r: Result<i32, Fault>)
        ensures
            r == self@.register(reg as int),
    {
        if reg < REGISTER_COUNT {
            Ok(self.registers[reg])
        } else {
            Err(Fault::RegisterOutOfRange)
        }
    }

    /// Writes `value` to register `reg`. Where the register file has no such
    /// register nothing changes and `RegisterOutOfRange` is returned.
    pub fn set_register(&mut self, reg: usize, value: i32) -> (r: Result<(), Fault>)
        ensures
            (final(self)@, r) == old(self)@.set_register(reg as int, value),
    {
        if reg < REGISTER_COUNT {
            self.registers[reg] = value;
            Ok(())
        } else {
            Err(Fault::RegisterOutOfRange)
        }
    }

    /// The little-endian signed value of the four bytes of the data segment
    /// at `addr`, or `AddressOutOfBounds` where they do not lie inside it.
    pub fn read_data(&self, addr: usize) -> (r: Result<i32, Fault>)
        ensures
            r == self@.read_data(addr as int),
    {
        if self.data.len() < 4 || addr > self.data.len() - 4 {
            return Err(Fault::AddressOutOfBounds);
        }
        Ok(read_i32_le(slice_subrange(self.data.as_slice(), addr, addr + 4)))
    }

    /// Writes `value` as four little-endian bytes to the data segment at
    /// `addr`. Where they do not lie inside it nothing changes and
    /// `AddressOutOfBounds` is returned.
    pub fn write_data(&mut self, addr: usize, value: i32) -> (r: Result<(), Fault>)
        ensures
            (final(self)@, r) == old(self)@.write_data(addr as int, value),
    {
        if self.data.len() < 4 || addr > self.data.len() - 4 {
            return Err(Fault::AddressOutOfBounds);
        }
        let bytes = write_i32_le(value);
        let mut i: usize = 0;
        while i < 4
            invariant
                i <= 4,
                addr + 4 <= self.data.len(),
                bytes@ == i32_le_bytes(value as int),
                self.registers == old(self).registers,
                self.pc == old(self).pc,
                self.program == old(self).program,
                self.data@.len() == old(self).data@.len(),
                forall|k: int|
                    0 <= k < self.data@.len() ==> self.data@[k] == if addr <= k < addr + i {
                        bytes@[k - addr]
                    } else {
                        old(self).data@[k]
                    },
            decreases 4 - i,
        {
            self.data[addr + i] = bytes[i];
            i += 1;
        }
        assert(self.data@ =~= old(self)@.with_data_i32(addr as int, value).data);
        Ok(())
    }

    /// Reads the byte at the counter and decodes it.
    pub fn decode_opcode(&mut self) -> (r: Result<Opcode, Fault>)
        ensures
            final(self)@ == old(self)@.skip(1),
            r == if old(self)@.available(1) {
                Ok::<Opcode, Fault>(Opcode::decode(old(self)@.window(1)[0]))
            } else {
                Err::<Opcode, Fault>(Fault::TruncatedInstruction)
            },
    {
        match self.next_u8() {
            Ok(byte) => Ok(Opcode::from(byte)),
            Err(fault) => Err(fault),
        }
    }

    /// Executes the instruction at the counter.
    ///
    /// Returns `Ok(None)` when the instruction was executed and the run goes
    /// on, `Ok(Some(_))` when the run has ended normally (a `HLT`, or no
    /// instruction is left), and the fault when one has ended it.
    pub fn step(&mut self) -> (r: StepResult)
        ensures
            (final(self)@, r) == old(self)@.step(),
    {
        if self.pc >= self.program.len() {
            return Ok(Some(Exit::Exhausted));
        }
        let opcode = self.decode_opcode()?;
        match opcode {
            Opcode::HLT => Ok(Some(Exit::Halted)),
            Opcode::IGL => Err(Fault::IllegalOpcode),
            Opcode::LOAD => {
                let register = self.next_reg()?;
                let addr = self.next_addr()?;
                let value = self.read_data(addr)?;
                self.set_register(register, value)?;
                Ok(None)
            },
            Opcode::LDIM => {
                let reg = self.next_reg()?;
                let value = self.next_i32()?;
                self.set_register(reg, value)?;
                Ok(None)
            },
            Opcode::MOV => {
                let source = self.next_reg()?;
                let dest = self.next_reg()?;
                let value = self.register(source)?;
                self.set_register(dest, value)?;
                Ok(None)
            },
            Opcode::STOR => {
                let reg = self.next_reg()?;
                let dest = self.next_addr()?;
                let value = self.register(reg)?;
                self.write_data(dest, value)?;
                Ok(None)
            },
        }
    }

    /// Runs the program from the counter on until it ends.
    ///
    /// Returns `Ok(Exit::Halted)` after a `HLT`, `Ok(Exit::Exhausted)` when
    /// the counter has reached the end of the program, and the fault when an
    /// instruction raised one. The machine is left as the last step left it.
    pub fn run(&mut self) -> (r: Result<Exit, Fault>)
        ensures
            (final(self)@, r) == old(self)@.run(),
    {
        loop
            invariant
                self@.run() == old(self)@.run(),
            decreases self@.program.len() - self@.pc,
        {
            if let Some(exit) = self.step()? {
                return Ok(exit);
            }
        }
    }

    /// The state of every machine has a register file of 32 registers.
    pub proof fn lemma_view_wf(&self)
        ensures
            self@.wf(),
    {
    }

    /// The program counter: the index of the next byte to fetch.
    pub fn pc(&self) -> (pc: usize)
        ensures
            pc == self@.pc,
    {
        self.pc
    }

    /// The register file.
    pub fn registers(&self) -> (registers: &[i32; 32])
        ensures
            registers@ == self@.registers,
    {
        &self.registers
    }

    /// The program.
    pub fn program(&self) -> (program: &Vec<u8>)
        ensures
            program@ == self@.program,
    {
        &self.program
    }

    /// The data segment.
    pub fn data(&self) -> (data: &Vec<u8>)
        ensures
            data@ == self@.data,
    {
        &self.data
    }

    /// Replaces the program. The counter, the registers and the data segment
    /// stay as they are.
    pub fn set_program(&mut self, program: Vec<u8>)
        ensures
            final(self)@ == (MachineState { program: program@, ..old(self)@ }),
    {
        self.program = program;
    }

    /// Replaces the data segment. The counter, the registers and the program
    /// stay as they are.
    pub fn set_data(&mut self, data: Vec<u8>)
        ensures
            final(self)@ == (MachineState { data: data@, ..old(self)@ }),
    {
        self.data = data;
    }
}

} // verus!
