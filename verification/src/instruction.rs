//! Opcodes and their single-byte encoding.

use vstd::prelude::*;
use vstd::std_specs::convert::FromSpecImpl;

verus! {

/// The operation that an instruction performs.
#[derive(Debug, Clone, Copy, PartialEq, Eq, Structural)]
pub enum Opcode {
    /// Stop the machine.
    HLT,
    /// Load a 32-bit value from the data segment into a register.
    LOAD,
    /// Copy one register into another.
    MOV,
    /// Store a register as four bytes in the data segment.
    STOR,
    /// Load an immediate 32-bit value into a register.
    LDIM,
    /// Any byte that encodes no operation.
    IGL,
}

impl Opcode {
    /// The opcode that a byte of the instruction stream stands for.
    pub open spec fn decode(byte: u8) -> Opcode {
        if byte == 0 {
            Opcode::HLT
        } else if byte == 1 {
            Opcode::LOAD
        } else if byte == 2 {
            Opcode::MOV
        } else if byte == 3 {
            Opcode::STOR
        } else if byte == 4 {
            Opcode::LDIM
        } else {
            Opcode::IGL
        }
    }

    /// Length in bytes of an instruction with this opcode, the opcode byte
    /// included.
    pub open spec fn width(self) -> nat {
        match self {
            Opcode::HLT | Opcode::IGL => 1,
            Opcode::MOV => 3,
            Opcode::LOAD | Opcode::STOR | Opcode::LDIM => 6,
        }
    }
}

impl FromSpecImpl<u8> for Opcode {
    open spec fn obeys_from_spec() -> bool {
        true
    }

    open spec fn from_spec(v: u8) -> Opcode {
        Opcode::decode(v)
    }
}

impl From<u8> for Opcode {
    /// Decodes a byte. The mapping is total: every byte that names no
    /// operation decodes to `IGL`.
    fn from(v: u8) -> (opcode: Opcode)
        ensures
            opcode == Opcode::decode(v),
    {
        match v {
            0x00 => Opcode::HLT,
            0x01 => Opcode::LOAD,
            0x02 => Opcode::MOV,
            0x03 => Opcode::STOR,
            0x04 => Opcode::LDIM,
            _ => Opcode::IGL,
        }
    }
}

/// A decoded instruction.
#[derive(Debug, PartialEq, Eq, Structural)]
pub struct Instruction {
    pub opcode: Opcode,
}

impl Instruction {
    pub fn new(opcode: Opcode) -> (instruction: Instruction)
        ensures
            instruction.opcode == opcode,
    {
        Instruction { opcode }
    }
}

/// Bytes 0 to 4 decode to the five defined operations, in the order `HLT`,
/// `LOAD`, `MOV`, `STOR`, `LDIM`; every byte from 5 to 255 decodes to `IGL`.
pub proof fn lemma_decode_total(byte: u8)
    ensures
        byte == 0 <==> Opcode::decode(byte) == Opcode::HLT,
        byte == 1 <==> Opcode::decode(byte) == Opcode::LOAD,
        byte == 2 <==> Opcode::decode(byte) == Opcode::MOV,
        byte == 3 <==> Opcode::decode(byte) == Opcode::STOR,
        byte == 4 <==> Opcode::decode(byte) == Opcode::LDIM,
        5 <= byte <= 255 <==> Opcode::decode(byte) == Opcode::IGL,
{
}

} // verus!
