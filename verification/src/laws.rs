//! What holds of every machine: the laws of single instructions and of whole
//! runs, stated over the model and proved from it.

use crate::encoding::{i32_le_bytes, le_i32, le_u32, lemma_i32_le_round_trip};
use crate::instruction::Opcode;
use crate::state::{Exit, Fault, MachineState, REGISTER_COUNT};
use vstd::prelude::*;

verus! {

/// A step leaves the program as it is, keeps the size of the data segment and
/// a register file of 32 registers, and never moves the counter back; a counter
/// inside the program stays inside it. A step that lets the run go on has
/// moved the counter forward.
pub proof fn lemma_step_invariants(s: MachineState)
    ensures
        s.step().0.program == s.program,
        s.wf() ==> s.step().0.wf(),
        s.step().0.data.len() == s.data.len(),
        s.step().0.pc >= s.pc,
        s.pc <= s.program.len() ==> s.step().0.pc <= s.program.len(),
        s.step().1 == Ok::<Option<Exit>, Fault>(None) ==> s.step().0.pc > s.pc,
        s.step().1 == Ok::<Option<Exit>, Fault>(Some(Exit::Exhausted)) <==> s.pc >= s.program.len(),
{
}

/// A run leaves the program as it is, keeps the size of the data segment and
/// a register file of 32 registers, and never moves the counter back. It never ends
/// with the counter beyond the program unless it started there, and it ends
/// as exhausted only with the counter at or beyond the end of the program.
pub proof fn lemma_run_invariants(s: MachineState)
    ensures
        s.run().0.program == s.program,
        s.wf() ==> s.run().0.wf(),
        s.run().0.data.len() == s.data.len(),
        s.run().0.pc >= s.pc,
        s.pc <= s.program.len() ==> s.run().0.pc <= s.program.len(),
        s.run().1 == Ok::<Exit, Fault>(Exit::Exhausted) ==> s.run().0.pc >= s.program.len(),
    decreases s.program.len() - s.pc,
{
    lemma_step_invariants(s);
    if s.step().1 == Ok::<Option<Exit>, Fault>(None) {
        lemma_run_invariants(s.step().0);
    }
}

/// A run is one step, followed by the run of what is left where the step did
/// not end it.
pub proof fn lemma_run_unfold(s: MachineState)
    ensures
        s.run() == match s.step().1 {
            Ok(None) => s.step().0.run(),
            Ok(Some(exit)) => (s.step().0, Ok::<Exit, Fault>(exit)),
            Err(fault) => (s.step().0, Err::<Exit, Fault>(fault)),
        },
{
}

/// How a run ended shows in where it stopped: after a halt the byte before
/// the counter is the `HLT` byte, and after an illegal opcode it is a byte
/// that encodes no operation.
pub proof fn lemma_run_end(s: MachineState)
    ensures
        s.run().1 == Ok::<Exit, Fault>(Exit::Halted) ==> {
            let end = s.run().0;
            end.pc > s.pc && end.program[end.pc - 1] == 0
        },
        s.run().1 == Err::<Exit, Fault>(Fault::IllegalOpcode) ==> {
            let end = s.run().0;
            end.pc > s.pc && end.program[end.pc - 1] >= 5
        },
    decreases s.program.len() - s.pc,
{
    lemma_step_invariants(s);
    if s.step().1 == Ok::<Option<Exit>, Fault>(None) {
        lemma_run_end(s.step().0);
    }
}

/// A run that has ended has nothing left to do but to report the same end
/// again where it was normal: running a machine again after it was exhausted
/// changes nothing.
pub proof fn lemma_run_after_exhausted(s: MachineState)
    requires
        s.run().1 == Ok::<Exit, Fault>(Exit::Exhausted),
    ensures
        s.run().0.run() == s.run(),
{
    lemma_run_invariants(s);
}

/// Two machines that start with the same registers, counter, program and
/// data end in the same state with the same result.
pub proof fn lemma_run_deterministic(a: MachineState, b: MachineState)
    requires
        a.registers =~= b.registers,
        a.pc == b.pc,
        a.program =~= b.program,
        a.data =~= b.data,
    ensures
        a.run() == b.run(),
{
}

/// A program that is the single byte of `HLT` halts with the counter at 1 and
/// with registers and data untouched.
pub proof fn lemma_halt_program(s: MachineState)
    requires
        s.pc == 0,
        s.program =~= seq![0u8],
    ensures
        s.run() == (s.at(1), Ok::<Exit, Fault>(Exit::Halted)),
{
}

/// A program that is a single byte which encodes no operation faults with
/// the counter at 1 and with registers and data untouched; the result is not
/// that of a halt.
pub proof fn lemma_illegal_program(s: MachineState, byte: u8)
    requires
        s.pc == 0,
        s.program =~= seq![byte],
        byte >= 5,
    ensures
        s.run() == (s.at(1), Err::<Exit, Fault>(Fault::IllegalOpcode)),
        s.run().1 != Ok::<Exit, Fault>(Exit::Halted),
{
}

/// `LDIM` at the counter, with its five operand bytes inside the program and
/// a register index below 32, sets that register to the little-endian signed
/// value of the last four bytes and moves the counter on by 6. Nothing else
/// changes.
pub proof fn lemma_load_immediate(s: MachineState)
    requires
        s.available(6),
        s.opcode() == Opcode::LDIM,
        s.byte(1) < REGISTER_COUNT,
    ensures
        s.step() == (
            s.at(s.pc + 6).with_register(
                s.byte(1) as int,
                le_i32(s.bytes(2, 6)) as i32,
            ),
            Ok::<Option<Exit>, Fault>(None),
        ),
{
}

/// The program `[0x04, r, b0, b1, b2, b3]` with `r` below 32, run from its
/// start, sets register `r` to the little-endian signed value of `b0..b3`
/// and ends exhausted with the counter at 6.
pub proof fn lemma_load_immediate_program(s: MachineState, r: u8, b0: u8, b1: u8, b2: u8, b3: u8)
    requires
        s.pc == 0,
        s.program =~= seq![4u8, r, b0, b1, b2, b3],
        r < REGISTER_COUNT,
    ensures
        s.run() == (
            s.at(6).with_register(r as int, le_i32(seq![b0, b1, b2, b3]) as i32),
            Ok::<Exit, Fault>(Exit::Exhausted),
        ),
{
    assert(s.program.subrange(2, 6) =~= seq![b0, b1, b2, b3]);
    reveal_with_fuel(MachineState::run, 2);
}

/// `MOV src, dst` at the counter, with both operands inside the program and
/// both below 32, sets register `dst` to the value of register `src` and
/// moves the counter on by 3. Register `src`, unless it is `dst` itself, and
/// everything else stay as they are.
pub proof fn lemma_move_register(s: MachineState)
    requires
        s.wf(),
        s.available(3),
        s.opcode() == Opcode::MOV,
        s.byte(1) < REGISTER_COUNT,
        s.byte(2) < REGISTER_COUNT,
    ensures
        s.step().1 == Ok::<Option<Exit>, Fault>(None),
        s.step().0 == s.at(s.pc + 3).with_register(
            s.byte(2) as int,
            s.registers[s.byte(1) as int],
        ),
        s.step().0.registers[s.byte(2) as int] == s.registers[s.byte(1) as int],
        s.step().0.registers[s.byte(1) as int] == s.registers[s.byte(1) as int],
{
}

/// The program `[0x02, src, dst]` with both indices below 32, run from its
/// start, leaves the value of register `src` in register `dst`, does not
/// alter register `src`, and ends exhausted with the counter at 3.
pub proof fn lemma_move_register_program(s: MachineState, src: u8, dst: u8)
    requires
        s.wf(),
        s.pc == 0,
        s.program =~= seq![2u8, src, dst],
        src < REGISTER_COUNT,
        dst < REGISTER_COUNT,
    ensures
        s.run() == (
            s.at(3).with_register(dst as int, s.registers[src as int]),
            Ok::<Exit, Fault>(Exit::Exhausted),
        ),
        s.run().0.registers[dst as int] == s.registers[src as int],
        s.run().0.registers[src as int] == s.registers[src as int],
{
    reveal_with_fuel(MachineState::run, 2);
}

/// `LOAD reg, addr` at the counter, with its operands inside the program,
/// four bytes at `addr` inside the data segment and a register index below
/// 32, sets the register to the little-endian signed value of those four
/// bytes and moves the counter on by 6.
pub proof fn lemma_load(s: MachineState)
    requires
        s.available(6),
        s.opcode() == Opcode::LOAD,
        s.byte(1) < REGISTER_COUNT,
        s.addressable(le_u32(s.bytes(2, 6))),
    ensures
        s.step() == ({
            let addr = le_u32(s.bytes(2, 6));
            (
                s.at(s.pc + 6).with_register(
                    s.byte(1) as int,
                    le_i32(s.data.subrange(addr, addr + 4)) as i32,
                ),
                Ok::<Option<Exit>, Fault>(None),
            )
        }),
{
}

/// `STOR reg, addr` at the counter, with its operands inside the program, a
/// register index below 32 and four bytes at `addr` inside the data segment,
/// replaces those four bytes by the little-endian encoding of the register's
/// value and moves the counter on by 6. The rest of the data segment and the
/// registers stay as they are.
pub proof fn lemma_store(s: MachineState)
    requires
        s.available(6),
        s.opcode() == Opcode::STOR,
        s.byte(1) < REGISTER_COUNT,
        s.addressable(le_u32(s.bytes(2, 6))),
    ensures
        s.step().1 == Ok::<Option<Exit>, Fault>(None),
        s.step().0.pc == s.pc + 6,
        s.step().0.registers == s.registers,
        s.step().0.data.len() == s.data.len(),
        ({
            let addr = le_u32(s.bytes(2, 6));
            let value = s.registers[s.byte(1) as int];
            &&& s.step().0.data.subrange(addr, addr + 4) == i32_le_bytes(value as int)
            &&& forall|i: int|
                0 <= i < s.data.len() && !(addr <= i < addr + 4) ==> s.step().0.data[i]
                    == s.data[i]
        }),
{
    let addr = le_u32(s.bytes(2, 6));
    let value = s.registers[s.byte(1) as int];
    assert(s.step().0.data.subrange(addr, addr + 4) =~= i32_le_bytes(value as int));
}

/// What `STOR` wrote, `LOAD` reads back: after a value was written to the
/// data segment at an address inside it, the signed value at that address is
/// the value written.
pub proof fn lemma_store_then_load(s: MachineState, addr: int, value: i32)
    requires
        s.addressable(addr),
    ensures
        s.write_data(addr, value).0.read_data(addr) == Ok::<i32, Fault>(value),
{
    lemma_i32_le_round_trip(value);
    assert(s.with_data_i32(addr, value).data.subrange(addr, addr + 4) =~= i32_le_bytes(
        value as int,
    ));
}

/// An instruction whose operands the program cuts short faults as truncated,
/// in the step and in the run: the counter has moved past the opcode, and
/// past the register operand if that was complete, and registers, data and
/// program are untouched.
pub proof fn lemma_truncated_instruction(s: MachineState)
    requires
        s.available(1),
        s.opcode().width() > 1,
        !s.available(s.opcode().width()),
    ensures
        s.step().1 == Err::<Option<Exit>, Fault>(Fault::TruncatedInstruction),
        s.run() == (s.step().0, Err::<Exit, Fault>(Fault::TruncatedInstruction)),
        s.step().0 == s.at(s.step().0.pc),
        s.step().0.pc == if s.available(2) {
            s.pc + 2
        } else {
            s.pc + 1
        },
{
}

/// An instruction that lies inside the program and names a register of index
/// 32 or more faults, in the step and in the run, with registers and data
/// untouched and the counter past the instruction. The fault is
/// `RegisterOutOfRange`, but for a `LOAD` whose address is out of bounds as
/// well: there the data segment is read first, and the fault is
/// `AddressOutOfBounds`.
pub proof fn lemma_register_out_of_range(s: MachineState)
    requires
        s.available(1),
        s.opcode().width() > 1,
        s.available(s.opcode().width()),
        s.byte(1) >= REGISTER_COUNT || (s.opcode()
            == Opcode::MOV && s.byte(2) >= REGISTER_COUNT),
    ensures
        s.step().1 is Err,
        s.run() == (s.step().0, Err::<Exit, Fault>(s.step().1->Err_0)),
        s.step().0 == s.at(s.pc + s.opcode().width()),
        s.step().1 == if s.opcode() == Opcode::LOAD && !s.addressable(
            le_u32(s.bytes(2, 6)),
        ) {
            Err::<Option<Exit>, Fault>(Fault::AddressOutOfBounds)
        } else {
            Err::<Option<Exit>, Fault>(Fault::RegisterOutOfRange)
        },
{
}

/// A `LOAD` or `STOR` that lies inside the program, names a register below
/// 32 and an address whose four bytes do not lie inside the data segment
/// faults with `AddressOutOfBounds`, with registers and data untouched.
pub proof fn lemma_address_out_of_bounds(s: MachineState)
    requires
        s.available(6),
        s.opcode() == Opcode::LOAD || s.opcode() == Opcode::STOR,
        s.byte(1) < REGISTER_COUNT,
        !s.addressable(le_u32(s.bytes(2, 6))),
    ensures
        s.step() == (s.at(s.pc + 6), Err::<Option<Exit>, Fault>(Fault::AddressOutOfBounds)),
        s.run() == (s.at(s.pc + 6), Err::<Exit, Fault>(Fault::AddressOutOfBounds)),
{
}

} // verus!
