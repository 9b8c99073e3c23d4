//! One step of the register machine.

use vstd::prelude::*;

use crate::value::{get_value, Instruction, Register, PLAYFIELD_SIZE, REGISTER_AMOUNT};

verus! {

/// The register file after executing `instr` on `regs`. A load writes the
/// operand; an add writes the operand plus the old value and a sub the
/// operand minus the old value, both modulo 256; every other instruction
/// leaves the file as it is.
pub open spec fn spec_execute(regs: Seq<u8>, instr: Instruction) -> Seq<u8> {
    match instr {
        Instruction::Load(d, r) => regs.update(r.index() as int, d.spec_value()),
        Instruction::Add(d, r) => regs.update(
            r.index() as int,
            ((d.spec_value() + regs[r.index() as int]) % 256) as u8,
        ),
        Instruction::Sub(d, r) => regs.update(
            r.index() as int,
            ((d.spec_value() - regs[r.index() as int]) % 256) as u8,
        ),
        _ => regs,
    }
}

/// Whether `address` names a slot of the playfield.
pub open spec fn spec_on_playfield(address: int) -> bool {
    0 <= address < PLAYFIELD_SIZE
}

/// Whether `address` names a slot of the playfield.
pub fn is_on_playfield(address: i32) -> (r: bool)
    ensures
        r == spec_on_playfield(address as int),
{
    address >= 0 && address < PLAYFIELD_SIZE as i32
}

/// The value held by `register`.
pub fn get_register_value(registers: &[u8; REGISTER_AMOUNT], register: Register) -> (r: u8)
    ensures
        r == registers@[register.index() as int],
{
    registers[register.to_index()]
}

/// Stores `value` in `register`.
pub fn set_register(registers: &mut [u8; REGISTER_AMOUNT], value: u8, register: Register)
    ensures
        final(registers)@ == old(registers)@.update(register.index() as int, value),
{
    registers[register.to_index()] = value;
}

/// Executes the instruction at `address` on the register file and returns
/// the address of the next instruction, which is always the following one.
pub fn execute(
    instructions: &[Instruction; PLAYFIELD_SIZE],
    registers: &mut [u8; REGISTER_AMOUNT],
    address: i32,
) -> (r: i32)
    requires
        spec_on_playfield(address as int),
    ensures
        final(registers)@ == spec_execute(old(registers)@, instructions@[address as int]),
        r == address + 1,
{
    let instruction = instructions[address as usize];
    match instruction {
        Instruction::Load(data, register) => {
            let value: u8 = get_value(data);
            set_register(registers, value, register);
        },
        Instruction::Add(data, register) => {
            let value: u8 = get_value(data);
            let new_value: u8 = value.wrapping_add(get_register_value(registers, register));
            set_register(registers, new_value, register);
        },
        Instruction::Sub(data, register) => {
            let value: u8 = get_value(data);
            let new_value: u8 = value.wrapping_sub(get_register_value(registers, register));
            set_register(registers, new_value, register);
        },
        _ => {},
    }
    address + 1
}

/// Frames between two executed instructions.
pub const COUNTDOWN_LENGTH: u16 = 60;

/// Frames before a no-op is executed.
pub const COUNTDOWN_NOP_LENGTH: u16 = 10;

/// The countdown a cursor gets on arriving at `instr`: a no-op runs sooner.
pub open spec fn countdown_for(instr: Instruction) -> u16 {
    if instr is NOP {
        COUNTDOWN_NOP_LENGTH
    } else {
        COUNTDOWN_LENGTH
    }
}

/// Moves the execution cursor to `new_address` with the countdown of the
/// instruction there; an address off the playfield leaves the cursor as it is.
pub fn set_executing_address(
    instructions: &[Instruction; PLAYFIELD_SIZE],
    executing_address: &mut Option<i32>,
    instruction_countdown: &mut u16,
    new_address: i32,
)
    ensures
        spec_on_playfield(new_address as int) ==> *final(executing_address) == Some(new_address)
            && *final(instruction_countdown) == countdown_for(instructions@[new_address as int]),
        !spec_on_playfield(new_address as int) ==> *final(executing_address) == *old(
            executing_address,
        ) && *final(instruction_countdown) == *old(instruction_countdown),
{
    if is_on_playfield(new_address) {
        *executing_address = Some(new_address);
        if instructions[new_address as usize] == Instruction::NOP {
            *instruction_countdown = COUNTDOWN_NOP_LENGTH;
        } else {
            *instruction_countdown = COUNTDOWN_LENGTH;
        }
    }
}

/// The cursor and register file one frame later. An idle cursor stays idle.
/// A running cursor counts down; when its countdown reaches zero the
/// instruction under it executes and the cursor moves to the next address,
/// with that instruction's countdown, or goes idle when that address is off
/// the playfield.
pub open spec fn spec_advance(
    instructions: Seq<Instruction>,
    registers: Seq<u8>,
    executing_address: Option<i32>,
    countdown: u16,
) -> (Seq<u8>, Option<i32>, u16) {
    match executing_address {
        None => (registers, None, countdown),
        Some(a) => {
            let c = if countdown > 0 {
                (countdown - 1) as u16
            } else {
                0u16
            };
            if c > 0 {
                (registers, Some(a), c)
            } else {
                let regs = spec_execute(registers, instructions[a as int]);
                if spec_on_playfield(a + 1) {
                    (regs, Some((a + 1) as i32), countdown_for(instructions[a + 1]))
                } else {
                    (regs, None, 0u16)
                }
            }
        },
    }
}

/// Advances the execution cursor by one frame.
pub fn advance_execution(
    instructions: &[Instruction; PLAYFIELD_SIZE],
    registers: &mut [u8; REGISTER_AMOUNT],
    executing_address: &mut Option<i32>,
    instruction_countdown: &mut u16,
)
    requires
        *old(executing_address) matches Some(a) ==> spec_on_playfield(a as int),
    ensures
        (final(registers)@, *final(executing_address), *final(instruction_countdown))
            == spec_advance(
            instructions@,
            old(registers)@,
            *old(executing_address),
            *old(instruction_countdown),
        ),
{
    if let Some(address) = *executing_address {
        if *instruction_countdown > 0 {
            *instruction_countdown = *instruction_countdown - 1;
        }
        if *instruction_countdown == 0 {
            let new_address: i32 = execute(instructions, registers, address);
            if is_on_playfield(new_address) {
                set_executing_address(
                    instructions,
                    executing_address,
                    instruction_countdown,
                    new_address,
                );
            } else {
                *executing_address = None;
            }
        }
    }
}

/// Starts a run at address zero with a full countdown.
pub fn start_execution(executing_address: &mut Option<i32>, instruction_countdown: &mut u16)
    ensures
        *final(executing_address) == Some(0i32),
        *final(instruction_countdown) == COUNTDOWN_LENGTH,
{
    *executing_address = Some(0);
    *instruction_countdown = COUNTDOWN_LENGTH;
}

/// Stops any run and restores a full countdown.
pub fn break_execution(executing_address: &mut Option<i32>, instruction_countdown: &mut u16)
    ensures
        *final(executing_address) is None,
        *final(instruction_countdown) == COUNTDOWN_LENGTH,
{
    *executing_address = None;
    *instruction_countdown = COUNTDOWN_LENGTH;
}

/// A load leaves every register but its target as it was, writes its
/// operand into the target, and leaves the file's size as it was.
pub proof fn lemma_load(registers: Seq<u8>, data: crate::value::Data, register: Register)
    requires
        registers.len() == REGISTER_AMOUNT,
    ensures
        spec_execute(registers, Instruction::Load(data, register)).len() == REGISTER_AMOUNT,
        spec_execute(registers, Instruction::Load(data, register))[register.index() as int]
            == data.spec_value(),
        forall|j: int|
            0 <= j < REGISTER_AMOUNT && j != register.index() ==> #[trigger] spec_execute(
                registers,
                Instruction::Load(data, register),
            )[j] == registers[j],
{
}

/// An add stores the operand plus the old value, less 256 when the sum
/// passes 255; a sub stores the operand minus the old value, plus 256 when
/// the difference is negative. Neither can overflow.
pub proof fn lemma_wraparound(registers: Seq<u8>, data: crate::value::Data, register: Register)
    requires
        registers.len() == REGISTER_AMOUNT,
    ensures
        ({
            let old_value = registers[register.index() as int] as int;
            let d = data.spec_value() as int;
            &&& spec_execute(registers, Instruction::Add(data, register))[register.index() as int]
                == if d + old_value < 256 {
                d + old_value
            } else {
                d + old_value - 256
            }
            &&& spec_execute(registers, Instruction::Sub(data, register))[register.index() as int]
                == if d >= old_value {
                d - old_value
            } else {
                d - old_value + 256
            }
        }),
{
}

/// A cursor whose countdown runs out on the frame executes its instruction
/// and moves to the next address, with that instruction's countdown: the
/// short one when it is a no-op.
pub proof fn lemma_advance_moves_on(
    instructions: Seq<Instruction>,
    registers: Seq<u8>,
    address: i32,
    countdown: u16,
)
    requires
        instructions.len() == PLAYFIELD_SIZE,
        spec_on_playfield(address as int),
        spec_on_playfield(address + 1),
        countdown <= 1,
    ensures
        spec_advance(instructions, registers, Some(address), countdown) == (
            spec_execute(registers, instructions[address as int]),
            Some((address + 1) as i32),
            if instructions[address + 1] is NOP {
                COUNTDOWN_NOP_LENGTH
            } else {
                COUNTDOWN_LENGTH
            },
        ),
{
}

/// A cursor that executes the last slot of the playfield goes idle.
pub proof fn lemma_advance_past_end(
    instructions: Seq<Instruction>,
    registers: Seq<u8>,
    countdown: u16,
)
    requires
        instructions.len() == PLAYFIELD_SIZE,
        countdown <= 1,
    ensures
        spec_advance(instructions, registers, Some((PLAYFIELD_SIZE - 1) as i32), countdown).1
            is None,
{
}

} // verus!
