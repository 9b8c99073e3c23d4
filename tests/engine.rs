use palimpsest::engine::{
    advance_execution, break_execution, execute, get_register_value, is_on_playfield,
    set_executing_address, set_register, start_execution, COUNTDOWN_LENGTH,
    COUNTDOWN_NOP_LENGTH,
};
use palimpsest::{Data, Instruction, Register, PLAYFIELD_SIZE};

fn memory_of(instruction: Instruction) -> [Instruction; PLAYFIELD_SIZE] {
    [instruction; PLAYFIELD_SIZE]
}

#[test]
fn load_writes_only_its_register() {
    let memory = memory_of(Instruction::Load(Data::Immeadiate(77), Register::C));
    let mut registers = [1u8, 2, 3, 4, 5, 6, 7, 8];
    let next = execute(&memory, &mut registers, 5);
    assert_eq!(next, 6);
    assert_eq!(registers, [1, 2, 77, 4, 5, 6, 7, 8]);
}

#[test]
fn add_wraps_around() {
    let memory = memory_of(Instruction::Add(Data::Immeadiate(10), Register::A));
    let mut registers = [250u8, 0, 0, 0, 0, 0, 0, 0];
    assert_eq!(execute(&memory, &mut registers, 0), 1);
    assert_eq!(registers[0], 4);
}

#[test]
fn sub_takes_register_from_operand() {
    let memory = memory_of(Instruction::Sub(Data::Immeadiate(3), Register::B));
    let mut registers = [0u8, 5, 0, 0, 0, 0, 0, 0];
    assert_eq!(execute(&memory, &mut registers, 31), 32);
    assert_eq!(registers[1], 254);
}

#[test]
fn sub_without_borrow() {
    let memory = memory_of(Instruction::Sub(Data::Immeadiate(9), Register::B));
    let mut registers = [0u8, 5, 0, 0, 0, 0, 0, 0];
    execute(&memory, &mut registers, 0);
    assert_eq!(registers[1], 4);
}

#[test]
fn nop_and_jumps_fall_through() {
    for instruction in [
        Instruction::NOP,
        Instruction::JumpZero(Data::Immeadiate(3), Register::A),
        Instruction::JumpNotZero(Data::Immeadiate(3), Register::A),
        Instruction::JumpRZero(Register::A, Register::B),
        Instruction::JumpRNotZero(Register::A, Register::B),
    ] {
        let memory = memory_of(instruction);
        let mut registers = [9u8; 8];
        assert_eq!(execute(&memory, &mut registers, 7), 8);
        assert_eq!(registers, [9u8; 8]);
    }
}

#[test]
fn register_accessors() {
    let mut registers = [0u8; 8];
    set_register(&mut registers, 42, Register::H);
    assert_eq!(get_register_value(&registers, Register::H), 42);
    assert_eq!(registers[7], 42);
}

#[test]
fn playfield_bounds() {
    assert!(is_on_playfield(0));
    assert!(is_on_playfield(31));
    assert!(!is_on_playfield(32));
    assert!(!is_on_playfield(-1));
}

#[test]
fn last_tick_moves_to_nop_with_short_countdown() {
    let memory = memory_of(Instruction::NOP);
    let mut registers = [0u8; 8];
    let mut cursor = Some(0);
    let mut countdown = 1u16;
    advance_execution(&memory, &mut registers, &mut cursor, &mut countdown);
    assert_eq!(cursor, Some(1));
    assert_eq!(countdown, COUNTDOWN_NOP_LENGTH);
}

#[test]
fn last_tick_moves_to_instruction_with_full_countdown() {
    let mut memory = memory_of(Instruction::NOP);
    memory[1] = Instruction::Load(Data::Immeadiate(1), Register::A);
    let mut registers = [0u8; 8];
    let mut cursor = Some(0);
    let mut countdown = 1u16;
    advance_execution(&memory, &mut registers, &mut cursor, &mut countdown);
    assert_eq!(cursor, Some(1));
    assert_eq!(countdown, COUNTDOWN_LENGTH);
    assert_eq!(registers, [0u8; 8]);
}

#[test]
fn tick_counts_down_before_executing() {
    let memory = memory_of(Instruction::Load(Data::Immeadiate(5), Register::A));
    let mut registers = [0u8; 8];
    let mut cursor = Some(3);
    let mut countdown = 5u16;
    advance_execution(&memory, &mut registers, &mut cursor, &mut countdown);
    assert_eq!(cursor, Some(3));
    assert_eq!(countdown, 4);
    assert_eq!(registers[0], 0);
}

#[test]
fn stepping_past_last_slot_goes_idle() {
    let memory = memory_of(Instruction::Load(Data::Immeadiate(5), Register::A));
    let mut registers = [0u8; 8];
    let mut cursor = Some(31);
    let mut countdown = 1u16;
    advance_execution(&memory, &mut registers, &mut cursor, &mut countdown);
    assert_eq!(cursor, None);
    assert_eq!(registers[0], 5);
}

#[test]
fn idle_cursor_stays_idle() {
    let memory = memory_of(Instruction::NOP);
    let mut registers = [3u8; 8];
    let mut cursor = None;
    let mut countdown = 7u16;
    advance_execution(&memory, &mut registers, &mut cursor, &mut countdown);
    assert_eq!(cursor, None);
    assert_eq!(countdown, 7);
    assert_eq!(registers, [3u8; 8]);
}

#[test]
fn run_and_break_controls() {
    let mut cursor = None;
    let mut countdown = 0u16;
    start_execution(&mut cursor, &mut countdown);
    assert_eq!((cursor, countdown), (Some(0), COUNTDOWN_LENGTH));
    countdown = 3;
    break_execution(&mut cursor, &mut countdown);
    assert_eq!((cursor, countdown), (None, COUNTDOWN_LENGTH));
}

#[test]
fn set_executing_address_picks_countdown() {
    let mut memory = memory_of(Instruction::NOP);
    memory[4] = Instruction::Add(Data::Immeadiate(1), Register::A);
    let mut cursor = None;
    let mut countdown = 0u16;
    set_executing_address(&memory, &mut cursor, &mut countdown, 4);
    assert_eq!((cursor, countdown), (Some(4), COUNTDOWN_LENGTH));
    set_executing_address(&memory, &mut cursor, &mut countdown, 5);
    assert_eq!((cursor, countdown), (Some(5), COUNTDOWN_NOP_LENGTH));
    set_executing_address(&memory, &mut cursor, &mut countdown, 32);
    assert_eq!((cursor, countdown), (Some(5), COUNTDOWN_NOP_LENGTH));
}
