use palimpsest::value::{byte_to_text, get_value, REGISTER_VARIATION_COUNT};
use palimpsest::{get_instructions, to_register, Data, Instruction, Register, PLAYFIELD_SIZE};

#[test]
fn to_register_maps_each_index() {
    let all = [
        Register::A,
        Register::B,
        Register::C,
        Register::D,
        Register::E,
        Register::F,
        Register::G,
        Register::H,
    ];
    for (i, r) in all.iter().enumerate() {
        assert_eq!(to_register(i as i32), Some(*r));
        assert_eq!(r.to_index(), i);
    }
    assert_eq!(to_register(8), None);
    assert_eq!(to_register(-1), None);
}

#[test]
fn register_from_draw_saturates_at_last() {
    assert_eq!(Register::from_draw(0), Register::A);
    assert_eq!(Register::from_draw(3), Register::D);
    assert_eq!(Register::from_draw(7), Register::H);
    assert_eq!(Register::from_draw(200), Register::H);
}

#[test]
fn byte_text_is_prefixed_upper_hex() {
    assert_eq!(byte_to_text(0), "0x00");
    assert_eq!(byte_to_text(2), "0x02");
    assert_eq!(byte_to_text(171), "0xAB");
    assert_eq!(byte_to_text(255), "0xFF");
}

#[test]
fn data_value_and_text() {
    let d = Data::Immeadiate(16);
    assert_eq!(get_value(d), 16);
    assert_eq!(d.to_text(), "0x10");
}

#[test]
fn register_names() {
    assert_eq!(Register::A.to_text(), "A");
    assert_eq!(Register::H.name(), "H");
}

#[test]
fn instruction_texts() {
    assert_eq!(Instruction::NOP.to_text(), "NOP");
    assert_eq!(
        Instruction::Load(Data::Immeadiate(2), Register::A).to_text(),
        "load 0x02 A"
    );
    assert_eq!(
        Instruction::Add(Data::Immeadiate(255), Register::B).to_text(),
        "add  0xFF B"
    );
    assert_eq!(
        Instruction::Sub(Data::Immeadiate(10), Register::C).to_text(),
        "sub  0x0A C"
    );
    assert_eq!(
        Instruction::JumpZero(Data::Immeadiate(1), Register::D).to_text(),
        "JZ  0x01 D"
    );
    assert_eq!(
        Instruction::JumpNotZero(Data::Immeadiate(31), Register::E).to_text(),
        "JNZ  0x1F E"
    );
    assert_eq!(
        Instruction::JumpRZero(Register::F, Register::G).to_text(),
        "JRZ F G"
    );
    assert_eq!(
        Instruction::JumpRNotZero(Register::H, Register::A).to_text(),
        "JRNZ H A"
    );
}

#[test]
fn initial_program_seeds_four_loads() {
    let program = get_instructions();
    assert_eq!(program.len(), PLAYFIELD_SIZE);
    for (address, instruction) in program.iter().enumerate() {
        let expected = match address {
            2 => Instruction::Load(Data::Immeadiate(2), Register::A),
            4 => Instruction::Load(Data::Immeadiate(4), Register::B),
            8 => Instruction::Load(Data::Immeadiate(8), Register::C),
            16 => Instruction::Load(Data::Immeadiate(16), Register::D),
            _ => Instruction::NOP,
        };
        assert_eq!(*instruction, expected);
    }
}

fn register_in_draw_range(r: Register) -> bool {
    r.to_index() < REGISTER_VARIATION_COUNT as usize
}

#[test]
fn dealt_instructions_use_first_registers() {
    let game = palimpsest::game::new_game(get_instructions(), palimpsest::Size::new(80, 30));
    for card in game.cards.iter() {
        for instruction in card.instructions.iter() {
            let ok = match *instruction {
                Instruction::NOP => true,
                Instruction::Load(_, r)
                | Instruction::Add(_, r)
                | Instruction::Sub(_, r)
                | Instruction::JumpZero(_, r)
                | Instruction::JumpNotZero(_, r) => register_in_draw_range(r),
                Instruction::JumpRZero(a, b) | Instruction::JumpRNotZero(a, b) => {
                    register_in_draw_range(a) && register_in_draw_range(b)
                }
            };
            assert!(ok);
        }
    }
}

#[test]
fn kinds_map_to_instructions() {
    let d = Data::Immeadiate(9);
    let (a, b) = (Register::B, Register::C);
    assert_eq!(Instruction::of_kind(0, d, a, b), Instruction::NOP);
    assert_eq!(Instruction::of_kind(1, d, a, b), Instruction::Load(d, a));
    assert_eq!(Instruction::of_kind(2, d, a, b), Instruction::Add(d, a));
    assert_eq!(Instruction::of_kind(3, d, a, b), Instruction::Sub(d, a));
    assert_eq!(Instruction::of_kind(4, d, a, b), Instruction::JumpZero(d, a));
    assert_eq!(Instruction::of_kind(5, d, a, b), Instruction::JumpNotZero(d, a));
    assert_eq!(Instruction::of_kind(6, d, a, b), Instruction::JumpRZero(a, b));
    assert_eq!(Instruction::of_kind(7, d, a, b), Instruction::JumpRNotZero(a, b));
    assert_eq!(Instruction::of_kind(8, d, a, b), Instruction::NOP);
}

#[test]
fn dealt_hand_varies_in_length_and_kind() {
    let game = palimpsest::game::new_game(get_instructions(), palimpsest::Size::new(80, 30));
    let lengths: Vec<usize> = game.cards.iter().map(|c| c.instructions.len()).collect();
    assert!(lengths.iter().any(|&n| n > 1));
    assert!(lengths.iter().any(|&n| n != lengths[0]));
    let kinds: Vec<Instruction> =
        game.cards.iter().flat_map(|c| c.instructions.iter().copied()).collect();
    assert!(kinds.iter().any(|i| *i != Instruction::NOP));
    assert!(kinds.iter().any(|i| matches!(i, Instruction::Load(..) | Instruction::Add(..) | Instruction::Sub(..) | Instruction::JumpZero(..) | Instruction::JumpNotZero(..))));
}
