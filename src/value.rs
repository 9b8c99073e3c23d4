//! Registers, operands and instructions, with their canonical text.

use vstd::prelude::*;
use vstd::string::*;

use crate::rng::{random_byte, random_in};
use rand::StdRng;

verus! {

/// Number of addressable instruction slots in the playfield.
pub const PLAYFIELD_SIZE: usize = 32;

/// Number of registers in the register file.
pub const REGISTER_AMOUNT: usize = 8;

/// The eight symbolic registers.
#[derive(Clone, Copy, Debug, PartialEq, Eq, Structural)]
pub enum Register {
    A,
    B,
    C,
    D,
    E,
    F,
    G,
    H,
}

impl Register {
    /// Position of the register in the register file.
    pub open spec fn index(self) -> nat {
        match self {
            Register::A => 0,
            Register::B => 1,
            Register::C => 2,
            Register::D => 3,
            Register::E => 4,
            Register::F => 5,
            Register::G => 6,
            Register::H => 7,
        }
    }

    /// Position of the register in the register file.
    pub fn to_index(self) -> (r: usize)
        ensures
            r == self.index(),
            r < REGISTER_AMOUNT,
    {
        match self {
            Register::A => 0,
            Register::B => 1,
            Register::C => 2,
            Register::D => 3,
            Register::E => 4,
            Register::F => 5,
            Register::G => 6,
            Register::H => 7,
        }
    }
}

/// The register at position `n` of the register file, if there is one.
pub fn to_register(n: i32) -> (r: Option<Register>)
    ensures
        0 <= n < REGISTER_AMOUNT ==> r is Some && r->Some_0.index() == n,
        !(0 <= n < REGISTER_AMOUNT) ==> r is None,
{
    match n {
        0 => Some(Register::A),
        1 => Some(Register::B),
        2 => Some(Register::C),
        3 => Some(Register::D),
        4 => Some(Register::E),
        5 => Some(Register::F),
        6 => Some(Register::G),
        7 => Some(Register::H),
        _ => None,
    }
}

/// An instruction operand.
#[derive(Clone, Copy, Debug, PartialEq, Eq, Structural)]
pub enum Data {
    Immeadiate(u8),
}

impl Data {
    /// The byte the operand stands for.
    pub open spec fn spec_value(self) -> u8 {
        match self {
            Data::Immeadiate(v) => v,
        }
    }
}

/// The byte an operand stands for.
pub fn get_value(data: Data) -> (r: u8)
    ensures
        r == data.spec_value(),
{
    match data {
        Data::Immeadiate(v) => v,
    }
}

/// The instruction set of the machine.
#[derive(Clone, Copy, Debug, PartialEq, Eq, Structural)]
pub enum Instruction {
    NOP,
    Load(Data, Register),
    Add(Data, Register),
    Sub(Data, Register),
    JumpZero(Data, Register),
    JumpNotZero(Data, Register),
    JumpRZero(Register, Register),
    JumpRNotZero(Register, Register),
}

/// The hexadecimal digit of value `n`, as a one-character text.
pub open spec fn hex_digit(n: nat) -> Seq<char> {
    "0123456789ABCDEF"@.subrange(n as int, n as int + 1)
}

/// A byte as `0x` followed by two upper-case hexadecimal digits.
pub open spec fn byte_text(b: u8) -> Seq<char> {
    "0x"@ + hex_digit(b as nat / 16) + hex_digit(b as nat % 16)
}

/// The name of a register.
pub open spec fn register_text(r: Register) -> Seq<char> {
    match r {
        Register::A => "A"@,
        Register::B => "B"@,
        Register::C => "C"@,
        Register::D => "D"@,
        Register::E => "E"@,
        Register::F => "F"@,
        Register::G => "G"@,
        Register::H => "H"@,
    }
}

/// The text of an operand.
pub open spec fn data_text(d: Data) -> Seq<char> {
    byte_text(d.spec_value())
}

/// A mnemonic followed by its two operands, each after a space.
pub open spec fn operands_text(mnemonic: Seq<char>, first: Seq<char>, second: Seq<char>) -> Seq<char> {
    mnemonic + " "@ + first + " "@ + second
}

/// The canonical text of an instruction.
pub open spec fn instruction_text(i: Instruction) -> Seq<char> {
    match i {
        Instruction::NOP => "NOP"@,
        Instruction::Load(d, r) => operands_text("load"@, data_text(d), register_text(r)),
        Instruction::Add(d, r) => operands_text("add "@, data_text(d), register_text(r)),
        Instruction::Sub(d, r) => operands_text("sub "@, data_text(d), register_text(r)),
        Instruction::JumpZero(d, r) => operands_text("JZ "@, data_text(d), register_text(r)),
        Instruction::JumpNotZero(d, r) => operands_text("JNZ "@, data_text(d), register_text(r)),
        Instruction::JumpRZero(r1, r2) => operands_text("JRZ"@, register_text(r1), register_text(r2)),
        Instruction::JumpRNotZero(r1, r2) => operands_text(
            "JRNZ"@,
            register_text(r1),
            register_text(r2),
        ),
    }
}

fn hex_digit_str(n: u8) -> (r: &'static str)
    requires
        n < 16,
    ensures
        r@ == hex_digit(n as nat),
{
    let digits = "0123456789ABCDEF";
    proof {
        reveal_strlit("0123456789ABCDEF");
    }
    assert(digits.is_ascii());
    digits.substring_ascii(n as usize, n as usize + 1)
}

/// `0x` followed by the two hexadecimal digits of `b`.
pub fn byte_to_text(b: u8) -> (r: String)
    ensures
        r@ == byte_text(b),
{
    let mut s = String::from_str("0x");
    s.append(hex_digit_str(b / 16));
    s.append(hex_digit_str(b % 16));
    s
}

impl Register {
    /// The name of the register.
    pub fn name(self) -> (r: &'static str)
        ensures
            r@ == register_text(self),
    {
        match self {
            Register::A => "A",
            Register::B => "B",
            Register::C => "C",
            Register::D => "D",
            Register::E => "E",
            Register::F => "F",
            Register::G => "G",
            Register::H => "H",
        }
    }

    /// The name of the register, as an owned string.
    pub fn to_text(self) -> (r: String)
        ensures
            r@ == register_text(self),
    {
        String::from_str(self.name())
    }
}

impl Data {
    /// The operand as `0x` followed by two hexadecimal digits.
    pub fn to_text(self) -> (r: String)
        ensures
            r@ == data_text(self),
    {
        byte_to_text(get_value(self))
    }
}

fn operands_to_text(mnemonic: &str, first: &str, second: &str) -> (r: String)
    ensures
        r@ == operands_text(mnemonic@, first@, second@),
{
    let mut s = String::from_str(mnemonic);
    s.append(" ");
    s.append(first);
    s.append(" ");
    s.append(second);
    s
}

impl Instruction {
    /// The canonical text of the instruction: the mnemonic alone for a no-op,
    /// else the mnemonic followed by its two operands.
    pub fn to_text(&self) -> (r: String)
        ensures
            r@ == instruction_text(*self),
    {
        match *self {
            Instruction::NOP => String::from_str("NOP"),
            Instruction::Load(d, r) => operands_to_text(
                "load",
                d.to_text().as_str(),
                r.name(),
            ),
            Instruction::Add(d, r) => operands_to_text("add ", d.to_text().as_str(), r.name()),
            Instruction::Sub(d, r) => operands_to_text("sub ", d.to_text().as_str(), r.name()),
            Instruction::JumpZero(d, r) => operands_to_text("JZ ", d.to_text().as_str(), r.name()),
            Instruction::JumpNotZero(d, r) => operands_to_text(
                "JNZ ",
                d.to_text().as_str(),
                r.name(),
            ),
            Instruction::JumpRZero(r1, r2) => operands_to_text("JRZ", r1.name(), r2.name()),
            Instruction::JumpRNotZero(r1, r2) => operands_to_text("JRNZ", r1.name(), r2.name()),
        }
    }
}

/// Number of registers that random instructions draw from.
pub const REGISTER_VARIATION_COUNT: u8 = 4;

/// Number of instruction kinds that random instructions draw from.
pub const INSTRUCTION_VARIATION_COUNT: u8 = 8;

/// Number of operand kinds that random operands draw from.
pub const DATA_VARIATION_COUNT: u8 = 1;

impl Register {
    /// The register for a drawn number: the one at that position, or the
    /// last register for any larger number.
    pub fn from_draw(n: u8) -> (r: Register)
        ensures
            n < REGISTER_AMOUNT ==> r.index() == n,
            n >= REGISTER_AMOUNT ==> r == Register::H,
    {
        match n {
            0 => Register::A,
            1 => Register::B,
            2 => Register::C,
            3 => Register::D,
            4 => Register::E,
            5 => Register::F,
            6 => Register::G,
            _ => Register::H,
        }
    }

    /// A register drawn uniformly from the first `REGISTER_VARIATION_COUNT`.
    pub fn rand(rng: &mut StdRng) -> (r: Register)
        ensures
            r.index() < REGISTER_VARIATION_COUNT,
    {
        let n: u8 = random_in(rng, 0, REGISTER_VARIATION_COUNT);
        Register::from_draw(n)
    }
}

impl Data {
    /// An immediate operand holding a uniformly drawn byte.
    pub fn rand(rng: &mut StdRng) -> (r: Data) {
        let _kind: u8 = random_in(rng, 0, DATA_VARIATION_COUNT);
        Data::Immeadiate(random_byte(rng))
    }
}

impl Instruction {
    /// Whether every register operand of the instruction lies among the
    /// first `n` registers.
    pub open spec fn registers_below(self, n: nat) -> bool {
        match self {
            Instruction::NOP => true,
            Instruction::Load(_, r) => r.index() < n,
            Instruction::Add(_, r) => r.index() < n,
            Instruction::Sub(_, r) => r.index() < n,
            Instruction::JumpZero(_, r) => r.index() < n,
            Instruction::JumpNotZero(_, r) => r.index() < n,
            Instruction::JumpRZero(r1, r2) => r1.index() < n && r2.index() < n,
            Instruction::JumpRNotZero(r1, r2) => r1.index() < n && r2.index() < n,
        }
    }

    /// The instruction of kind number `kind`, taking its operands from
    /// `data`, `first` and `second`: kinds 1 to 5 are load, add, sub,
    /// jump-if-zero and jump-if-not-zero on `data` and `first`; kinds 6 and 7
    /// are the register-addressed jumps on `first` and `second`; any other
    /// kind is a no-op.
    pub open spec fn spec_of_kind(kind: u8, data: Data, first: Register, second: Register) -> Instruction {
        match kind {
            1 => Instruction::Load(data, first),
            2 => Instruction::Add(data, first),
            3 => Instruction::Sub(data, first),
            4 => Instruction::JumpZero(data, first),
            5 => Instruction::JumpNotZero(data, first),
            6 => Instruction::JumpRZero(first, second),
            7 => Instruction::JumpRNotZero(first, second),
            _ => Instruction::NOP,
        }
    }

    /// The instruction of kind number `kind` with the given operands.
    pub fn of_kind(kind: u8, data: Data, first: Register, second: Register) -> (r: Instruction)
        ensures
            r == Instruction::spec_of_kind(kind, data, first, second),
    {
        match kind {
            1 => Instruction::Load(data, first),
            2 => Instruction::Add(data, first),
            3 => Instruction::Sub(data, first),
            4 => Instruction::JumpZero(data, first),
            5 => Instruction::JumpNotZero(data, first),
            6 => Instruction::JumpRZero(first, second),
            7 => Instruction::JumpRNotZero(first, second),
            _ => Instruction::NOP,
        }
    }

    /// An instruction whose kind is drawn uniformly from the eight kinds,
    /// with the operands that kind needs drawn after it, data before
    /// register.
    pub fn rand(rng: &mut StdRng) -> (r: Instruction)
        ensures
            exists|kind: u8, data: Data, first: Register, second: Register|
                kind < INSTRUCTION_VARIATION_COUNT && first.index() < REGISTER_VARIATION_COUNT
                    && second.index() < REGISTER_VARIATION_COUNT && r
                    == Instruction::spec_of_kind(kind, data, first, second),
            r.registers_below(REGISTER_VARIATION_COUNT as nat),
    {
        let kind: u8 = random_in(rng, 0, INSTRUCTION_VARIATION_COUNT);
        if 1 <= kind && kind <= 5 {
            let data = Data::rand(rng);
            let first = Register::rand(rng);
            Instruction::of_kind(kind, data, first, first)
        } else if kind == 6 || kind == 7 {
            let first = Register::rand(rng);
            let second = Register::rand(rng);
            Instruction::of_kind(kind, Data::Immeadiate(0), first, second)
        } else {
            Instruction::of_kind(kind, Data::Immeadiate(0), Register::A, Register::A)
        }
    }
}

/// The program the playfield starts with: no-ops, but for a load of `n`
/// into a distinct register at each address `n` among 2, 4, 8 and 16.
pub open spec fn initial_program() -> Seq<Instruction> {
    Seq::new(
        PLAYFIELD_SIZE as nat,
        |i: int|
            if i == 2 {
                Instruction::Load(Data::Immeadiate(2), Register::A)
            } else if i == 4 {
                Instruction::Load(Data::Immeadiate(4), Register::B)
            } else if i == 8 {
                Instruction::Load(Data::Immeadiate(8), Register::C)
            } else if i == 16 {
                Instruction::Load(Data::Immeadiate(16), Register::D)
            } else {
                Instruction::NOP
            },
    )
}

/// The program a new session starts with.
pub fn get_instructions() -> (r: [Instruction; PLAYFIELD_SIZE])
    ensures
        r@ == initial_program(),
{
    let mut result = [Instruction::NOP; PLAYFIELD_SIZE];
    result[2] = Instruction::Load(Data::Immeadiate(2), Register::A);
    result[4] = Instruction::Load(Data::Immeadiate(4), Register::B);
    result[8] = Instruction::Load(Data::Immeadiate(8), Register::C);
    result[16] = Instruction::Load(Data::Immeadiate(16), Register::D);
    assert(result@ =~= initial_program());
    result
}

} // verus!
