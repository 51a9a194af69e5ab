use vstd::prelude::*;

verus! {

/// The primary opcodes with defined semantics, by mnemonic.
#[derive(Debug, Clone, Copy, PartialEq, Eq, Structural)]
pub enum Instruction {
    /// `0x00` NOP
    Nop,
    /// `0x05` DEC B
    DecB,
    /// `0x06` LD B, n8
    LdBN8,
    /// `0x0C` INC C
    IncC,
    /// `0x0E` LD C, n8
    LdCN8,
    /// `0x11` LD DE, n16
    LdDeN16,
    /// `0x13` INC DE
    IncDe,
    /// `0x17` RLA
    Rla,
    /// `0x1A` LD A, [DE]
    LdADe,
    /// `0x20` JR NZ, e8
    JrNzE8,
    /// `0x21` LD HL, n16
    LdHlN16,
    /// `0x22` LD [HL+], A
    LdHliA,
    /// `0x23` INC HL
    IncHl,
    /// `0x31` LD SP, n16
    LdSpN16,
    /// `0x32` LD [HL-], A
    LdHldA,
    /// `0x3E` LD A, n8
    LdAN8,
    /// `0x4F` LD C, A
    LdCA,
    /// `0x77` LD [HL], A
    LdHlA,
    /// `0x78` LD A, B
    LdAB,
    /// `0x7D` LD A, L
    LdAL,
    /// `0x86` ADD A, [HL]
    AddAHl,
    /// `0xAF` XOR A, A
    XorAA,
    /// `0xBE` CP A, [HL]
    CpAHl,
    /// `0xC1` POP BC
    PopBc,
    /// `0xC5` PUSH BC
    PushBc,
    /// `0xC9` RET
    Ret,
    /// `0xCB`: the next byte selects an [`Extended`] instruction
    Prefix,
    /// `0xCD` CALL a16
    CallA16,
    /// `0xD1` POP DE
    PopDe,
    /// `0xE0` LDH [a8], A
    LdhA8A,
    /// `0xE2` LDH [C], A
    LdhCA,
    /// `0xE5` PUSH HL
    PushHl,
    /// `0xFE` CP A, n8
    CpAN8,
}

/// The opcodes of the second table, reached through the `0xCB` prefix.
#[derive(Debug, Clone, Copy, PartialEq, Eq, Structural)]
pub enum Extended {
    /// `0xCB 0x11` RL C
    RlC,
    /// `0xCB 0x7C` BIT 7, H
    Bit7H,
}

impl Instruction {
    /// The instruction a primary opcode byte selects, if it has one.
    pub open spec fn of(opcode: u8) -> Option<Instruction> {
        if opcode == 0x00 {
            Some(Instruction::Nop)
        } else if opcode == 0x05 {
            Some(Instruction::DecB)
        } else if opcode == 0x06 {
            Some(Instruction::LdBN8)
        } else if opcode == 0x0C {
            Some(Instruction::IncC)
        } else if opcode == 0x0E {
            Some(Instruction::LdCN8)
        } else if opcode == 0x11 {
            Some(Instruction::LdDeN16)
        } else if opcode == 0x13 {
            Some(Instruction::IncDe)
        } else if opcode == 0x17 {
            Some(Instruction::Rla)
        } else if opcode == 0x1A {
            Some(Instruction::LdADe)
        } else if opcode == 0x20 {
            Some(Instruction::JrNzE8)
        } else if opcode == 0x21 {
            Some(Instruction::LdHlN16)
        } else if opcode == 0x22 {
            Some(Instruction::LdHliA)
        } else if opcode == 0x23 {
            Some(Instruction::IncHl)
        } else if opcode == 0x31 {
            Some(Instruction::LdSpN16)
        } else if opcode == 0x32 {
            Some(Instruction::LdHldA)
        } else if opcode == 0x3E {
            Some(Instruction::LdAN8)
        } else if opcode == 0x4F {
            Some(Instruction::LdCA)
        } else if opcode == 0x77 {
            Some(Instruction::LdHlA)
        } else if opcode == 0x78 {
            Some(Instruction::LdAB)
        } else if opcode == 0x7D {
            Some(Instruction::LdAL)
        } else if opcode == 0x86 {
            Some(Instruction::AddAHl)
        } else if opcode == 0xAF {
            Some(Instruction::XorAA)
        } else if opcode == 0xBE {
            Some(Instruction::CpAHl)
        } else if opcode == 0xC1 {
            Some(Instruction::PopBc)
        } else if opcode == 0xC5 {
            Some(Instruction::PushBc)
        } else if opcode == 0xC9 {
            Some(Instruction::Ret)
        } else if opcode == 0xCB {
            Some(Instruction::Prefix)
        } else if opcode == 0xCD {
            Some(Instruction::CallA16)
        } else if opcode == 0xD1 {
            Some(Instruction::PopDe)
        } else if opcode == 0xE0 {
            Some(Instruction::LdhA8A)
        } else if opcode == 0xE2 {
            Some(Instruction::LdhCA)
        } else if opcode == 0xE5 {
            Some(Instruction::PushHl)
        } else if opcode == 0xFE {
            Some(Instruction::CpAN8)
        } else {
            None
        }
    }

    /// Whether the instruction is documented to write any of the four flags.
    pub open spec fn writes_flags(self) -> bool {
        match self {
            Instruction::DecB
            | Instruction::IncC
            | Instruction::Rla
            | Instruction::AddAHl
            | Instruction::XorAA
            | Instruction::CpAHl
            | Instruction::CpAN8
            | Instruction::Prefix => true,
            _ => false,
        }
    }

    /// Looks a primary opcode byte up in the instruction table.
    pub fn decode(opcode: u8) -> (found: Option<Instruction>)
        ensures
            found == Instruction::of(opcode),
    {
        match opcode {
            0x00 => Some(Instruction::Nop),
            0x05 => Some(Instruction::DecB),
            0x06 => Some(Instruction::LdBN8),
            0x0C => Some(Instruction::IncC),
            0x0E => Some(Instruction::LdCN8),
            0x11 => Some(Instruction::LdDeN16),
            0x13 => Some(Instruction::IncDe),
            0x17 => Some(Instruction::Rla),
            0x1A => Some(Instruction::LdADe),
            0x20 => Some(Instruction::JrNzE8),
            0x21 => Some(Instruction::LdHlN16),
            0x22 => Some(Instruction::LdHliA),
            0x23 => Some(Instruction::IncHl),
            0x31 => Some(Instruction::LdSpN16),
            0x32 => Some(Instruction::LdHldA),
            0x3E => Some(Instruction::LdAN8),
            0x4F => Some(Instruction::LdCA),
            0x77 => Some(Instruction::LdHlA),
            0x78 => Some(Instruction::LdAB),
            0x7D => Some(Instruction::LdAL),
            0x86 => Some(Instruction::AddAHl),
            0xAF => Some(Instruction::XorAA),
            0xBE => Some(Instruction::CpAHl),
            0xC1 => Some(Instruction::PopBc),
            0xC5 => Some(Instruction::PushBc),
            0xC9 => Some(Instruction::Ret),
            0xCB => Some(Instruction::Prefix),
            0xCD => Some(Instruction::CallA16),
            0xD1 => Some(Instruction::PopDe),
            0xE0 => Some(Instruction::LdhA8A),
            0xE2 => Some(Instruction::LdhCA),
            0xE5 => Some(Instruction::PushHl),
            0xFE => Some(Instruction::CpAN8),
            _ => None,
        }
    }
}

impl Extended {
    /// The instruction a byte after the prefix selects, if it has one.
    pub open spec fn of(opcode: u8) -> Option<Extended> {
        if opcode == 0x11 {
            Some(Extended::RlC)
        } else if opcode == 0x7C {
            Some(Extended::Bit7H)
        } else {
            None
        }
    }

    /// Looks the byte after the prefix up in the extended table.
    pub fn decode(opcode: u8) -> (found: Option<Extended>)
        ensures
            found == Extended::of(opcode),
    {
        match opcode {
            0x11 => Some(Extended::RlC),
            0x7C => Some(Extended::Bit7H),
            _ => None,
        }
    }
}

} // verus!
