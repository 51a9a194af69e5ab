use vstd::prelude::*;

use crate::gb::error::ErrorKind;
use crate::gb::flags::{
    with_c, with_flags, with_h, with_n, with_z, CMASK, HMASK, NMASK, ZMASK,
};
use crate::gb::instruction::{Extended, Instruction};
use crate::gb::machine::{lemma_step_keeps_low_nibble, Machine};
use crate::gb::mmu::Mmu;
use crate::gb::word::{
    high_byte, lemma_high_page, lemma_join, lemma_low_nibble, lemma_rotate, lemma_signed,
    lemma_split, low_byte, pair, rotated_left, wrap16, wrap8,
};

verus! {

/// The SM83 register file.
#[derive(Debug, Clone, Copy, PartialEq, Eq, Structural)]
pub struct Cpu {
    pub a: u8,
    pub f: u8,
    pub b: u8,
    pub c: u8,
    pub d: u8,
    pub e: u8,
    pub h: u8,
    pub l: u8,
    pub pc: u16,
    pub sp: u16,
}

impl Cpu {
    /// The value of the register pair BC.
    pub open spec fn spec_bc(self) -> u16 {
        pair(self.b, self.c)
    }

    /// The value of the register pair DE.
    pub open spec fn spec_de(self) -> u16 {
        pair(self.d, self.e)
    }

    /// The value of the register pair HL.
    pub open spec fn spec_hl(self) -> u16 {
        pair(self.h, self.l)
    }

    /// The low nibble of F is unused and reads as zero.
    pub open spec fn wf(self) -> bool {
        self.f & 0x0F == 0
    }

    /// DEC B: B wraps down by one; Z on a zero result, N set, H on a borrow
    /// from bit 4, C unaffected.
    pub open spec fn spec_dec_b(self) -> Cpu {
        let b = wrap8(self.b - 1);
        Cpu { b, f: with_h(with_n(with_z(self.f, b == 0), true), self.b % 16 == 0), ..self }
    }

    /// INC C: C wraps up by one; Z on a zero result, N cleared, H on a carry
    /// out of bit 3, C flag unaffected.
    pub open spec fn spec_inc_c(self) -> Cpu {
        let c = wrap8(self.c + 1);
        Cpu { c, f: with_h(with_n(with_z(self.f, c == 0), false), self.c % 16 == 15), ..self }
    }

    /// INC DE: the pair wraps up by one; no flag is touched.
    pub open spec fn spec_inc_de(self) -> Cpu {
        let de = wrap16(self.spec_de() + 1);
        Cpu { d: high_byte(de), e: low_byte(de), ..self }
    }

    /// INC HL: the pair wraps up by one; no flag is touched.
    pub open spec fn spec_inc_hl(self) -> Cpu {
        let hl = wrap16(self.spec_hl() + 1);
        Cpu { h: high_byte(hl), l: low_byte(hl), ..self }
    }

    /// HL wraps down by one; no flag is touched.
    pub open spec fn spec_dec_hl(self) -> Cpu {
        let hl = wrap16(self.spec_hl() - 1);
        Cpu { h: high_byte(hl), l: low_byte(hl), ..self }
    }

    /// RLA: A rotates left by one; C takes the bit that left, Z, N and H are
    /// cleared.
    pub open spec fn spec_rla(self) -> Cpu {
        Cpu {
            a: rotated_left(self.a),
            f: with_flags(self.f, false, false, false, self.a >= 0x80),
            ..self
        }
    }

    /// RL C: register C rotates left by one, with the flags of RLA.
    pub open spec fn spec_rlc(self) -> Cpu {
        Cpu {
            c: rotated_left(self.c),
            f: with_flags(self.f, false, false, false, self.c >= 0x80),
            ..self
        }
    }

    /// LD C, A.
    pub open spec fn spec_ld_c_a(self) -> Cpu {
        Cpu { c: self.a, ..self }
    }

    /// LD A, B.
    pub open spec fn spec_ld_a_b(self) -> Cpu {
        Cpu { a: self.b, ..self }
    }

    /// LD A, L.
    pub open spec fn spec_ld_a_l(self) -> Cpu {
        Cpu { a: self.l, ..self }
    }

    /// XOR A, A: A becomes zero; Z set, N, H and C cleared.
    pub open spec fn spec_xor_a_a(self) -> Cpu {
        Cpu { a: 0, f: with_flags(self.f, true, false, false, false), ..self }
    }

    /// BIT 7, H: Z when bit 7 of H is clear, N cleared, H set, C unaffected.
    pub open spec fn spec_bit_7h(self) -> Cpu {
        Cpu { f: with_h(with_n(with_z(self.f, self.h < 0x80), false), true), ..self }
    }

    /// ADD A, `value`: A wraps up by `value`; Z on a zero result, N cleared,
    /// H on a carry out of bit 3, C on a carry out of bit 7.
    pub open spec fn spec_add_a(self, value: u8) -> Cpu {
        let sum = wrap8(self.a + value);
        Cpu {
            a: sum,
            f: with_flags(
                self.f,
                sum == 0,
                false,
                self.a % 16 + value % 16 > 15,
                self.a + value > 255,
            ),
            ..self
        }
    }

    /// CP A, `value`: A minus `value` is formed and dropped; Z on equality,
    /// N set, H on a borrow from bit 4, C when `value` is the larger.
    pub open spec fn spec_compare(self, value: u8) -> Cpu {
        Cpu {
            f: with_flags(
                self.f,
                self.a == value,
                true,
                self.a % 16 < value % 16,
                self.a < value,
            ),
            ..self
        }
    }

    /// The register file at power-on: every register zero.
    pub open spec fn zeroed() -> Cpu {
        Cpu { a: 0, f: 0, b: 0, c: 0, d: 0, e: 0, h: 0, l: 0, pc: 0, sp: 0 }
    }

    /// All registers zero.
    pub fn new() -> (cpu: Self)
        ensures
            cpu == Cpu::zeroed(),
            cpu.wf(),
    {
        assert(0u8 & 0x0F == 0) by (bit_vector);
        Self { a: 0, f: 0, b: 0, c: 0, d: 0, e: 0, h: 0, l: 0, pc: 0, sp: 0 }
    }

    /// Reads the byte at PC and moves PC past it.
    pub fn fetch_instruction<M: Mmu>(&mut self, memory: &mut M) -> (instr: u8)
        ensures
            instr == Machine::of(*old(self), old(memory)@).fetch().0,
            Machine::of(*final(self), final(memory)@) == Machine::of(*old(self), old(memory)@).fetch().1,
    {
        let instr = memory.read_byte(self.pc);
        self.pc = self.pc.wrapping_add(1);
        instr
    }

    /// Executes the instruction that `instr` selects. A byte with no
    /// instruction behind it, here or after the `0xCB` prefix, is reported and
    /// otherwise acts as a no-op.
    pub fn execute_instruction<M: Mmu>(&mut self, instr: u8, memory: &mut M) -> (r: Result<
        (),
        ErrorKind,
    >)
        ensures
            match Machine::of(*old(self), old(memory)@).unimplemented(instr) {
                Some(byte) => r == Err::<(), ErrorKind>(ErrorKind::UnimplementedOpcode(byte)),
                None => r is Ok,
            },
            Machine::of(*final(self), final(memory)@) == Machine::of(
                *old(self),
                old(memory)@,
            ).execute(instr),
            old(self).wf() ==> final(self).wf(),
    {
        proof {
            match Instruction::of(instr) {
                Some(i) => lemma_step_keeps_low_nibble(Machine::of(*self, memory@), i),
                None => {},
            }
        }
        match Instruction::decode(instr) {
            Some(Instruction::Nop) => Ok(()),
            Some(Instruction::DecB) => self.dec_b(),
            Some(Instruction::LdBN8) => self.ld_b_n8(memory),
            Some(Instruction::IncC) => self.inc_c(),
            Some(Instruction::LdCN8) => self.ld_c_n8(memory),
            Some(Instruction::LdDeN16) => self.ld_de_n16(memory),
            Some(Instruction::IncDe) => self.inc_de(),
            Some(Instruction::Rla) => self.rla(),
            Some(Instruction::LdADe) => self.ld_a_de(memory),
            Some(Instruction::JrNzE8) => self.jr_nz_e8(memory),
            Some(Instruction::LdHlN16) => self.ld_hl_n16(memory),
            Some(Instruction::LdHliA) => self.ld_hli_a(memory),
            Some(Instruction::IncHl) => self.inc_hl(),
            Some(Instruction::LdSpN16) => self.ld_sp_n16(memory),
            Some(Instruction::LdHldA) => self.ld_hld_a(memory),
            Some(Instruction::LdAN8) => self.ld_a_n8(memory),
            Some(Instruction::LdCA) => self.ld_c_a(),
            Some(Instruction::LdHlA) => self.ld_hl_a(memory),
            Some(Instruction::LdAB) => self.ld_a_b(),
            Some(Instruction::LdAL) => self.ld_a_l(),
            Some(Instruction::AddAHl) => self.add_a_hl(memory),
            Some(Instruction::XorAA) => self.xor_a_a(),
            Some(Instruction::CpAHl) => self.cp_a_hl(memory),
            Some(Instruction::PopBc) => self.pop_bc(memory),
            Some(Instruction::PushBc) => self.push_bc(memory),
            Some(Instruction::Ret) => self.ret(memory),
            Some(Instruction::Prefix) => {
                let prefix = self.read_and_increment(memory);
                match Extended::decode(prefix) {
                    Some(Extended::RlC) => self.rlc(),
                    Some(Extended::Bit7H) => self.bit_7h(),
                    None => Err(ErrorKind::UnimplementedOpcode(prefix)),
                }
            },
            Some(Instruction::CallA16) => self.call_a16(memory),
            Some(Instruction::PopDe) => self.pop_de(memory),
            Some(Instruction::LdhA8A) => self.ldh_a8_a(memory),
            Some(Instruction::LdhCA) => self.ldh_c_a(memory),
            Some(Instruction::PushHl) => self.push_hl(memory),
            Some(Instruction::CpAN8) => self.cp_a_n8(memory),
            None => Err(ErrorKind::UnimplementedOpcode(instr)),
        }
    }

    /// Reads the register pair DE.
    pub fn de(&self) -> (value: u16)
        ensures
            value == self.spec_de(),
    {
        proof {
            lemma_join(self.d, self.e);
        }
        ((self.d as u16) << 8) | (self.e as u16)
    }

    /// Reads the register pair HL.
    pub fn read_hl(&self) -> (value: u16)
        ensures
            value == self.spec_hl(),
    {
        let msb = self.h as u16;
        let lsb = self.l as u16;
        proof {
            lemma_join(self.h, self.l);
        }
        (msb << 8) | lsb
    }

    /// Reads an operand byte at PC and moves PC past it.
    pub fn read_and_increment<M: Mmu>(&mut self, memory: &mut M) -> (value: u8)
        ensures
            value == Machine::of(*old(self), old(memory)@).fetch().0,
            Machine::of(*final(self), final(memory)@) == Machine::of(*old(self), old(memory)@).fetch().1,
    {
        let value = memory.read_byte(self.pc);
        self.pc = self.pc.wrapping_add(1);
        value
    }

    /// Sets Z; every other bit of F is kept.
    pub fn set_z(&mut self)
        ensures
            *final(self) == (Cpu { f: with_z(old(self).f, true), ..*old(self) }),
    {
        self.f |= ZMASK;
    }

    /// Clears Z; every other bit of F is kept.
    pub fn unset_z(&mut self)
        ensures
            *final(self) == (Cpu { f: with_z(old(self).f, false), ..*old(self) }),
    {
        self.f &= !ZMASK;
    }

    /// Sets N; every other bit of F is kept.
    pub fn set_n(&mut self)
        ensures
            *final(self) == (Cpu { f: with_n(old(self).f, true), ..*old(self) }),
    {
        self.f |= NMASK;
    }

    /// Clears N; every other bit of F is kept.
    pub fn unset_n(&mut self)
        ensures
            *final(self) == (Cpu { f: with_n(old(self).f, false), ..*old(self) }),
    {
        self.f &= !NMASK;
    }

    /// Sets H; every other bit of F is kept.
    pub fn set_h(&mut self)
        ensures
            *final(self) == (Cpu { f: with_h(old(self).f, true), ..*old(self) }),
    {
        self.f |= HMASK;
    }

    /// Clears H; every other bit of F is kept.
    pub fn unset_h(&mut self)
        ensures
            *final(self) == (Cpu { f: with_h(old(self).f, false), ..*old(self) }),
    {
        self.f &= !HMASK;
    }

    /// Sets C; every other bit of F is kept.
    pub fn set_c(&mut self)
        ensures
            *final(self) == (Cpu { f: with_c(old(self).f, true), ..*old(self) }),
    {
        self.f |= CMASK;
    }

    /// Clears C; every other bit of F is kept.
    pub fn unset_c(&mut self)
        ensures
            *final(self) == (Cpu { f: with_c(old(self).f, false), ..*old(self) }),
    {
        self.f &= !CMASK;
    }

    /// Writes all four flags, leaving the low nibble of F as it is.
    fn set_flags(&mut self, z: bool, n: bool, h: bool, c: bool)
        ensures
            *final(self) == (Cpu { f: with_flags(old(self).f, z, n, h, c), ..*old(self) }),
    {
        if z {
            self.set_z();
        } else {
            self.unset_z();
        }
        if n {
            self.set_n();
        } else {
            self.unset_n();
        }
        if h {
            self.set_h();
        } else {
            self.unset_h();
        }
        if c {
            self.set_c();
        } else {
            self.unset_c();
        }
    }

    /// Pushes `value`: high byte to SP-1, low byte to SP-2.
    pub fn push_stack<M: Mmu>(&mut self, memory: &mut M, value: u16)
        ensures
            Machine::of(*final(self), final(memory)@) == Machine::of(*old(self), old(memory)@).push(
                value,
            ),
    {
        proof {
            lemma_split(value);
        }
        let lsb = (value & 0x00FF) as u8;
        let msb = ((value & 0xFF00) >> 8) as u8;
        self.sp = self.sp.wrapping_sub(1);
        memory.write_byte(self.sp, msb);
        self.sp = self.sp.wrapping_sub(1);
        memory.write_byte(self.sp, lsb);
    }

    /// Pops a 16-bit value: low byte from SP, high byte from SP+1.
    pub fn pop_stack<M: Mmu>(&mut self, memory: &mut M) -> (value: u16)
        ensures
            value == Machine::of(*old(self), old(memory)@).pop().0,
            Machine::of(*final(self), final(memory)@) == Machine::of(*old(self), old(memory)@).pop().1,
    {
        let lsb = memory.read_byte(self.sp);
        self.sp = self.sp.wrapping_add(1);
        let msb = memory.read_byte(self.sp);
        self.sp = self.sp.wrapping_add(1);
        proof {
            lemma_join(msb, lsb);
        }
        ((msb as u16) << 8) | (lsb as u16)
    }

    /// Reads the little-endian 16-bit operand at PC and moves PC past it.
    fn read_word_and_increment<M: Mmu>(&mut self, memory: &mut M) -> (value: u16)
        ensures
            value == Machine::of(*old(self), old(memory)@).fetch16().0,
            Machine::of(*final(self), final(memory)@) == Machine::of(
                *old(self),
                old(memory)@,
            ).fetch16().1,
    {
        let lsb = self.read_and_increment(memory);
        let msb = self.read_and_increment(memory);
        proof {
            lemma_join(msb, lsb);
        }
        ((msb as u16) << 8) | (lsb as u16)
    }

    /// Sets the flags of A compared with `value`; A is kept.
    fn compare(&mut self, value: u8)
        ensures
            *final(self) == old(self).spec_compare(value),
    {
        proof {
            lemma_low_nibble(self.a);
            lemma_low_nibble(value);
        }
        let equal = self.a == value;
        let half_borrow = (value & 0x0F) > (self.a & 0x0F);
        let borrow = value > self.a;
        self.set_flags(equal, true, half_borrow, borrow);
    }

    // 0xBE CP A, [HL]
    pub fn cp_a_hl<M: Mmu>(&mut self, memory: &mut M) -> (r: Result<(), ErrorKind>)
        ensures
            r is Ok,
            Machine::of(*final(self), final(memory)@) == Machine::of(*old(self), old(memory)@).step(
                Instruction::CpAHl,
            ),
    {
        let addr = self.read_hl();
        let value = memory.read_byte(addr);
        self.compare(value);
        Ok(())
    }

    // 0xFE CP A, n8
    pub fn cp_a_n8<M: Mmu>(&mut self, memory: &mut M) -> (r: Result<(), ErrorKind>)
        ensures
            r is Ok,
            Machine::of(*final(self), final(memory)@) == Machine::of(*old(self), old(memory)@).step(
                Instruction::CpAN8,
            ),
    {
        let value = self.read_and_increment(memory);
        self.compare(value);
        Ok(())
    }

    // 0x05 DEC B
    pub fn dec_b(&mut self) -> (r: Result<(), ErrorKind>)
        ensures
            r is Ok,
            *final(self) == old(self).spec_dec_b(),
    {
        proof {
            lemma_low_nibble(self.b);
        }
        let half_borrow = self.b & 0x0F == 0;
        self.b = self.b.wrapping_sub(1);
        if self.b == 0 {
            self.set_z();
        } else {
            self.unset_z();
        }
        self.set_n();
        if half_borrow {
            self.set_h();
        } else {
            self.unset_h();
        }
        Ok(())
    }

    // 0x0C INC C
    pub fn inc_c(&mut self) -> (r: Result<(), ErrorKind>)
        ensures
            r is Ok,
            *final(self) == old(self).spec_inc_c(),
    {
        proof {
            lemma_low_nibble(self.c);
        }
        let half_carry = self.c & 0x0F == 0x0F;
        self.c = self.c.wrapping_add(1);
        if self.c == 0 {
            self.set_z();
        } else {
            self.unset_z();
        }
        self.unset_n();
        if half_carry {
            self.set_h();
        } else {
            self.unset_h();
        }
        Ok(())
    }

    // 0xCB 0x7C BIT 7, H
    pub fn bit_7h(&mut self) -> (r: Result<(), ErrorKind>)
        ensures
            r is Ok,
            *final(self) == old(self).spec_bit_7h(),
    {
        proof {
            lemma_rotate(self.h);
        }
        let bit = self.h >> 7;
        if bit == 0 {
            self.set_z();
        } else {
            self.unset_z();
        }
        self.unset_n();
        self.set_h();
        Ok(())
    }

    // 0xCD CALL a16
    pub fn call_a16<M: Mmu>(&mut self, memory: &mut M) -> (r: Result<(), ErrorKind>)
        ensures
            r is Ok,
            Machine::of(*final(self), final(memory)@) == Machine::of(*old(self), old(memory)@).step(
                Instruction::CallA16,
            ),
    {
        let target = self.read_word_and_increment(memory);
        let back = self.pc;
        self.push_stack(memory, back);
        self.pc = target;
        Ok(())
    }

    // 0xC9 RET
    pub fn ret<M: Mmu>(&mut self, memory: &mut M) -> (r: Result<(), ErrorKind>)
        ensures
            r is Ok,
            Machine::of(*final(self), final(memory)@) == Machine::of(*old(self), old(memory)@).step(
                Instruction::Ret,
            ),
    {
        self.pc = self.pop_stack(memory);
        Ok(())
    }

    // 0x06 LD B, n8
    pub fn ld_b_n8<M: Mmu>(&mut self, memory: &mut M) -> (r: Result<(), ErrorKind>)
        ensures
            r is Ok,
            Machine::of(*final(self), final(memory)@) == Machine::of(*old(self), old(memory)@).step(
                Instruction::LdBN8,
            ),
    {
        let n8 = self.read_and_increment(memory);
        self.b = n8;
        Ok(())
    }

    // 0x0E LD C, n8
    pub fn ld_c_n8<M: Mmu>(&mut self, memory: &mut M) -> (r: Result<(), ErrorKind>)
        ensures
            r is Ok,
            Machine::of(*final(self), final(memory)@) == Machine::of(*old(self), old(memory)@).step(
                Instruction::LdCN8,
            ),
    {
        let value = self.read_and_increment(memory);
        self.c = value;
        Ok(())
    }

    // 0x11 LD DE, n16
    pub fn ld_de_n16<M: Mmu>(&mut self, memory: &mut M) -> (r: Result<(), ErrorKind>)
        ensures
            r is Ok,
            Machine::of(*final(self), final(memory)@) == Machine::of(*old(self), old(memory)@).step(
                Instruction::LdDeN16,
            ),
    {
        self.e = self.read_and_increment(memory);
        self.d = self.read_and_increment(memory);
        Ok(())
    }

    // 0x13 INC DE
    pub fn inc_de(&mut self) -> (r: Result<(), ErrorKind>)
        ensures
            r is Ok,
            *final(self) == old(self).spec_inc_de(),
    {
        let val = self.de().wrapping_add(1);
        proof {
            lemma_split(val);
        }
        self.e = (val & 0x00FF) as u8;
        self.d = ((val & 0xFF00) >> 8) as u8;
        Ok(())
    }

    // 0x17 RLA
    pub fn rla(&mut self) -> (r: Result<(), ErrorKind>)
        ensures
            r is Ok,
            *final(self) == old(self).spec_rla(),
    {
        proof {
            lemma_rotate(self.a);
        }
        let carry = self.a >> 7 == 1;
        self.a = (self.a << 1) | (self.a >> 7);
        self.set_flags(false, false, false, carry);
        Ok(())
    }

    // 0x1A LD A, [DE]
    pub fn ld_a_de<M: Mmu>(&mut self, memory: &mut M) -> (r: Result<(), ErrorKind>)
        ensures
            r is Ok,
            Machine::of(*final(self), final(memory)@) == Machine::of(*old(self), old(memory)@).step(
                Instruction::LdADe,
            ),
    {
        self.a = memory.read_byte(self.de());
        Ok(())
    }

    // 0x20 JR NZ, e8
    pub fn jr_nz_e8<M: Mmu>(&mut self, memory: &mut M) -> (r: Result<(), ErrorKind>)
        ensures
            r is Ok,
            Machine::of(*final(self), final(memory)@) == Machine::of(*old(self), old(memory)@).step(
                Instruction::JrNzE8,
            ),
    {
        let zero = self.f & ZMASK != 0;
        let operand = self.read_and_increment(memory);
        proof {
            lemma_signed(operand);
        }
        let e8 = operand as i8;
        if !zero {
            self.pc = self.pc.wrapping_add_signed(e8 as i16);
        }
        Ok(())
    }

    // 0x21 LD HL, n16
    pub fn ld_hl_n16<M: Mmu>(&mut self, memory: &mut M) -> (r: Result<(), ErrorKind>)
        ensures
            r is Ok,
            Machine::of(*final(self), final(memory)@) == Machine::of(*old(self), old(memory)@).step(
                Instruction::LdHlN16,
            ),
    {
        self.l = self.read_and_increment(memory);
        self.h = self.read_and_increment(memory);
        Ok(())
    }

    // 0x22 LD [HL+], A
    pub fn ld_hli_a<M: Mmu>(&mut self, memory: &mut M) -> (r: Result<(), ErrorKind>)
        ensures
            r is Ok,
            Machine::of(*final(self), final(memory)@) == Machine::of(*old(self), old(memory)@).step(
                Instruction::LdHliA,
            ),
    {
        memory.write_byte(self.read_hl(), self.a);
        self.inc_hl()
    }

    // 0x23 INC HL
    pub fn inc_hl(&mut self) -> (r: Result<(), ErrorKind>)
        ensures
            r is Ok,
            *final(self) == old(self).spec_inc_hl(),
    {
        let val = self.read_hl().wrapping_add(1);
        proof {
            lemma_split(val);
        }
        self.l = (val & 0x00FF) as u8;
        self.h = ((val & 0xFF00) >> 8) as u8;
        Ok(())
    }

    // 0x31 LD SP, n16
    pub fn ld_sp_n16<M: Mmu>(&mut self, memory: &mut M) -> (r: Result<(), ErrorKind>)
        ensures
            r is Ok,
            Machine::of(*final(self), final(memory)@) == Machine::of(*old(self), old(memory)@).step(
                Instruction::LdSpN16,
            ),
    {
        let lsb = self.read_and_increment(memory) as u16;
        let msb = self.read_and_increment(memory) as u16;
        proof {
            lemma_join(msb as u8, lsb as u8);
        }
        self.sp = (msb << 8) | lsb;
        Ok(())
    }

    // 0x32 LD [HL-], A
    pub fn ld_hld_a<M: Mmu>(&mut self, memory: &mut M) -> (r: Result<(), ErrorKind>)
        ensures
            r is Ok,
            Machine::of(*final(self), final(memory)@) == Machine::of(*old(self), old(memory)@).step(
                Instruction::LdHldA,
            ),
    {
        memory.write_byte(self.read_hl(), self.a);
        self.decrement_hl();
        Ok(())
    }

    // 0x3E LD A, n8
    pub fn ld_a_n8<M: Mmu>(&mut self, memory: &mut M) -> (r: Result<(), ErrorKind>)
        ensures
            r is Ok,
            Machine::of(*final(self), final(memory)@) == Machine::of(*old(self), old(memory)@).step(
                Instruction::LdAN8,
            ),
    {
        let value = self.read_and_increment(memory);
        self.a = value;
        Ok(())
    }

    // 0x4F LD C, A
    pub fn ld_c_a(&mut self) -> (r: Result<(), ErrorKind>)
        ensures
            r is Ok,
            *final(self) == old(self).spec_ld_c_a(),
    {
        self.c = self.a;
        Ok(())
    }

    // 0x77 LD [HL], A
    pub fn ld_hl_a<M: Mmu>(&mut self, memory: &mut M) -> (r: Result<(), ErrorKind>)
        ensures
            r is Ok,
            Machine::of(*final(self), final(memory)@) == Machine::of(*old(self), old(memory)@).step(
                Instruction::LdHlA,
            ),
    {
        let addr = self.read_hl();
        memory.write_byte(addr, self.a);
        Ok(())
    }

    // 0x78 LD A, B
    pub fn ld_a_b(&mut self) -> (r: Result<(), ErrorKind>)
        ensures
            r is Ok,
            *final(self) == old(self).spec_ld_a_b(),
    {
        self.a = self.b;
        Ok(())
    }

    // 0x7D LD A, L
    pub fn ld_a_l(&mut self) -> (r: Result<(), ErrorKind>)
        ensures
            r is Ok,
            *final(self) == old(self).spec_ld_a_l(),
    {
        self.a = self.l;
        Ok(())
    }

    // 0x86 ADD A, [HL]
    pub fn add_a_hl<M: Mmu>(&mut self, memory: &mut M) -> (r: Result<(), ErrorKind>)
        ensures
            r is Ok,
            Machine::of(*final(self), final(memory)@) == Machine::of(*old(self), old(memory)@).step(
                Instruction::AddAHl,
            ),
    {
        let value = memory.read_byte(self.read_hl());
        proof {
            lemma_low_nibble(self.a);
            lemma_low_nibble(value);
        }
        let half_carry = (self.a & 0x0F) + (value & 0x0F) > 0x0F;
        let carry = value > 0xFF - self.a;
        self.a = self.a.wrapping_add(value);
        self.set_flags(self.a == 0, false, half_carry, carry);
        Ok(())
    }

    // 0xAF XOR A, A
    pub fn xor_a_a(&mut self) -> (r: Result<(), ErrorKind>)
        ensures
            r is Ok,
            *final(self) == old(self).spec_xor_a_a(),
    {
        let a = self.a;
        assert(a ^ a == 0) by (bit_vector);
        self.a = self.a ^ self.a;
        self.set_flags(true, false, false, false);
        Ok(())
    }

    // 0xC1 POP BC
    pub fn pop_bc<M: Mmu>(&mut self, memory: &mut M) -> (r: Result<(), ErrorKind>)
        ensures
            r is Ok,
            Machine::of(*final(self), final(memory)@) == Machine::of(*old(self), old(memory)@).step(
                Instruction::PopBc,
            ),
    {
        let bc = self.pop_stack(memory);
        proof {
            lemma_split(bc);
        }
        self.b = ((bc & 0xFF00) >> 8) as u8;
        self.c = (bc & 0x00FF) as u8;
        Ok(())
    }

    // 0xC5 PUSH BC
    pub fn push_bc<M: Mmu>(&mut self, memory: &mut M) -> (r: Result<(), ErrorKind>)
        ensures
            r is Ok,
            Machine::of(*final(self), final(memory)@) == Machine::of(*old(self), old(memory)@).step(
                Instruction::PushBc,
            ),
    {
        proof {
            lemma_join(self.b, self.c);
        }
        let bc = ((self.b as u16) << 8) | (self.c as u16);
        self.push_stack(memory, bc);
        Ok(())
    }

    // 0xCB 0x11 RL C
    pub fn rlc(&mut self) -> (r: Result<(), ErrorKind>)
        ensures
            r is Ok,
            *final(self) == old(self).spec_rlc(),
    {
        proof {
            lemma_rotate(self.c);
        }
        let carry = self.c >> 7 == 1;
        self.c = (self.c << 1) | (self.c >> 7);
        self.set_flags(false, false, false, carry);
        Ok(())
    }

    // 0xD1 POP DE
    pub fn pop_de<M: Mmu>(&mut self, memory: &mut M) -> (r: Result<(), ErrorKind>)
        ensures
            r is Ok,
            Machine::of(*final(self), final(memory)@) == Machine::of(*old(self), old(memory)@).step(
                Instruction::PopDe,
            ),
    {
        let de = self.pop_stack(memory);
        proof {
            lemma_split(de);
        }
        self.d = ((de & 0xFF00) >> 8) as u8;
        self.e = (de & 0x00FF) as u8;
        Ok(())
    }

    // 0xE0 LDH [a8], A
    pub fn ldh_a8_a<M: Mmu>(&mut self, memory: &mut M) -> (r: Result<(), ErrorKind>)
        ensures
            r is Ok,
            Machine::of(*final(self), final(memory)@) == Machine::of(*old(self), old(memory)@).step(
                Instruction::LdhA8A,
            ),
    {
        let lo = self.read_and_increment(memory);
        proof {
            lemma_high_page(lo);
        }
        let addr = 0xFF00 | (lo as u16);
        memory.write_byte(addr, self.a);
        Ok(())
    }

    // 0xE2 LDH [C], A
    pub fn ldh_c_a<M: Mmu>(&mut self, memory: &mut M) -> (r: Result<(), ErrorKind>)
        ensures
            r is Ok,
            Machine::of(*final(self), final(memory)@) == Machine::of(*old(self), old(memory)@).step(
                Instruction::LdhCA,
            ),
    {
        let addr: u16 = 0xFF00 + (self.c as u16);
        memory.write_byte(addr, self.a);
        Ok(())
    }

    // 0xE5 PUSH HL
    pub fn push_hl<M: Mmu>(&mut self, memory: &mut M) -> (r: Result<(), ErrorKind>)
        ensures
            r is Ok,
            Machine::of(*final(self), final(memory)@) == Machine::of(*old(self), old(memory)@).step(
                Instruction::PushHl,
            ),
    {
        let hl = self.read_hl();
        self.push_stack(memory, hl);
        Ok(())
    }

    /// Moves HL one down, wrapping at zero.
    pub fn decrement_hl(&mut self)
        ensures
            *final(self) == old(self).spec_dec_hl(),
    {
        let mut hl = self.read_hl();
        hl = hl.wrapping_sub(1);
        proof {
            lemma_split(hl);
        }
        self.l = (hl & 0x00FF) as u8;
        self.h = ((hl & 0xFF00) >> 8) as u8;
    }
}

} // verus!
