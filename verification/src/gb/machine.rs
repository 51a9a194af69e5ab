use vstd::prelude::*;

use crate::gb::cpu::Cpu;
use crate::gb::flags::{
    flag_c, flag_h, flag_n, flag_z, lemma_with_flags, lemma_with_h, lemma_with_n, lemma_with_z,
    with_h, with_n, with_z,
};
use crate::gb::instruction::{Extended, Instruction};
use crate::gb::word::{high_byte, high_page, low_byte, pair, signed8, wrap16, wrap8};

verus! {

/// The machine as the instruction set sees it: the register file together
/// with the content of the address space. Every instruction is a function
/// from one machine to the next.
#[verifier::ext_equal]
pub struct Machine {
    pub cpu: Cpu,
    pub mem: Map<u16, u8>,
}

impl Machine {
    /// The machine made of a register file and the content of a memory.
    pub open spec fn of(cpu: Cpu, mem: Map<u16, u8>) -> Machine {
        Machine { cpu, mem }
    }

    /// The same memory under another register file.
    pub open spec fn with_cpu(self, cpu: Cpu) -> Machine {
        Machine { cpu, mem: self.mem }
    }

    /// The machine after `value` is stored at `addr`.
    pub open spec fn write(self, addr: u16, value: u8) -> Machine {
        Machine { cpu: self.cpu, mem: self.mem.insert(addr, value) }
    }

    /// The byte at PC, and the machine with PC moved past it.
    pub open spec fn fetch(self) -> (u8, Machine) {
        (self.mem[self.cpu.pc], self.with_cpu(Cpu { pc: wrap16(self.cpu.pc + 1), ..self.cpu }))
    }

    /// The little-endian 16-bit immediate at PC, and the machine with PC
    /// moved past both of its bytes.
    pub open spec fn fetch16(self) -> (u16, Machine) {
        let (low, first) = self.fetch();
        let (high, second) = first.fetch();
        (pair(high, low), second)
    }

    /// The machine after `n` fetches in a row.
    pub open spec fn fetches(self, n: nat) -> Machine
        decreases n,
    {
        if n == 0 {
            self
        } else {
            self.fetches((n - 1) as nat).fetch().1
        }
    }

    /// The machine after `value` is pushed: the high byte goes to SP-1, the
    /// low byte to SP-2, and SP ends two below where it was.
    pub open spec fn push(self, value: u16) -> Machine {
        let sp = self.cpu.sp;
        Machine {
            cpu: Cpu { sp: wrap16(sp - 2), ..self.cpu },
            mem: self.mem.insert(wrap16(sp - 1), high_byte(value)).insert(
                wrap16(sp - 2),
                low_byte(value),
            ),
        }
    }

    /// The value on top of the stack (low byte at SP, high byte at SP+1), and
    /// the machine with SP moved two up.
    pub open spec fn pop(self) -> (u16, Machine) {
        let sp = self.cpu.sp;
        (
            pair(self.mem[wrap16(sp + 1)], self.mem[sp]),
            self.with_cpu(Cpu { sp: wrap16(sp + 2), ..self.cpu }),
        )
    }

    /// The machine after one instruction of the primary table. An unknown
    /// byte behind the prefix is consumed and otherwise does nothing.
    pub open spec fn step(self, i: Instruction) -> Machine {
        let cpu = self.cpu;
        match i {
            Instruction::Nop => self,
            Instruction::DecB => self.with_cpu(cpu.spec_dec_b()),
            Instruction::LdBN8 => {
                let (n8, next) = self.fetch();
                next.with_cpu(Cpu { b: n8, ..next.cpu })
            },
            Instruction::IncC => self.with_cpu(cpu.spec_inc_c()),
            Instruction::LdCN8 => {
                let (n8, next) = self.fetch();
                next.with_cpu(Cpu { c: n8, ..next.cpu })
            },
            Instruction::LdDeN16 => {
                let (n16, next) = self.fetch16();
                next.with_cpu(Cpu { d: high_byte(n16), e: low_byte(n16), ..next.cpu })
            },
            Instruction::IncDe => self.with_cpu(cpu.spec_inc_de()),
            Instruction::Rla => self.with_cpu(cpu.spec_rla()),
            Instruction::LdADe => self.with_cpu(Cpu { a: self.mem[cpu.spec_de()], ..cpu }),
            Instruction::JrNzE8 => {
                let (e8, next) = self.fetch();
                if flag_z(cpu.f) {
                    next
                } else {
                    next.with_cpu(Cpu { pc: wrap16(next.cpu.pc + signed8(e8)), ..next.cpu })
                }
            },
            Instruction::LdHlN16 => {
                let (n16, next) = self.fetch16();
                next.with_cpu(Cpu { h: high_byte(n16), l: low_byte(n16), ..next.cpu })
            },
            Instruction::LdHliA => self.write(cpu.spec_hl(), cpu.a).with_cpu(cpu.spec_inc_hl()),
            Instruction::IncHl => self.with_cpu(cpu.spec_inc_hl()),
            Instruction::LdSpN16 => {
                let (n16, next) = self.fetch16();
                next.with_cpu(Cpu { sp: n16, ..next.cpu })
            },
            Instruction::LdHldA => self.write(cpu.spec_hl(), cpu.a).with_cpu(cpu.spec_dec_hl()),
            Instruction::LdAN8 => {
                let (n8, next) = self.fetch();
                next.with_cpu(Cpu { a: n8, ..next.cpu })
            },
            Instruction::LdCA => self.with_cpu(cpu.spec_ld_c_a()),
            Instruction::LdHlA => self.write(cpu.spec_hl(), cpu.a),
            Instruction::LdAB => self.with_cpu(cpu.spec_ld_a_b()),
            Instruction::LdAL => self.with_cpu(cpu.spec_ld_a_l()),
            Instruction::AddAHl => self.with_cpu(cpu.spec_add_a(self.mem[cpu.spec_hl()])),
            Instruction::XorAA => self.with_cpu(cpu.spec_xor_a_a()),
            Instruction::CpAHl => self.with_cpu(cpu.spec_compare(self.mem[cpu.spec_hl()])),
            Instruction::PopBc => {
                let (value, next) = self.pop();
                next.with_cpu(Cpu { b: high_byte(value), c: low_byte(value), ..next.cpu })
            },
            Instruction::PushBc => self.push(cpu.spec_bc()),
            Instruction::Ret => {
                let (value, next) = self.pop();
                next.with_cpu(Cpu { pc: value, ..next.cpu })
            },
            Instruction::Prefix => {
                let (second, next) = self.fetch();
                match Extended::of(second) {
                    Some(e) => next.step_extended(e),
                    None => next,
                }
            },
            Instruction::CallA16 => {
                let (target, next) = self.fetch16();
                let pushed = next.push(next.cpu.pc);
                pushed.with_cpu(Cpu { pc: target, ..pushed.cpu })
            },
            Instruction::PopDe => {
                let (value, next) = self.pop();
                next.with_cpu(Cpu { d: high_byte(value), e: low_byte(value), ..next.cpu })
            },
            Instruction::LdhA8A => {
                let (a8, next) = self.fetch();
                next.write(high_page(a8), cpu.a)
            },
            Instruction::LdhCA => self.write(high_page(cpu.c), cpu.a),
            Instruction::PushHl => self.push(cpu.spec_hl()),
            Instruction::CpAN8 => {
                let (n8, next) = self.fetch();
                next.with_cpu(next.cpu.spec_compare(n8))
            },
        }
    }

    /// The machine after one instruction of the extended table.
    pub open spec fn step_extended(self, e: Extended) -> Machine {
        match e {
            Extended::RlC => self.with_cpu(self.cpu.spec_rlc()),
            Extended::Bit7H => self.with_cpu(self.cpu.spec_bit_7h()),
        }
    }

    /// The byte that executing `opcode` finds no instruction behind: `opcode`
    /// itself, or the byte after the prefix. `None` when execution succeeds.
    pub open spec fn unimplemented(self, opcode: u8) -> Option<u8> {
        match Instruction::of(opcode) {
            None => Some(opcode),
            Some(Instruction::Prefix) => {
                let second = self.fetch().0;
                if Extended::of(second) is None {
                    Some(second)
                } else {
                    None
                }
            },
            Some(_) => None,
        }
    }

    /// The machine after `opcode` is executed. A byte without an instruction
    /// leaves the machine as it is.
    pub open spec fn execute(self, opcode: u8) -> Machine {
        match Instruction::of(opcode) {
            None => self,
            Some(i) => self.step(i),
        }
    }
}

/// Fetches only ever move PC forward: after `n` of them in a row PC is the
/// initial PC plus `n`, modulo 65536, and nothing else has changed.
pub proof fn lemma_fetches_advance_pc(m: Machine, n: nat)
    ensures
        m.fetches(n) == m.with_cpu(Cpu { pc: wrap16(m.cpu.pc + n), ..m.cpu }),
    decreases n,
{
    if n > 0 {
        lemma_fetches_advance_pc(m, (n - 1) as nat);
    }
}

/// A pop right after a push yields the pushed value and leaves every
/// register, SP included, as it was before the push.
pub proof fn lemma_push_then_pop(m: Machine, value: u16)
    ensures
        m.push(value).pop().0 == value,
        m.push(value).pop().1.cpu == m.cpu,
{
}

/// `PUSH rr` immediately followed by `POP rr'` copies the pushed pair into
/// the popped one and returns SP to where it was; no flag changes.
pub proof fn lemma_push_then_pop_pair(m: Machine)
    ensures
        m.step(Instruction::PushBc).step(Instruction::PopBc).cpu == m.cpu,
        m.step(Instruction::PushBc).step(Instruction::PopDe).cpu == (Cpu {
            d: m.cpu.b,
            e: m.cpu.c,
            ..m.cpu
        }),
        m.step(Instruction::PushHl).step(Instruction::PopBc).cpu == (Cpu {
            b: m.cpu.h,
            c: m.cpu.l,
            ..m.cpu
        }),
        m.step(Instruction::PushHl).step(Instruction::PopDe).cpu == (Cpu {
            d: m.cpu.h,
            e: m.cpu.l,
            ..m.cpu
        }),
{
    lemma_push_then_pop(m, m.cpu.spec_bc());
    lemma_push_then_pop(m, m.cpu.spec_hl());
}

/// `RET` immediately after `CALL a16` resumes right behind the call's
/// two-byte operand, with SP and every other register restored.
pub proof fn lemma_call_then_ret(m: Machine)
    ensures
        m.step(Instruction::CallA16).step(Instruction::Ret).cpu == (Cpu {
            pc: wrap16(m.cpu.pc + 2),
            ..m.cpu
        }),
{
    let (target, next) = m.fetch16();
    let pushed = next.push(next.cpu.pc);
    let called = pushed.with_cpu(Cpu { pc: target, ..pushed.cpu });
    assert(next.cpu == Cpu { pc: wrap16(m.cpu.pc + 2), ..m.cpu });
    assert(m.step(Instruction::CallA16) == called);
    assert(called.pop().0 == pushed.pop().0);
    assert(called.pop().1.cpu == Cpu { pc: target, ..pushed.pop().1.cpu });
    lemma_push_then_pop(next, next.cpu.pc);
}

/// An instruction that is not documented to write flags leaves F as it is,
/// bit for bit.
pub proof fn lemma_flags_unaffected(m: Machine, i: Instruction)
    requires
        !i.writes_flags(),
    ensures
        m.step(i).cpu.f == m.cpu.f,
{
}

/// The flag table, read back bit by bit: after each flag-writing instruction
/// every one of Z, N, H and C holds its documented value, a flag documented
/// as unaffected holds the value it had before, and the low nibble of F is
/// the one it was.
pub proof fn lemma_flag_table(m: Machine)
    ensures
        ({
            let f = m.step(Instruction::DecB).cpu.f;
            &&& flag_z(f) == (m.cpu.b == 1)
            &&& flag_n(f)
            &&& flag_h(f) == (m.cpu.b % 16 == 0)
            &&& flag_c(f) == flag_c(m.cpu.f)
            &&& f & 0x0F == m.cpu.f & 0x0F
        }),
        ({
            let f = m.step(Instruction::IncC).cpu.f;
            &&& flag_z(f) == (m.cpu.c == 0xFF)
            &&& !flag_n(f)
            &&& flag_h(f) == (m.cpu.c % 16 == 15)
            &&& flag_c(f) == flag_c(m.cpu.f)
            &&& f & 0x0F == m.cpu.f & 0x0F
        }),
        ({
            let f = m.step(Instruction::Rla).cpu.f;
            &&& !flag_z(f)
            &&& !flag_n(f)
            &&& !flag_h(f)
            &&& flag_c(f) == (m.cpu.a >= 0x80)
            &&& f & 0x0F == m.cpu.f & 0x0F
        }),
        ({
            let f = m.step_extended(Extended::RlC).cpu.f;
            &&& !flag_z(f)
            &&& !flag_n(f)
            &&& !flag_h(f)
            &&& flag_c(f) == (m.cpu.c >= 0x80)
            &&& f & 0x0F == m.cpu.f & 0x0F
        }),
        ({
            let f = m.step_extended(Extended::Bit7H).cpu.f;
            &&& flag_z(f) == (m.cpu.h < 0x80)
            &&& !flag_n(f)
            &&& flag_h(f)
            &&& flag_c(f) == flag_c(m.cpu.f)
            &&& f & 0x0F == m.cpu.f & 0x0F
        }),
        ({
            let f = m.step(Instruction::XorAA).cpu.f;
            &&& flag_z(f)
            &&& !flag_n(f)
            &&& !flag_h(f)
            &&& !flag_c(f)
            &&& f & 0x0F == m.cpu.f & 0x0F
        }),
        ({
            let value = m.mem[m.cpu.spec_hl()];
            let f = m.step(Instruction::AddAHl).cpu.f;
            &&& flag_z(f) == (wrap8(m.cpu.a + value) == 0)
            &&& !flag_n(f)
            &&& flag_h(f) == (m.cpu.a % 16 + value % 16 > 15)
            &&& flag_c(f) == (m.cpu.a + value > 255)
            &&& f & 0x0F == m.cpu.f & 0x0F
        }),
        ({
            let value = m.mem[m.cpu.spec_hl()];
            let f = m.step(Instruction::CpAHl).cpu.f;
            &&& flag_z(f) == (m.cpu.a == value)
            &&& flag_n(f)
            &&& flag_h(f) == (m.cpu.a % 16 < value % 16)
            &&& flag_c(f) == (m.cpu.a < value)
            &&& f & 0x0F == m.cpu.f & 0x0F
        }),
        ({
            let value = m.mem[m.cpu.pc];
            let f = m.step(Instruction::CpAN8).cpu.f;
            &&& flag_z(f) == (m.cpu.a == value)
            &&& flag_n(f)
            &&& flag_h(f) == (m.cpu.a % 16 < value % 16)
            &&& flag_c(f) == (m.cpu.a < value)
            &&& f & 0x0F == m.cpu.f & 0x0F
        }),
{
    let cpu = m.cpu;
    let f = cpu.f;
    lemma_three_flags(f, cpu.b == 1, true, cpu.b % 16 == 0);
    lemma_three_flags(f, cpu.c == 0xFF, false, cpu.c % 16 == 15);
    lemma_three_flags(f, cpu.h < 0x80, false, true);
    lemma_with_flags(f, false, false, false, cpu.a >= 0x80);
    lemma_with_flags(f, false, false, false, cpu.c >= 0x80);
    lemma_with_flags(f, true, false, false, false);
    let at_hl = m.mem[cpu.spec_hl()];
    lemma_with_flags(
        f,
        wrap8(cpu.a + at_hl) == 0,
        false,
        cpu.a % 16 + at_hl % 16 > 15,
        cpu.a + at_hl > 255,
    );
    lemma_with_flags(f, cpu.a == at_hl, true, cpu.a % 16 < at_hl % 16, cpu.a < at_hl);
    let n8 = m.mem[cpu.pc];
    lemma_with_flags(f, cpu.a == n8, true, cpu.a % 16 < n8 % 16, cpu.a < n8);
}

/// Z, N and H written one after the other, C never touched.
proof fn lemma_three_flags(f: u8, z: bool, n: bool, h: bool)
    ensures
        flag_z(with_h(with_n(with_z(f, z), n), h)) == z,
        flag_n(with_h(with_n(with_z(f, z), n), h)) == n,
        flag_h(with_h(with_n(with_z(f, z), n), h)) == h,
        flag_c(with_h(with_n(with_z(f, z), n), h)) == flag_c(f),
        with_h(with_n(with_z(f, z), n), h) & 0x0F == f & 0x0F,
{
    lemma_with_z(f, z);
    lemma_with_n(with_z(f, z), n);
    lemma_with_h(with_n(with_z(f, z), n), h);
}

/// No instruction touches the low nibble of F, so a register file whose low
/// nibble reads zero keeps it zero.
pub proof fn lemma_step_keeps_low_nibble(m: Machine, i: Instruction)
    ensures
        m.step(i).cpu.f & 0x0F == m.cpu.f & 0x0F,
        m.cpu.wf() ==> m.step(i).cpu.wf(),
{
    lemma_flag_table(m);
    lemma_flag_table(m.fetch().1);
}

} // verus!
