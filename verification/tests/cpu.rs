use gbcrs::gb::cpu::Cpu;
use gbcrs::gb::error::ErrorKind;
use gbcrs::gb::memory::Memory;
use gbcrs::gb::mmu::Mmu;

fn z(cpu: &Cpu) -> u8 {
    (cpu.f >> 7) & 1
}

fn n(cpu: &Cpu) -> u8 {
    (cpu.f >> 6) & 1
}

fn h(cpu: &Cpu) -> u8 {
    (cpu.f >> 5) & 1
}

fn c(cpu: &Cpu) -> u8 {
    (cpu.f >> 4) & 1
}

#[test]
fn test_dec_b() {
    // Decrements the register B by 1
    // Sets Z if the result is 0
    // Sets N
    // Sets H if borrow from bit 4
    let mut cpu = Cpu::new();
    cpu.b = 0x02;
    cpu.dec_b().unwrap();
    assert_eq!(cpu.b, 0x01);
    assert_eq!((cpu.f >> 7) & 1, 0); // Z should NOT be set
    assert_eq!((cpu.f >> 6) & 1, 1); // N should be set
    assert_eq!((cpu.f >> 5) & 1, 0); // H should NOT be set

    cpu.f = 0x00;
    cpu.dec_b().unwrap();
    assert_eq!(cpu.b, 0x00);
    assert_eq!((cpu.f >> 7) & 1, 1); // Z should be set
    assert_eq!((cpu.f >> 6) & 1, 1); // N should be set
    assert_eq!((cpu.f >> 5) & 1, 0); // H should NOT be set

    cpu.f = 0x00;
    cpu.dec_b().unwrap();
    assert_eq!(cpu.b, 0xFF);
    assert_eq!((cpu.f >> 7) & 1, 0);
    assert_eq!((cpu.f >> 6) & 1, 1);
    assert_eq!((cpu.f >> 5) & 1, 1); // H should be set
}

#[test]
fn test_ld_b_n8() {
    let mut cpu = Cpu::new();
    cpu.f = 0xA0;
    let mut memory = Memory::new();
    memory.fixbank[0] = 0xAB;
    cpu.ld_b_n8(&mut memory).unwrap();
    assert_eq!(cpu.b, 0xAB);
    assert_eq!(cpu.f, 0xA0); // Flags are unaffected
}

#[test]
fn test_inc_c() {
    let mut cpu = Cpu::new();
    cpu.inc_c().unwrap();
    assert_eq!(cpu.c, 0x01);
    assert_eq!((cpu.f >> 7) & 1, 0); // Z should NOT be set
    assert_eq!((cpu.f >> 6) & 1, 0); // N should NOT be set (even if it previously was)
    assert_eq!((cpu.f >> 5) & 1, 0); // H should NOT be set

    // Tests that N is set to 0
    cpu.f = 0b0100_0000; // Set N
    cpu.inc_c().unwrap();
    assert_eq!(cpu.c, 0x02);
    assert_eq!((cpu.f >> 7) & 1, 0); // Z should NOT be set
    assert_eq!((cpu.f >> 6) & 1, 0); // N should NOT be set (even if it previously was)
    assert_eq!((cpu.f >> 5) & 1, 0); // H should NOT be set

    // Test half-carry flag
    cpu.c = 0x0F;
    cpu.inc_c().unwrap();
    assert_eq!(cpu.c, 0x10);
    assert_eq!((cpu.f >> 7) & 1, 0); // Z should NOT be set
    assert_eq!((cpu.f >> 6) & 1, 0); // N should NOT be set (even if it previously was)
    assert_eq!((cpu.f >> 5) & 1, 1); // H should be set

    let _ = cpu.inc_c();
    assert_eq!(cpu.c, 0x11);
    assert_eq!((cpu.f >> 7) & 1, 0); // Z should NOT be set
    assert_eq!((cpu.f >> 6) & 1, 0); // N should NOT be set (even if it previously was)
    assert_eq!((cpu.f >> 5) & 1, 0); // H should NOT be set
}

#[test]
fn new_cpu_is_all_zero() {
    let cpu = Cpu::new();
    assert_eq!(
        cpu,
        Cpu { a: 0, f: 0, b: 0, c: 0, d: 0, e: 0, h: 0, l: 0, pc: 0, sp: 0 }
    );
}

#[test]
fn dec_b_from_one_sets_zero() {
    let mut cpu = Cpu::new();
    cpu.b = 0x01;
    cpu.dec_b().unwrap();
    assert_eq!(cpu.b, 0x00);
    assert_eq!((z(&cpu), n(&cpu), h(&cpu)), (1, 1, 0));
    assert_eq!(cpu.f, 0xC0);
}

#[test]
fn dec_b_from_zero_wraps_with_half_borrow() {
    let mut cpu = Cpu::new();
    cpu.b = 0x00;
    cpu.dec_b().unwrap();
    assert_eq!(cpu.b, 0xFF);
    assert_eq!((z(&cpu), n(&cpu), h(&cpu)), (0, 1, 1));
    assert_eq!(cpu.f, 0x60);
}

#[test]
fn dec_b_keeps_carry_and_clears_stale_flags() {
    let mut cpu = Cpu::new();
    cpu.b = 0x35;
    cpu.f = 0xF0;
    cpu.dec_b().unwrap();
    assert_eq!(cpu.b, 0x34);
    assert_eq!(cpu.f, 0x50);
    cpu.f = 0x00;
    cpu.dec_b().unwrap();
    assert_eq!(cpu.f, 0x40);
}

#[test]
fn inc_c_half_carry() {
    let mut cpu = Cpu::new();
    cpu.c = 0x0F;
    cpu.inc_c().unwrap();
    assert_eq!(cpu.c, 0x10);
    assert_eq!((z(&cpu), n(&cpu), h(&cpu)), (0, 0, 1));
}

#[test]
fn inc_c_wraps_to_zero_and_keeps_carry() {
    let mut cpu = Cpu::new();
    cpu.c = 0xFF;
    cpu.f = 0x50;
    cpu.inc_c().unwrap();
    assert_eq!(cpu.c, 0x00);
    assert_eq!(cpu.f, 0xB0);
}

#[test]
fn fetch_reads_at_pc_and_advances() {
    let mut cpu = Cpu::new();
    let mut memory = Memory::new();
    memory.fixbank[0] = 0x12;
    memory.fixbank[1] = 0x34;
    assert_eq!(cpu.fetch_instruction(&mut memory), 0x12);
    assert_eq!(cpu.pc, 1);
    assert_eq!(cpu.fetch_instruction(&mut memory), 0x34);
    assert_eq!(cpu.pc, 2);
}

#[test]
fn fetch_wraps_pc_at_top_of_memory() {
    let mut cpu = Cpu::new();
    let mut memory = Memory::new();
    memory.write_byte(0xFFFF, 0x77);
    cpu.pc = 0xFFFF;
    assert_eq!(cpu.fetch_instruction(&mut memory), 0x77);
    assert_eq!(cpu.pc, 0x0000);
}

#[test]
fn many_fetches_advance_pc_by_their_count() {
    let mut cpu = Cpu::new();
    let mut memory = Memory::new();
    cpu.pc = 0xFFF0;
    for _ in 0..40 {
        cpu.fetch_instruction(&mut memory);
    }
    assert_eq!(cpu.pc, 0x0018);
    assert_eq!(cpu.sp, 0);
    assert_eq!(cpu.f, 0);
}

#[test]
fn read_and_increment_reads_operand() {
    let mut cpu = Cpu::new();
    let mut memory = Memory::new();
    memory.write_byte(0xC000, 0x9A);
    cpu.pc = 0xC000;
    assert_eq!(cpu.read_and_increment(&mut memory), 0x9A);
    assert_eq!(cpu.pc, 0xC001);
}

#[test]
fn nop_changes_nothing() {
    let mut cpu = Cpu::new();
    let mut memory = Memory::new();
    cpu.a = 5;
    cpu.f = 0x90;
    cpu.pc = 0x100;
    let before = cpu;
    cpu.execute_instruction(0x00, &mut memory).unwrap();
    assert_eq!(cpu, before);
}

#[test]
fn ld_c_n8_and_ld_a_n8_load_operand() {
    let mut cpu = Cpu::new();
    let mut memory = Memory::new();
    memory.fixbank[0] = 0x11;
    memory.fixbank[1] = 0x22;
    cpu.f = 0xF0;
    cpu.ld_c_n8(&mut memory).unwrap();
    cpu.ld_a_n8(&mut memory).unwrap();
    assert_eq!(cpu.c, 0x11);
    assert_eq!(cpu.a, 0x22);
    assert_eq!(cpu.pc, 2);
    assert_eq!(cpu.f, 0xF0);
}

#[test]
fn sixteen_bit_loads_are_little_endian() {
    let mut cpu = Cpu::new();
    let mut memory = Memory::new();
    let image = [0x34, 0x12, 0x78, 0x56, 0xFE, 0xFF];
    memory.bulk_load(&image).unwrap();
    cpu.ld_de_n16(&mut memory).unwrap();
    assert_eq!((cpu.d, cpu.e), (0x12, 0x34));
    cpu.ld_hl_n16(&mut memory).unwrap();
    assert_eq!((cpu.h, cpu.l), (0x56, 0x78));
    cpu.ld_sp_n16(&mut memory).unwrap();
    assert_eq!(cpu.sp, 0xFFFE);
    assert_eq!(cpu.pc, 6);
    assert_eq!(cpu.f, 0);
}

#[test]
fn pair_readers_put_high_register_first() {
    let mut cpu = Cpu::new();
    cpu.d = 0xAB;
    cpu.e = 0xCD;
    cpu.h = 0x12;
    cpu.l = 0x34;
    assert_eq!(cpu.de(), 0xABCD);
    assert_eq!(cpu.read_hl(), 0x1234);
}

#[test]
fn inc_de_carries_into_high_half() {
    let mut cpu = Cpu::new();
    cpu.d = 0x12;
    cpu.e = 0xFF;
    cpu.f = 0xF0;
    cpu.inc_de().unwrap();
    assert_eq!((cpu.d, cpu.e), (0x13, 0x00));
    assert_eq!(cpu.f, 0xF0);
    cpu.d = 0xFF;
    cpu.e = 0xFF;
    cpu.inc_de().unwrap();
    assert_eq!((cpu.d, cpu.e), (0x00, 0x00));
    cpu.inc_de().unwrap();
    assert_eq!((cpu.d, cpu.e), (0x00, 0x01));
}

#[test]
fn inc_hl_and_decrement_hl_wrap() {
    let mut cpu = Cpu::new();
    cpu.h = 0x00;
    cpu.l = 0xFF;
    cpu.inc_hl().unwrap();
    assert_eq!((cpu.h, cpu.l), (0x01, 0x00));
    cpu.decrement_hl();
    assert_eq!((cpu.h, cpu.l), (0x00, 0xFF));
    cpu.h = 0;
    cpu.l = 0;
    cpu.decrement_hl();
    assert_eq!((cpu.h, cpu.l), (0xFF, 0xFF));
    cpu.inc_hl().unwrap();
    assert_eq!((cpu.h, cpu.l), (0x00, 0x00));
    assert_eq!(cpu.f, 0);
}

#[test]
fn rla_rotates_and_reports_ejected_bit() {
    let mut cpu = Cpu::new();
    cpu.a = 0x85;
    cpu.f = 0xE0;
    cpu.rla().unwrap();
    assert_eq!(cpu.a, 0x0B);
    assert_eq!(cpu.f, 0x10);
    cpu.a = 0x40;
    cpu.rla().unwrap();
    assert_eq!(cpu.a, 0x80);
    assert_eq!(cpu.f, 0x00);
}

#[test]
fn rlc_rotates_register_c() {
    let mut cpu = Cpu::new();
    cpu.c = 0x80;
    cpu.f = 0xC0;
    cpu.rlc().unwrap();
    assert_eq!(cpu.c, 0x01);
    assert_eq!(cpu.f, 0x10);
    cpu.rlc().unwrap();
    assert_eq!(cpu.c, 0x02);
    assert_eq!(cpu.f, 0x00);
}

#[test]
fn ld_a_de_loads_from_memory() {
    let mut cpu = Cpu::new();
    let mut memory = Memory::new();
    memory.write_byte(0x9123, 0x42);
    cpu.d = 0x91;
    cpu.e = 0x23;
    cpu.ld_a_de(&mut memory).unwrap();
    assert_eq!(cpu.a, 0x42);
    assert_eq!(memory.read_byte(0x9123), 0x42);
}

#[test]
fn jr_nz_jumps_only_when_zero_is_clear() {
    let mut cpu = Cpu::new();
    let mut memory = Memory::new();
    memory.write_byte(0x0100, 0xFB); // -5
    cpu.pc = 0x0100;
    cpu.jr_nz_e8(&mut memory).unwrap();
    assert_eq!(cpu.pc, 0x00FC);

    cpu.pc = 0x0100;
    cpu.f = 0x80;
    cpu.jr_nz_e8(&mut memory).unwrap();
    assert_eq!(cpu.pc, 0x0101);
    assert_eq!(cpu.f, 0x80);

    memory.write_byte(0x0100, 0x7F);
    cpu.pc = 0x0100;
    cpu.f = 0x70;
    cpu.jr_nz_e8(&mut memory).unwrap();
    assert_eq!(cpu.pc, 0x0180);
}

#[test]
fn jr_nz_wraps_around_the_address_space() {
    let mut cpu = Cpu::new();
    let mut memory = Memory::new();
    memory.write_byte(0x0000, 0x80); // -128
    cpu.jr_nz_e8(&mut memory).unwrap();
    assert_eq!(cpu.pc, 0xFF81);
    memory.write_byte(0xFFFF, 0x10);
    cpu.pc = 0xFFFF;
    cpu.jr_nz_e8(&mut memory).unwrap();
    assert_eq!(cpu.pc, 0x0010);
}

#[test]
fn ld_hli_a_stores_then_increments() {
    let mut cpu = Cpu::new();
    let mut memory = Memory::new();
    cpu.a = 0x5A;
    cpu.h = 0x80;
    cpu.l = 0xFF;
    cpu.ld_hli_a(&mut memory).unwrap();
    assert_eq!(memory.read_byte(0x80FF), 0x5A);
    assert_eq!((cpu.h, cpu.l), (0x81, 0x00));
    assert_eq!(cpu.a, 0x5A);
}

#[test]
fn ld_hld_a_stores_then_decrements() {
    let mut cpu = Cpu::new();
    let mut memory = Memory::new();
    cpu.a = 0xA5;
    cpu.h = 0x90;
    cpu.l = 0x00;
    cpu.ld_hld_a(&mut memory).unwrap();
    assert_eq!(memory.read_byte(0x9000), 0xA5);
    assert_eq!((cpu.h, cpu.l), (0x8F, 0xFF));
    assert_eq!(cpu.a, 0xA5);
}

#[test]
fn ld_hl_a_stores_without_moving_hl() {
    let mut cpu = Cpu::new();
    let mut memory = Memory::new();
    memory.write_byte(0xC123, 0x99);
    cpu.a = 0x17;
    cpu.h = 0xC1;
    cpu.l = 0x23;
    cpu.ld_hl_a(&mut memory).unwrap();
    assert_eq!(memory.read_byte(0xC123), 0x17);
    assert_eq!((cpu.h, cpu.l, cpu.a), (0xC1, 0x23, 0x17));
}

#[test]
fn register_to_register_loads() {
    let mut cpu = Cpu::new();
    cpu.a = 1;
    cpu.b = 2;
    cpu.l = 3;
    cpu.f = 0xF0;
    cpu.ld_c_a().unwrap();
    assert_eq!(cpu.c, 1);
    cpu.ld_a_b().unwrap();
    assert_eq!(cpu.a, 2);
    cpu.ld_a_l().unwrap();
    assert_eq!(cpu.a, 3);
    assert_eq!(cpu.f, 0xF0);
}

#[test]
fn add_a_hl_sets_half_carry_and_carry() {
    let mut cpu = Cpu::new();
    let mut memory = Memory::new();
    cpu.h = 0xC0;
    memory.write_byte(0xC000, 0x01);
    cpu.a = 0x0F;
    cpu.f = 0xF0;
    cpu.add_a_hl(&mut memory).unwrap();
    assert_eq!(cpu.a, 0x10);
    assert_eq!(cpu.f, 0x20);

    memory.write_byte(0xC000, 0xF0);
    cpu.add_a_hl(&mut memory).unwrap();
    assert_eq!(cpu.a, 0x00);
    assert_eq!(cpu.f, 0x90);

    memory.write_byte(0xC000, 0xFF);
    cpu.a = 0xFF;
    cpu.add_a_hl(&mut memory).unwrap();
    assert_eq!(cpu.a, 0xFE);
    assert_eq!(cpu.f, 0x30);

    memory.write_byte(0xC000, 0x22);
    cpu.a = 0x11;
    cpu.add_a_hl(&mut memory).unwrap();
    assert_eq!(cpu.a, 0x33);
    assert_eq!(cpu.f, 0x00);
}

#[test]
fn xor_a_a_zeroes_a() {
    let mut cpu = Cpu::new();
    cpu.a = 0x5C;
    cpu.f = 0x70;
    cpu.xor_a_a().unwrap();
    assert_eq!(cpu.a, 0);
    assert_eq!(cpu.f, 0x80);
}

#[test]
fn cp_a_n8_keeps_flags_in_distinct_bits() {
    let mut cpu = Cpu::new();
    let mut memory = Memory::new();
    let image = [0x42, 0x50, 0x13, 0x21, 0x43];
    memory.bulk_load(&image).unwrap();
    cpu.a = 0x42;
    cpu.cp_a_n8(&mut memory).unwrap(); // equal
    assert_eq!(cpu.f, 0xC0);
    cpu.cp_a_n8(&mut memory).unwrap(); // operand larger, no half-borrow
    assert_eq!(cpu.f, 0x50);
    cpu.cp_a_n8(&mut memory).unwrap(); // half-borrow only
    assert_eq!(cpu.f, 0x60);
    cpu.cp_a_n8(&mut memory).unwrap(); // smaller, no borrow
    assert_eq!(cpu.f, 0x40);
    cpu.cp_a_n8(&mut memory).unwrap(); // borrow and half-borrow
    assert_eq!(cpu.f, 0x70);
    assert_eq!(cpu.a, 0x42);
    assert_eq!(cpu.pc, 5);
}

#[test]
fn cp_a_hl_compares_with_memory() {
    let mut cpu = Cpu::new();
    let mut memory = Memory::new();
    cpu.h = 0xD0;
    cpu.l = 0x10;
    memory.write_byte(0xD010, 0x90);
    cpu.a = 0x90;
    cpu.cp_a_hl(&mut memory).unwrap();
    assert_eq!(cpu.f, 0xC0);
    cpu.a = 0x8F;
    cpu.cp_a_hl(&mut memory).unwrap();
    assert_eq!(cpu.f, 0x50);
    assert_eq!(cpu.a, 0x8F);
    assert_eq!(memory.read_byte(0xD010), 0x90);
}

#[test]
fn bit_7h_tests_top_bit_and_keeps_carry() {
    let mut cpu = Cpu::new();
    cpu.h = 0x80;
    cpu.f = 0xD0;
    cpu.bit_7h().unwrap();
    assert_eq!(cpu.f, 0x30);
    cpu.h = 0x7F;
    cpu.f = 0x40;
    cpu.bit_7h().unwrap();
    assert_eq!(cpu.f, 0xA0);
    assert_eq!(cpu.h, 0x7F);
}

#[test]
fn push_writes_high_byte_first() {
    let mut cpu = Cpu::new();
    let mut memory = Memory::new();
    cpu.sp = 0xFFFE;
    cpu.b = 0x12;
    cpu.c = 0x34;
    cpu.push_bc(&mut memory).unwrap();
    assert_eq!(cpu.sp, 0xFFFC);
    assert_eq!(memory.read_byte(0xFFFD), 0x12);
    assert_eq!(memory.read_byte(0xFFFC), 0x34);
    cpu.b = 0;
    cpu.c = 0;
    cpu.pop_bc(&mut memory).unwrap();
    assert_eq!((cpu.b, cpu.c, cpu.sp), (0x12, 0x34, 0xFFFE));
}

#[test]
fn push_hl_then_pop_de_round_trips() {
    let mut cpu = Cpu::new();
    let mut memory = Memory::new();
    cpu.sp = 0xFFFE;
    cpu.h = 0x12;
    cpu.l = 0x34;
    cpu.f = 0xB0;
    cpu.push_hl(&mut memory).unwrap();
    cpu.pop_de(&mut memory).unwrap();
    assert_eq!((cpu.d, cpu.e), (0x12, 0x34));
    assert_eq!(cpu.sp, 0xFFFE);
    assert_eq!(cpu.f, 0xB0);
}

#[test]
fn stack_wraps_below_zero() {
    let mut cpu = Cpu::new();
    let mut memory = Memory::new();
    cpu.sp = 0x0001;
    cpu.push_stack(&mut memory, 0xBEEF);
    assert_eq!(cpu.sp, 0xFFFF);
    assert_eq!(memory.read_byte(0x0000), 0xBE);
    assert_eq!(memory.read_byte(0xFFFF), 0xEF);
    assert_eq!(cpu.pop_stack(&mut memory), 0xBEEF);
    assert_eq!(cpu.sp, 0x0001);
}

#[test]
fn call_then_ret_returns_behind_the_call() {
    let mut cpu = Cpu::new();
    let mut memory = Memory::new();
    memory.fixbank[0x0150] = 0xCD;
    memory.fixbank[0x0151] = 0x00;
    memory.fixbank[0x0152] = 0x02;
    memory.fixbank[0x0200] = 0xC9;
    cpu.pc = 0x0150;
    cpu.sp = 0xFFFE;
    let call = cpu.fetch_instruction(&mut memory);
    cpu.execute_instruction(call, &mut memory).unwrap();
    assert_eq!(cpu.pc, 0x0200);
    assert_eq!(cpu.sp, 0xFFFC);
    assert_eq!(memory.read_byte(0xFFFD), 0x01);
    assert_eq!(memory.read_byte(0xFFFC), 0x53);
    let ret = cpu.fetch_instruction(&mut memory);
    cpu.execute_instruction(ret, &mut memory).unwrap();
    assert_eq!(cpu.pc, 0x0153);
    assert_eq!(cpu.sp, 0xFFFE);
}

#[test]
fn call_handler_then_ret_handler() {
    let mut cpu = Cpu::new();
    let mut memory = Memory::new();
    memory.write_byte(0xC010, 0xCD);
    memory.write_byte(0xC011, 0x34);
    memory.write_byte(0xC012, 0x12);
    cpu.pc = 0xC011;
    cpu.sp = 0xD000;
    cpu.call_a16(&mut memory).unwrap();
    assert_eq!(cpu.pc, 0x1234);
    cpu.ret(&mut memory).unwrap();
    assert_eq!(cpu.pc, 0xC013);
    assert_eq!(cpu.sp, 0xD000);
}

#[test]
fn ldh_a8_a_stores_into_high_page() {
    let mut cpu = Cpu::new();
    let mut memory = Memory::new();
    memory.fixbank[0] = 0x47;
    cpu.a = 0xFC;
    cpu.ldh_a8_a(&mut memory).unwrap();
    assert_eq!(memory.read_byte(0xFF47), 0xFC);
    assert_eq!(memory.ioreg[0x47], 0xFC);
    assert_eq!(cpu.a, 0xFC);
    assert_eq!(cpu.pc, 1);
}

#[test]
fn ldh_c_a_stores_into_high_page() {
    let mut cpu = Cpu::new();
    let mut memory = Memory::new();
    cpu.a = 0x80;
    cpu.c = 0x80;
    cpu.ldh_c_a(&mut memory).unwrap();
    assert_eq!(memory.read_byte(0xFF80), 0x80);
    assert_eq!(memory.hram[0], 0x80);
    cpu.c = 0xFF;
    cpu.a = 0x1F;
    cpu.ldh_c_a(&mut memory).unwrap();
    assert_eq!(memory.interrupt_enable, 0x1F);
}

#[test]
fn flag_helpers_touch_one_bit_each() {
    let mut cpu = Cpu::new();
    cpu.set_z();
    assert_eq!(cpu.f, 0x80);
    cpu.set_n();
    assert_eq!(cpu.f, 0xC0);
    cpu.set_h();
    assert_eq!(cpu.f, 0xE0);
    cpu.set_c();
    assert_eq!(cpu.f, 0xF0);
    cpu.unset_z();
    assert_eq!(cpu.f, 0x70);
    cpu.unset_n();
    assert_eq!(cpu.f, 0x30);
    cpu.unset_h();
    assert_eq!(cpu.f, 0x10);
    cpu.unset_c();
    assert_eq!(cpu.f, 0x00);
}

#[test]
fn unknown_opcode_is_reported_and_does_nothing() {
    let mut cpu = Cpu::new();
    let mut memory = Memory::new();
    cpu.a = 9;
    cpu.pc = 0x0200;
    cpu.sp = 0xFFFE;
    cpu.f = 0xA0;
    let before = cpu;
    assert_eq!(
        cpu.execute_instruction(0xD3, &mut memory),
        Err(ErrorKind::UnimplementedOpcode(0xD3))
    );
    assert_eq!(cpu, before);
    assert_eq!(memory.read_byte(0xFFFD), 0);
}

#[test]
fn unknown_extended_opcode_is_reported_after_consuming_it() {
    let mut cpu = Cpu::new();
    let mut memory = Memory::new();
    memory.fixbank[0x10] = 0x37;
    cpu.pc = 0x10;
    cpu.c = 0x81;
    assert_eq!(
        cpu.execute_instruction(0xCB, &mut memory),
        Err(ErrorKind::UnimplementedOpcode(0x37))
    );
    assert_eq!(cpu.pc, 0x11);
    assert_eq!(cpu.c, 0x81);
    assert_eq!(cpu.f, 0);
}

#[test]
fn prefix_dispatches_extended_opcodes() {
    let mut cpu = Cpu::new();
    let mut memory = Memory::new();
    memory.fixbank[0] = 0x11;
    memory.fixbank[1] = 0x7C;
    cpu.c = 0xC0;
    cpu.execute_instruction(0xCB, &mut memory).unwrap();
    assert_eq!(cpu.c, 0x81);
    assert_eq!(cpu.f, 0x10);
    cpu.execute_instruction(0xCB, &mut memory).unwrap();
    assert_eq!(cpu.f, 0xB0);
    assert_eq!(cpu.pc, 2);
}

#[test]
fn execute_dispatches_every_primary_opcode() {
    let mut memory = Memory::new();
    let mut cpu = Cpu::new();
    cpu.sp = 0xE000;
    for opcode in [
        0x00u8, 0x05, 0x06, 0x0C, 0x0E, 0x11, 0x13, 0x17, 0x1A, 0x20, 0x21, 0x22, 0x23, 0x31,
        0x32, 0x3E, 0x4F, 0x77, 0x78, 0x7D, 0x86, 0xAF, 0xBE, 0xC1, 0xC5, 0xC9, 0xCD, 0xD1,
        0xE0, 0xE2, 0xE5, 0xFE,
    ] {
        assert_eq!(cpu.execute_instruction(opcode, &mut memory), Ok(()));
    }
}

#[test]
fn execute_runs_a_small_program() {
    // LD HL, 0x8000; LD A, 0x3C; LD [HL+], A; LD [HL-], A; INC HL; LD B, 2; DEC B; JR NZ, -3
    let image = [
        0x21, 0x00, 0x80, 0x3E, 0x3C, 0x22, 0x32, 0x23, 0x06, 0x02, 0x05, 0x20, 0xFD,
    ];
    let mut memory = Memory::new();
    memory.bulk_load(&image).unwrap();
    let mut cpu = Cpu::new();
    let mut steps = 0;
    while (cpu.pc as usize) < image.len() {
        let opcode = cpu.fetch_instruction(&mut memory);
        cpu.execute_instruction(opcode, &mut memory).unwrap();
        steps += 1;
    }
    assert_eq!(steps, 10);
    assert_eq!(memory.read_byte(0x8000), 0x3C);
    assert_eq!(memory.read_byte(0x8001), 0x3C);
    assert_eq!((cpu.h, cpu.l), (0x80, 0x01));
    assert_eq!(cpu.b, 0);
    assert_eq!(cpu.f, 0xC0);
    assert_eq!(cpu.pc, 13);
}
