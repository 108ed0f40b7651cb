use gbemu_rust::bootrom::Bootrom;
use gbemu_rust::cartridge::Cartridge;
use gbemu_rust::cpu::{Cpu, Ctx};
use gbemu_rust::operand::{Direct16, Direct8, Imm16, Imm8, Indirect, Reg16, Reg8, IO16, IO8};
use gbemu_rust::peripherals::Peripherals;
use gbemu_rust::register::Registres;

fn bus(program: Vec<u8>) -> Peripherals {
    Peripherals::new(Bootrom::new(program), Cartridge::new(Vec::new().into_boxed_slice()))
}

#[test]
fn test_reg8() {
    let mut cpu = Cpu { regs: Registres::default(), ctx: Ctx::default() };
    let mut peri = bus(vec![0, 0x00]);
    cpu.write8(&mut peri, Reg8::A, 0x30);
    assert_eq!(0x30, cpu.read8(&mut peri, Reg8::A).unwrap());
}

#[test]
fn test_reg16_af() {
    let mut cpu = Cpu { regs: Registres::default(), ctx: Ctx::default() };
    let mut peri = bus(vec![0, 0x00]);
    cpu.write16(&mut peri, Reg16::AF, 0b_0011_0011_1010_1111);
    assert_eq!(0b0011_0011_1010_0000, cpu.read16(&mut peri, Reg16::AF).unwrap());
}

#[test]
fn test_reg16_bc() {
    let mut cpu = Cpu { regs: Registres::default(), ctx: Ctx::default() };
    let mut peri = bus(vec![0, 0x00]);
    cpu.write16(&mut peri, Reg16::BC, 0b_0011_0011_1010_1111);
    assert_eq!(0b0011_0011_1010_1111, cpu.read16(&mut peri, Reg16::BC).unwrap());
}

#[test]
fn test_imm8() {
    let mut cpu = Cpu { regs: Registres::default(), ctx: Ctx::default() };
    let peri = bus(vec![0x12, 0x34]);
    let initial_pc = cpu.regs.pc;
    let result1 = cpu.read8(&peri, Imm8);
    assert_eq!(result1, None);
    assert_eq!(cpu.regs.pc, initial_pc.wrapping_add(1));

    let result2 = cpu.read8(&peri, Imm8);
    assert_eq!(result2, Some(0x12));
    assert_eq!(cpu.regs.pc, initial_pc.wrapping_add(1));
}

#[test]
fn every_register_is_its_own_cell() {
    let mut cpu = Cpu::default();
    let mut peri = bus(vec![]);
    let regs = [Reg8::A, Reg8::B, Reg8::C, Reg8::D, Reg8::E, Reg8::H, Reg8::L];
    for (i, r) in regs.iter().enumerate() {
        assert_eq!(Some(()), cpu.write8(&mut peri, *r, 0x10 + i as u8));
    }
    for (i, r) in regs.iter().enumerate() {
        assert_eq!(Some(0x10 + i as u8), cpu.read8(&peri, *r));
    }
    assert_eq!(0x10, cpu.regs.a);
    assert_eq!(0x1112, cpu.regs.bc());
    assert_eq!(0x1314, cpu.regs.de());
    assert_eq!(0x1516, cpu.regs.hl());
    assert_eq!(0, cpu.regs.pc);
}

#[test]
fn register_pairs_and_the_stack_pointer() {
    let mut cpu = Cpu::default();
    let mut peri = bus(vec![]);
    assert_eq!(Some(()), cpu.write16(&mut peri, Reg16::DE, 0x1234));
    assert_eq!(Some(()), cpu.write16(&mut peri, Reg16::HL, 0x5678));
    assert_eq!(Some(()), cpu.write16(&mut peri, Reg16::SP, 0x9ABC));
    assert_eq!(Some(0x1234), cpu.read16(&peri, Reg16::DE));
    assert_eq!(Some(0x5678), cpu.read16(&peri, Reg16::HL));
    assert_eq!(Some(0x9ABC), cpu.read16(&peri, Reg16::SP));
    assert_eq!(0x9ABC, cpu.regs.sp);
}

#[test]
fn imm16_is_little_endian_and_takes_two_bus_cycles() {
    let mut cpu = Cpu::default();
    let peri = bus(vec![0x34, 0x12, 0x99]);
    assert_eq!(None, cpu.read16(&peri, Imm16));
    assert_eq!(1, cpu.regs.pc);
    assert_eq!(None, cpu.read16(&peri, Imm16));
    assert_eq!(2, cpu.regs.pc);
    assert_eq!(Some(0x1234), cpu.read16(&peri, Imm16));
    assert_eq!(2, cpu.regs.pc);
    assert_eq!(0, cpu.ctx.operand.step);
    assert_eq!(0, cpu.ctx.immediate.step);
}

#[test]
fn indirect_read_takes_one_bus_cycle() {
    let mut cpu = Cpu::default();
    let mut peri = bus(vec![]);
    peri.write(0xC010, 0x5A);
    cpu.regs.write_bc(0xC010);
    assert_eq!(None, cpu.read8(&peri, Indirect::BC));
    assert_eq!(Some(0x5A), cpu.read8(&peri, Indirect::BC));
    cpu.regs.write_de(0xC010);
    assert_eq!(None, cpu.read8(&peri, Indirect::DE));
    assert_eq!(Some(0x5A), cpu.read8(&peri, Indirect::DE));
    cpu.regs.write_hl(0xC010);
    assert_eq!(None, cpu.read8(&peri, Indirect::HL));
    assert_eq!(Some(0x5A), cpu.read8(&peri, Indirect::HL));
    assert_eq!(0xC010, cpu.regs.hl());
}

#[test]
fn indirect_through_c_uses_the_high_page() {
    let mut cpu = Cpu::default();
    let mut peri = bus(vec![]);
    cpu.regs.c = 0x85;
    assert_eq!(None, cpu.write8(&mut peri, Indirect::CFF, 0x77));
    assert_eq!(Some(()), cpu.write8(&mut peri, Indirect::CFF, 0x77));
    assert_eq!(0x77, peri.read(0xFF85));
    assert_eq!(None, cpu.read8(&peri, Indirect::CFF));
    assert_eq!(Some(0x77), cpu.read8(&peri, Indirect::CFF));
}

#[test]
fn hl_moves_once_per_access() {
    let mut cpu = Cpu::default();
    let mut peri = bus(vec![]);
    cpu.regs.write_hl(0xC000);
    assert_eq!(None, cpu.write8(&mut peri, Indirect::HLI, 0x11));
    assert_eq!(0xC001, cpu.regs.hl());
    assert_eq!(Some(()), cpu.write8(&mut peri, Indirect::HLI, 0x11));
    assert_eq!(0xC001, cpu.regs.hl());
    assert_eq!(0x11, peri.read(0xC000));

    assert_eq!(None, cpu.write8(&mut peri, Indirect::HLD, 0x22));
    assert_eq!(0xC000, cpu.regs.hl());
    assert_eq!(Some(()), cpu.write8(&mut peri, Indirect::HLD, 0x22));
    assert_eq!(0x22, peri.read(0xC001));

    assert_eq!(None, cpu.read8(&peri, Indirect::HLI));
    assert_eq!(Some(0x11), cpu.read8(&peri, Indirect::HLI));
    assert_eq!(None, cpu.read8(&peri, Indirect::HLD));
    assert_eq!(Some(0x22), cpu.read8(&peri, Indirect::HLD));
    assert_eq!(0xC000, cpu.regs.hl());
}

#[test]
fn hl_wraps_at_both_ends() {
    let mut cpu = Cpu::default();
    let peri = bus(vec![]);
    cpu.regs.write_hl(0xFFFF);
    assert_eq!(None, cpu.read8(&peri, Indirect::HLI));
    assert_eq!(0x0000, cpu.regs.hl());
    cpu.read8(&peri, Indirect::HLI);
    cpu.regs.write_hl(0x0000);
    assert_eq!(None, cpu.read8(&peri, Indirect::HLD));
    assert_eq!(0xFFFF, cpu.regs.hl());
}

#[test]
fn direct_read_takes_three_bus_cycles() {
    let mut cpu = Cpu::default();
    let mut peri = bus(vec![0x10, 0xC0]);
    peri.write(0xC010, 0x5A);
    assert_eq!(None, cpu.read8(&peri, Direct8::D));
    assert_eq!(None, cpu.read8(&peri, Direct8::D));
    assert_eq!(None, cpu.read8(&peri, Direct8::D));
    assert_eq!(Some(0x5A), cpu.read8(&peri, Direct8::D));
    assert_eq!(2, cpu.regs.pc);
    assert_eq!(0, cpu.ctx.operand.step);
}

#[test]
fn high_page_read_takes_two_bus_cycles() {
    let mut cpu = Cpu::default();
    let mut peri = bus(vec![0x90]);
    peri.write(0xFF90, 0xA5);
    assert_eq!(None, cpu.read8(&peri, Direct8::DFF));
    assert_eq!(None, cpu.read8(&peri, Direct8::DFF));
    assert_eq!(Some(0xA5), cpu.read8(&peri, Direct8::DFF));
    assert_eq!(1, cpu.regs.pc);
}

#[test]
fn direct_write_reaches_the_address_after_the_opcode() {
    let mut cpu = Cpu::default();
    let mut peri = bus(vec![0x34, 0xC2]);
    assert_eq!(None, cpu.write8(&mut peri, Direct8::D, 0x99));
    assert_eq!(None, cpu.write8(&mut peri, Direct8::D, 0x99));
    assert_eq!(0, peri.read(0xC234));
    assert_eq!(None, cpu.write8(&mut peri, Direct8::D, 0x99));
    assert_eq!(0x99, peri.read(0xC234));
    assert_eq!(Some(()), cpu.write8(&mut peri, Direct8::D, 0x99));
}

#[test]
fn high_page_write_uses_ff00_plus_the_byte() {
    let mut cpu = Cpu::default();
    let mut peri = bus(vec![0x81]);
    assert_eq!(None, cpu.write8(&mut peri, Direct8::DFF, 0x42));
    assert_eq!(None, cpu.write8(&mut peri, Direct8::DFF, 0x42));
    assert_eq!(0x42, peri.read(0xFF81));
    assert_eq!(0, peri.read(0xC081));
    assert_eq!(Some(()), cpu.write8(&mut peri, Direct8::DFF, 0x42));
}

#[test]
fn direct_word_write_is_low_byte_first() {
    let mut cpu = Cpu::default();
    let mut peri = bus(vec![0x00, 0xC1]);
    assert_eq!(None, cpu.write16(&mut peri, Direct16, 0xBEEF));
    assert_eq!(None, cpu.write16(&mut peri, Direct16, 0xBEEF));
    assert_eq!(None, cpu.write16(&mut peri, Direct16, 0xBEEF));
    assert_eq!(0xEF, peri.read(0xC100));
    assert_eq!(0x00, peri.read(0xC101));
    assert_eq!(None, cpu.write16(&mut peri, Direct16, 0xBEEF));
    assert_eq!(0xBE, peri.read(0xC101));
    assert_eq!(Some(()), cpu.write16(&mut peri, Direct16, 0xBEEF));
    assert_eq!(0, cpu.ctx.operand.step);
}
