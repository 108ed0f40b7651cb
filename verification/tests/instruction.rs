use gbemu_rust::bootrom::Bootrom;
use gbemu_rust::cartridge::Cartridge;
use gbemu_rust::cpu::{Cpu, Ctx};
use gbemu_rust::operand::{Cond, Imm8, Indirect, Reg16, Reg8, IO16, IO8};
use gbemu_rust::peripherals::Peripherals;
use gbemu_rust::register::Registres;

fn peri() -> Peripherals {
    Peripherals::new(Bootrom::new(vec![0x12, 0x34]), Cartridge::new(Vec::new().into_boxed_slice()))
}

fn cpu() -> Cpu {
    Cpu { regs: Registres::default(), ctx: Ctx::default() }
}

#[test]
fn test_nop() {
    let peri = peri();
    let mut cpu = cpu();
    assert_eq!(0, cpu.regs.pc);
    cpu.nop(&peri);
    assert_eq!(1, cpu.regs.pc);
}

#[test]
fn test_ld() {
    let mut peri = peri();
    let mut cpu = cpu();
    cpu.write8(&mut peri, Reg8::A, 0xFF);
    assert_eq!(0, cpu.regs.pc);
    cpu.ld(&mut peri, Reg8::B, Reg8::A);
    assert_eq!(0xFF, cpu.read8(&mut peri, Reg8::A).unwrap());
}

#[test]
fn test_ld16() {
    let mut peri = peri();
    let mut cpu = cpu();
    cpu.write16(&mut peri, Reg16::BC, 0xFFFF);
    assert_eq!(0, cpu.regs.pc);
    cpu.ld16(&mut peri, Reg16::DE, Reg16::BC);
    assert_eq!(0xFFFF, cpu.read16(&mut peri, Reg16::DE).unwrap());
    assert_eq!(1, cpu.regs.pc);
}

#[test]
fn test_cp() {
    let mut peri = peri();
    let mut cpu = cpu();

    cpu.write8(&mut peri, Reg8::A, 0x0a);
    cpu.write8(&mut peri, Reg8::B, 0x0a);
    cpu.cp(&mut peri, Reg8::B);
    assert!(cpu.regs.zf());
    assert!(cpu.regs.nf());
    assert!(!cpu.regs.hf());
    assert!(!cpu.regs.cf());
    assert_eq!(1, cpu.regs.pc);
    println!("RegA:{}, RegB:{}", cpu.regs.a, cpu.regs.b);

    cpu.write8(&mut peri, Reg8::B, 0x0b);
    cpu.cp(&mut peri, Reg8::B);
    assert!(!cpu.regs.zf());
    assert!(cpu.regs.nf());
    assert!(cpu.regs.hf());
    assert!(cpu.regs.cf());
    assert_eq!(2, cpu.regs.pc);
    println!("RegA:{}, RegB:{}", cpu.regs.a, cpu.regs.b);
}

#[test]
fn test_inc() {
    let mut peri = peri();
    let mut cpu = cpu();

    cpu.write8(&mut peri, Reg8::A, 0x0e);
    cpu.inc(&mut peri, Reg8::A);
    println!("RegA:{}", cpu.regs.a);
    assert_eq!(0x0f, cpu.regs.a);
    cpu.inc(&mut peri, Reg8::A);
    println!("RegA:{}", cpu.regs.a);
    assert_eq!(0x10, cpu.regs.a);
}

#[test]
fn test_inc16() {
    let mut peri = peri();
    let mut cpu = cpu();

    cpu.write16(&mut peri, Reg16::BC, 0xFFFE);
    println!("pc:{}", cpu.regs.pc);

    cpu.inc16(&mut peri, Reg16::BC);
    println!("pc:{}", cpu.regs.pc);
    println!("RegBC:{}", cpu.regs.bc());
    assert_eq!(0xFFFF, cpu.regs.bc());

    cpu.inc16(&mut peri, Reg16::BC);
    println!("pc:{}", cpu.regs.pc);
    println!("RegBC:{}", cpu.regs.bc());
}

#[test]
fn ld_moves_the_value_and_fetches() {
    let mut peri = peri();
    let mut cpu = cpu();
    cpu.regs.a = 0xFF;
    cpu.ld(&mut peri, Reg8::B, Reg8::A);
    assert_eq!(0xFF, cpu.regs.b);
    assert_eq!(0xFF, cpu.regs.a);
    assert_eq!(1, cpu.regs.pc);
    assert_eq!(0x12, cpu.ctx.opcode);
    assert_eq!(0, cpu.ctx.step);
}

#[test]
fn ld_immediate_takes_two_calls() {
    let mut peri = peri();
    let mut cpu = cpu();
    cpu.ld(&mut peri, Reg8::C, Imm8);
    assert_eq!(0, cpu.regs.c);
    assert_eq!(1, cpu.regs.pc);
    cpu.ld(&mut peri, Reg8::C, Imm8);
    assert_eq!(0x12, cpu.regs.c);
    assert_eq!(2, cpu.regs.pc);
    assert_eq!(0x34, cpu.ctx.opcode);
}

#[test]
fn ld_to_memory_takes_two_calls() {
    let mut peri = peri();
    let mut cpu = cpu();
    cpu.regs.a = 0x77;
    cpu.regs.write_hl(0xC000);
    cpu.ld(&mut peri, Indirect::HL, Reg8::A);
    assert_eq!(0x77, peri.read(0xC000));
    assert_eq!(0, cpu.regs.pc);
    cpu.ld(&mut peri, Indirect::HL, Reg8::A);
    assert_eq!(1, cpu.regs.pc);
}

#[test]
fn inc16_fetches_in_its_second_call() {
    let mut peri = peri();
    let mut cpu = cpu();
    cpu.regs.write_bc(0xFFFF);
    cpu.inc16(&mut peri, Reg16::BC);
    assert_eq!(0x0000, cpu.regs.bc());
    assert_eq!(0, cpu.regs.pc);
    cpu.inc16(&mut peri, Reg16::BC);
    assert_eq!(0x0000, cpu.regs.bc());
    assert_eq!(1, cpu.regs.pc);
    assert_eq!(0, cpu.regs.f);
}

#[test]
fn dec16_wraps_and_keeps_the_flags() {
    let mut peri = peri();
    let mut cpu = cpu();
    cpu.regs.f = 0xF0;
    cpu.regs.sp = 0x0000;
    cpu.dec16(&mut peri, Reg16::SP);
    cpu.dec16(&mut peri, Reg16::SP);
    assert_eq!(0xFFFF, cpu.regs.sp);
    assert_eq!(0xF0, cpu.regs.f);
    assert_eq!(1, cpu.regs.pc);
}

#[test]
fn conditions_follow_the_flags() {
    let mut cpu = cpu();
    assert!(cpu.cond(Cond::NZ));
    assert!(!cpu.cond(Cond::Z));
    assert!(cpu.cond(Cond::NC));
    assert!(!cpu.cond(Cond::C));
    cpu.regs.set_zf(true);
    assert!(!cpu.cond(Cond::NZ));
    assert!(cpu.cond(Cond::Z));
    cpu.regs.set_cf(true);
    assert!(!cpu.cond(Cond::NC));
    assert!(cpu.cond(Cond::C));
}

#[test]
fn push16_writes_high_byte_then_low_byte() {
    let mut peri = peri();
    let mut cpu = cpu();
    cpu.regs.sp = 0xD000;
    assert_eq!(None, cpu.push16(&mut peri, 0xABCD));
    assert_eq!(0xD000, cpu.regs.sp);
    assert_eq!(None, cpu.push16(&mut peri, 0xABCD));
    assert_eq!(0xCFFF, cpu.regs.sp);
    assert_eq!(0xAB, peri.read(0xCFFF));
    assert_eq!(None, cpu.push16(&mut peri, 0xABCD));
    assert_eq!(0xCFFE, cpu.regs.sp);
    assert_eq!(0xCD, peri.read(0xCFFE));
    assert_eq!(Some(()), cpu.push16(&mut peri, 0xABCD));
    assert_eq!(0xCFFE, cpu.regs.sp);
}

#[test]
fn pop16_reads_low_byte_then_high_byte() {
    let mut peri = peri();
    let mut cpu = cpu();
    peri.write(0xCFFE, 0xCD);
    peri.write(0xCFFF, 0xAB);
    cpu.regs.sp = 0xCFFE;
    assert_eq!(None, cpu.pop16(&peri));
    assert_eq!(0xCFFF, cpu.regs.sp);
    assert_eq!(None, cpu.pop16(&peri));
    assert_eq!(0xD000, cpu.regs.sp);
    assert_eq!(Some(0xABCD), cpu.pop16(&peri));
    assert_eq!(0xD000, cpu.regs.sp);
}

#[test]
fn the_stack_pointer_wraps() {
    let mut peri = peri();
    let mut cpu = cpu();
    cpu.regs.sp = 0x0000;
    cpu.push16(&mut peri, 0x1234);
    cpu.push16(&mut peri, 0x1234);
    assert_eq!(0xFFFF, cpu.regs.sp);
    cpu.push16(&mut peri, 0x1234);
    assert_eq!(0xFFFE, cpu.regs.sp);
    assert_eq!(0x34, peri.read(0xFFFE));
    assert_eq!(Some(()), cpu.push16(&mut peri, 0x1234));
    cpu.regs.sp = 0xFFFF;
    cpu.pop16(&peri);
    assert_eq!(0x0000, cpu.regs.sp);
}

#[test]
fn push_then_pop_restores_the_pair_and_the_stack_pointer() {
    let mut peri = peri();
    let mut cpu = cpu();
    cpu.regs.sp = 0xFFFE;
    cpu.regs.write_bc(0xBEEF);
    for _ in 0..4 {
        cpu.push(&mut peri, Reg16::BC);
    }
    assert_eq!(1, cpu.regs.pc);
    assert_eq!(0xFFFC, cpu.regs.sp);
    for _ in 0..3 {
        cpu.pop(&mut peri, Reg16::DE);
    }
    assert_eq!(2, cpu.regs.pc);
    assert_eq!(0xBEEF, cpu.regs.de());
    assert_eq!(0xFFFE, cpu.regs.sp);
}

#[test]
fn pop_af_drops_the_low_nibble() {
    let mut peri = peri();
    let mut cpu = cpu();
    cpu.regs.sp = 0xFFFE;
    cpu.regs.write_hl(0x12FF);
    for _ in 0..4 {
        cpu.push(&mut peri, Reg16::HL);
    }
    for _ in 0..3 {
        cpu.pop(&mut peri, Reg16::AF);
    }
    assert_eq!(0x12F0, cpu.regs.af());
    assert_eq!(0, cpu.regs.f & 0x0F);
}
