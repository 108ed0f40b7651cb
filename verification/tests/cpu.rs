use gbemu_rust::bootrom::Bootrom;
use gbemu_rust::cartridge::Cartridge;
use gbemu_rust::cpu::{Cpu, Ctx};
use gbemu_rust::interrupts::Source;
use gbemu_rust::peripherals::Peripherals;
use gbemu_rust::register::Registres;

/// A bus with `program` at address 0.
fn bus(program: &[u8]) -> Peripherals {
    Peripherals::new(Bootrom::new(program.to_vec()), Cartridge::new(Vec::new().into_boxed_slice()))
}

/// A processor that has just fetched the first byte of `program`, and the
/// bus that holds it.
fn start(program: &[u8]) -> (Cpu, Peripherals) {
    let peri = bus(program);
    let mut cpu = Cpu::default();
    cpu.fetch(&peri);
    (cpu, peri)
}

/// Runs machine cycles until the instruction under way has fetched its
/// successor, and returns their number.
fn run(cpu: &mut Cpu, peri: &mut Peripherals) -> u32 {
    let mut cycles = 0;
    loop {
        cpu.emulate_cycle(peri);
        cycles += 1;
        if !cpu.ctx.busy {
            return cycles;
        }
        assert!(cycles < 64);
    }
}

fn flags(cpu: &Cpu) -> (bool, bool, bool, bool) {
    (cpu.regs.zf(), cpu.regs.nf(), cpu.regs.hf(), cpu.regs.cf())
}

#[test]
fn test_fetch() {
    let mut cpu = Cpu { regs: Registres::default(), ctx: Ctx::default() };
    let peri = bus(&[0, 0x00]);
    cpu.fetch(&peri);
    assert_eq!(0x00, cpu.ctx.opcode);
    assert_eq!(1, cpu.regs.pc);
    assert!(!cpu.ctx.cb);
}

#[test]
fn a_new_processor_is_at_rest() {
    let mut regs = Registres::default();
    regs.pc = 0x0100;
    regs.sp = 0xFFFE;
    let cpu = Cpu::new(regs);
    assert_eq!(0x0100, cpu.regs.pc);
    assert_eq!(0xFFFE, cpu.regs.sp);
    assert_eq!(0, cpu.ctx.opcode);
    assert_eq!(0, cpu.ctx.step);
    assert!(!cpu.ctx.busy);
    assert!(!cpu.is_locked());
}

#[test]
fn fetch_wraps_the_program_counter() {
    let mut cpu = Cpu::default();
    let mut peri = bus(&[0x3E]);
    cpu.regs.pc = 0xFFFF;
    peri.write(0xFFFF, 0x15);
    cpu.fetch(&peri);
    assert_eq!(0x15, cpu.ctx.opcode);
    assert_eq!(0x0000, cpu.regs.pc);
}

#[test]
fn nop_takes_one_cycle() {
    let mut peri = bus(&[0x00, 0x00]);
    let mut cpu = Cpu::default();
    cpu.regs.f = 0xB0;
    cpu.emulate_cycle(&mut peri);
    assert_eq!(1, cpu.regs.pc);
    assert_eq!(0xB0, cpu.regs.f);
    assert!(!cpu.ctx.busy);
}

#[test]
fn ld_b_a() {
    let (mut cpu, mut peri) = start(&[0x47, 0x00]);
    cpu.regs.a = 0xFF;
    cpu.regs.b = 0x00;
    let pc = cpu.regs.pc;
    assert_eq!(1, run(&mut cpu, &mut peri));
    assert_eq!(0xFF, cpu.regs.b);
    assert_eq!(pc + 1, cpu.regs.pc);
}

#[test]
fn cp_equal() {
    let (mut cpu, mut peri) = start(&[0xB8, 0x00]);
    cpu.regs.a = 0x0A;
    cpu.regs.b = 0x0A;
    assert_eq!(1, run(&mut cpu, &mut peri));
    assert_eq!((true, true, false, false), flags(&cpu));
    assert_eq!(0x0A, cpu.regs.a);
}

#[test]
fn cp_less() {
    let (mut cpu, mut peri) = start(&[0xB8, 0x00]);
    cpu.regs.a = 0x0A;
    cpu.regs.b = 0x0B;
    assert_eq!(1, run(&mut cpu, &mut peri));
    assert_eq!((false, true, true, true), flags(&cpu));
    assert_eq!(0x0A, cpu.regs.a);
}

#[test]
fn inc_bc_wraps() {
    let (mut cpu, mut peri) = start(&[0x03, 0x03, 0x00]);
    cpu.regs.write_bc(0xFFFE);
    cpu.regs.f = 0xF0;
    assert_eq!(2, run(&mut cpu, &mut peri));
    assert_eq!(0xFFFF, cpu.regs.bc());
    assert_eq!(0xF0, cpu.regs.f);
    assert_eq!(2, run(&mut cpu, &mut peri));
    assert_eq!(0x0000, cpu.regs.bc());
    assert_eq!(0xF0, cpu.regs.f);
}

#[test]
fn jr_z_taken_and_not_taken() {
    let (mut cpu, mut peri) = start(&[0x28, 0x02, 0x00, 0x00, 0x00, 0x00]);
    cpu.regs.set_zf(true);
    let pc = cpu.regs.pc;
    assert_eq!(3, run(&mut cpu, &mut peri));
    assert_eq!(pc + 2 + 2, cpu.regs.pc);

    let (mut cpu, mut peri) = start(&[0x28, 0x02, 0x00, 0x00, 0x00, 0x00]);
    cpu.regs.set_zf(false);
    let pc = cpu.regs.pc;
    assert_eq!(2, run(&mut cpu, &mut peri));
    assert_eq!(pc + 2, cpu.regs.pc);
}

#[test]
fn jr_goes_backwards() {
    let (mut cpu, mut peri) = start(&[0x00, 0x00, 0x18, 0xFC, 0x00]);
    run(&mut cpu, &mut peri);
    run(&mut cpu, &mut peri);
    assert_eq!(0x18, cpu.ctx.opcode);
    assert_eq!(3, run(&mut cpu, &mut peri));
    assert_eq!(0x0001, cpu.regs.pc);
    assert_eq!(0x00, cpu.ctx.opcode);
}

fn cartridge_machine(code: &[(u16, &[u8])]) -> (Cpu, Peripherals) {
    let mut image = vec![0u8; 0x8000];
    for (at, bytes) in code {
        for (i, b) in bytes.iter().enumerate() {
            image[*at as usize + i] = *b;
        }
    }
    let peri = Peripherals::new(Bootrom::new(vec![0; 0x100]), Cartridge::new(image.into_boxed_slice()));
    let mut regs = Registres::default();
    regs.pc = 0x0100;
    regs.sp = 0xFFFE;
    let mut cpu = Cpu::new(regs);
    cpu.fetch(&peri);
    (cpu, peri)
}

#[test]
fn call_then_ret() {
    let (mut cpu, mut peri) = cartridge_machine(&[(0x0100, &[0xCD, 0x34, 0x12, 0x00]), (0x1234, &[0xC9])]);
    assert_eq!(0x0101, cpu.regs.pc);
    assert_eq!(6, run(&mut cpu, &mut peri));
    assert_eq!(0x1235, cpu.regs.pc);
    assert_eq!(0xC9, cpu.ctx.opcode);
    assert_eq!(0xFFFC, cpu.regs.sp);
    assert_eq!(0x03, peri.read(0xFFFC));
    assert_eq!(0x01, peri.read(0xFFFD));
    assert_eq!(4, run(&mut cpu, &mut peri));
    assert_eq!(0x0104, cpu.regs.pc);
    assert_eq!(0xFFFE, cpu.regs.sp);
    assert_eq!(0x03, peri.read(0xFFFC));
    assert_eq!(0x01, peri.read(0xFFFD));
}

#[test]
fn interrupt_dispatch() {
    let (mut cpu, mut peri) = cartridge_machine(&[(0x0040, &[0xD9]), (0x0100, &[0x3C, 0x00])]);
    peri.write(0xFF50, 0x01);
    peri.write(0xFFFF, 0x01);
    peri.interrupts.request(Source::VBlank);
    peri.interrupts.set_ime(true);
    assert_eq!(0x0101, cpu.regs.pc);

    cpu.emulate_cycle(&mut peri);
    assert!(cpu.ctx.servicing);
    assert!(!peri.interrupts.ime());
    assert_eq!(0x00, peri.read(0xFF0F));
    for _ in 0..4 {
        assert!(cpu.ctx.busy);
        cpu.emulate_cycle(&mut peri);
    }
    assert!(cpu.ctx.busy);
    assert_eq!(0x0040, cpu.regs.pc);
    assert_eq!(0xFFFC, cpu.regs.sp);
    assert_eq!(0x00, peri.read(0xFFFC));
    assert_eq!(0x01, peri.read(0xFFFD));
    cpu.emulate_cycle(&mut peri);
    assert!(!cpu.ctx.busy);
    assert!(!cpu.ctx.servicing);
    assert_eq!(0x0041, cpu.regs.pc);
    assert_eq!(0xD9, cpu.ctx.opcode);
    assert_eq!(0, cpu.regs.a);

    assert_eq!(4, run(&mut cpu, &mut peri));
    assert!(peri.interrupts.ime());
    assert_eq!(0x0101, cpu.regs.pc);
    assert_eq!(0x3C, cpu.ctx.opcode);
    assert_eq!(0xFFFE, cpu.regs.sp);
    assert_eq!(1, run(&mut cpu, &mut peri));
    assert_eq!(1, cpu.regs.a);
}

#[test]
fn every_source_has_its_vector() {
    let sources =
        [Source::VBlank, Source::LcdStat, Source::Timer, Source::Serial, Source::Joypad];
    for (i, source) in sources.iter().enumerate() {
        let (mut cpu, mut peri) = start(&[0x00, 0x00]);
        cpu.regs.sp = 0xD000;
        peri.write(0xFFFF, 0x1F);
        peri.interrupts.request(*source);
        peri.interrupts.set_ime(true);
        assert_eq!(6, run(&mut cpu, &mut peri));
        assert_eq!(0x0041 + 8 * i as u16, cpu.regs.pc);
        assert_eq!(0x00, peri.read(0xFF0F));
    }
}

#[test]
fn the_most_urgent_source_goes_first() {
    let (mut cpu, mut peri) = start(&[0x00, 0x00]);
    cpu.regs.sp = 0xD000;
    peri.write(0xFFFF, 0x1F);
    peri.interrupts.request(Source::Serial);
    peri.interrupts.request(Source::LcdStat);
    peri.interrupts.set_ime(true);
    assert_eq!(6, run(&mut cpu, &mut peri));
    assert_eq!(0x0049, cpu.regs.pc);
    assert_eq!(0x08, peri.read(0xFF0F));
}

#[test]
fn no_dispatch_without_the_master_enable() {
    let (mut cpu, mut peri) = start(&[0x3C, 0x00]);
    peri.write(0xFFFF, 0x01);
    peri.interrupts.request(Source::VBlank);
    assert_eq!(1, run(&mut cpu, &mut peri));
    assert_eq!(1, cpu.regs.a);
    assert_eq!(0x01, peri.read(0xFF0F));
}

#[test]
fn no_dispatch_for_a_source_that_is_not_enabled() {
    let (mut cpu, mut peri) = start(&[0x3C, 0x00]);
    peri.write(0xFFFF, 0x02);
    peri.interrupts.request(Source::VBlank);
    peri.interrupts.set_ime(true);
    assert_eq!(1, run(&mut cpu, &mut peri));
    assert_eq!(1, cpu.regs.a);
    assert!(peri.interrupts.ime());
}

#[test]
fn no_dispatch_in_the_middle_of_an_instruction() {
    let (mut cpu, mut peri) = start(&[0x3E, 0x55, 0x00]);
    cpu.emulate_cycle(&mut peri);
    assert!(cpu.ctx.busy);
    peri.write(0xFFFF, 0x01);
    peri.interrupts.request(Source::VBlank);
    peri.interrupts.set_ime(true);
    cpu.emulate_cycle(&mut peri);
    assert!(!cpu.ctx.busy);
    assert_eq!(0x55, cpu.regs.a);
    assert_eq!(6, run(&mut cpu, &mut peri));
    assert_eq!(0x0041, cpu.regs.pc);
}

#[test]
fn ei_takes_effect_after_the_next_instruction() {
    let (mut cpu, mut peri) = start(&[0xFB, 0x3C, 0x3C, 0x00]);
    cpu.regs.sp = 0xD000;
    peri.write(0xFFFF, 0x01);
    peri.interrupts.request(Source::VBlank);
    assert_eq!(1, run(&mut cpu, &mut peri));
    assert!(!peri.interrupts.ime());
    assert!(cpu.ctx.ime_pending);
    assert_eq!(1, run(&mut cpu, &mut peri));
    assert_eq!(1, cpu.regs.a);
    assert!(peri.interrupts.ime());
    assert!(!cpu.ctx.ime_pending);
    assert_eq!(6, run(&mut cpu, &mut peri));
    assert_eq!(1, cpu.regs.a);
    assert_eq!(0x0041, cpu.regs.pc);
    assert_eq!(0x02, peri.read(0xCFFE));
    assert_eq!(0x00, peri.read(0xCFFF));
    assert!(!peri.interrupts.ime());
}

#[test]
fn di_cancels_a_pending_ei() {
    let (mut cpu, mut peri) = start(&[0xFB, 0xF3, 0x3C, 0x3C, 0x00]);
    peri.write(0xFFFF, 0x01);
    peri.interrupts.request(Source::VBlank);
    assert_eq!(1, run(&mut cpu, &mut peri));
    assert_eq!(1, run(&mut cpu, &mut peri));
    assert!(!peri.interrupts.ime());
    assert!(!cpu.ctx.ime_pending);
    assert_eq!(1, run(&mut cpu, &mut peri));
    assert_eq!(1, run(&mut cpu, &mut peri));
    assert_eq!(2, cpu.regs.a);
}

#[test]
fn di_clears_the_master_enable_at_once() {
    let (mut cpu, mut peri) = start(&[0xF3, 0x3C, 0x00]);
    peri.interrupts.set_ime(true);
    assert_eq!(1, run(&mut cpu, &mut peri));
    assert!(!peri.interrupts.ime());
    peri.write(0xFFFF, 0x01);
    peri.interrupts.request(Source::VBlank);
    assert_eq!(1, run(&mut cpu, &mut peri));
    assert_eq!(1, cpu.regs.a);
}

#[test]
fn halt_waits_for_a_pending_source() {
    let (mut cpu, mut peri) = start(&[0x76, 0x3C, 0x00]);
    for _ in 0..10 {
        cpu.emulate_cycle(&mut peri);
        assert!(cpu.ctx.busy);
        assert_eq!(0x0001, cpu.regs.pc);
    }
    peri.write(0xFFFF, 0x04);
    peri.interrupts.request(Source::VBlank);
    cpu.emulate_cycle(&mut peri);
    assert!(cpu.ctx.busy);
    peri.interrupts.request(Source::Timer);
    cpu.emulate_cycle(&mut peri);
    assert!(!cpu.ctx.busy);
    assert_eq!(0x0002, cpu.regs.pc);
    assert_eq!(1, run(&mut cpu, &mut peri));
    assert_eq!(1, cpu.regs.a);
    assert_eq!(0x05, peri.read(0xFF0F));
}

#[test]
fn halt_with_the_master_enable_set_wakes_into_the_handler() {
    let (mut cpu, mut peri) = start(&[0x76, 0x3C, 0x00]);
    cpu.regs.sp = 0xD000;
    peri.interrupts.set_ime(true);
    peri.write(0xFFFF, 0x04);
    cpu.emulate_cycle(&mut peri);
    cpu.emulate_cycle(&mut peri);
    assert!(cpu.ctx.busy);
    peri.interrupts.request(Source::Timer);
    cpu.emulate_cycle(&mut peri);
    assert!(!cpu.ctx.busy);
    assert_eq!(6, run(&mut cpu, &mut peri));
    assert_eq!(0x0051, cpu.regs.pc);
    assert_eq!(0x01, peri.read(0xCFFE));
    assert_eq!(0x00, peri.read(0xCFFF));
    assert_eq!(0, cpu.regs.a);
}

#[test]
fn halt_with_a_source_already_pending_is_one_cycle() {
    let (mut cpu, mut peri) = start(&[0x76, 0x3C, 0x00]);
    peri.write(0xFFFF, 0x01);
    peri.interrupts.request(Source::VBlank);
    assert_eq!(1, run(&mut cpu, &mut peri));
    assert_eq!(0x0002, cpu.regs.pc);
}

#[test]
fn illegal_opcodes_lock_the_processor() {
    for opcode in [0xD3u8, 0xDB, 0xDD, 0xE3, 0xE4, 0xEB, 0xEC, 0xED, 0xF4, 0xFC, 0xFD] {
        let (mut cpu, mut peri) = start(&[opcode, 0x3C, 0x00]);
        assert!(!cpu.is_locked());
        cpu.emulate_cycle(&mut peri);
        assert!(cpu.is_locked());
        let before = cpu.regs;
        for _ in 0..8 {
            cpu.emulate_cycle(&mut peri);
        }
        assert!(cpu.is_locked());
        assert_eq!(before.pc, cpu.regs.pc);
        assert_eq!(before.a, cpu.regs.a);
    }
}

#[test]
fn every_other_opcode_is_an_instruction() {
    let illegal = [0xD3u8, 0xDB, 0xDD, 0xE3, 0xE4, 0xEB, 0xEC, 0xED, 0xF4, 0xFC, 0xFD];
    for opcode in 0..=255u8 {
        if illegal.contains(&opcode) {
            continue;
        }
        let (mut cpu, mut peri) = start(&[opcode, 0x00, 0x00, 0x00]);
        cpu.regs.sp = 0xD000;
        cpu.regs.write_hl(0xC000);
        if opcode == 0x76 {
            peri.write(0xFFFF, 0x01);
            peri.interrupts.request(Source::VBlank);
        }
        let cycles = run(&mut cpu, &mut peri);
        assert!(1 <= cycles && cycles <= 6);
        assert!(!cpu.is_locked());
        assert_eq!(0, cpu.regs.f & 0x0F);
    }
}

#[test]
fn the_low_nibble_of_f_stays_clear_through_pop_af() {
    let (mut cpu, mut peri) = start(&[0x01, 0xFF, 0xFF, 0xC5, 0xF1, 0x00]);
    cpu.regs.sp = 0xD000;
    assert_eq!(3, run(&mut cpu, &mut peri));
    assert_eq!(4, run(&mut cpu, &mut peri));
    assert_eq!(3, run(&mut cpu, &mut peri));
    assert_eq!(0xFFF0, cpu.regs.af());
    assert_eq!(0xD000, cpu.regs.sp);
}
