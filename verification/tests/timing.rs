use gbemu_rust::bootrom::Bootrom;
use gbemu_rust::cartridge::Cartridge;
use gbemu_rust::cpu::Cpu;
use gbemu_rust::peripherals::Peripherals;

/// A processor that has just fetched the first byte of `program`, which
/// lies at address 0, with the stack and HL in work RAM.
fn start(program: &[u8], f: u8) -> (Cpu, Peripherals) {
    let peri = Peripherals::new(
        Bootrom::new(program.to_vec()),
        Cartridge::new(Vec::new().into_boxed_slice()),
    );
    let mut cpu = Cpu::default();
    cpu.regs.sp = 0xD000;
    cpu.regs.write_hl(0xC000);
    cpu.regs.write_bc(0xC100);
    cpu.regs.write_de(0xC200);
    cpu.regs.f = f;
    cpu.fetch(&peri);
    (cpu, peri)
}

/// Machine cycles until the instruction under way has fetched its
/// successor.
fn run(cpu: &mut Cpu, peri: &mut Peripherals) -> u32 {
    let mut cycles = 0;
    loop {
        cpu.emulate_cycle(peri);
        cycles += 1;
        if !cpu.ctx.busy {
            return cycles;
        }
        assert!(cycles < 64);
    }
}

fn cycles_of(program: &[u8], f: u8) -> u32 {
    let (mut cpu, mut peri) = start(program, f);
    run(&mut cpu, &mut peri)
}

/// Machine cycles of each opcode of the main table with every flag clear;
/// 0 where the opcode is illegal, the prefix, or HALT.
const CLEAR: [u32; 256] = [
    1, 3, 2, 2, 1, 1, 2, 1, 5, 2, 2, 2, 1, 1, 2, 1, // 0x
    1, 3, 2, 2, 1, 1, 2, 1, 3, 2, 2, 2, 1, 1, 2, 1, // 1x
    3, 3, 2, 2, 1, 1, 2, 1, 2, 2, 2, 2, 1, 1, 2, 1, // 2x
    3, 3, 2, 2, 3, 3, 3, 1, 2, 2, 2, 2, 1, 1, 2, 1, // 3x
    1, 1, 1, 1, 1, 1, 2, 1, 1, 1, 1, 1, 1, 1, 2, 1, // 4x
    1, 1, 1, 1, 1, 1, 2, 1, 1, 1, 1, 1, 1, 1, 2, 1, // 5x
    1, 1, 1, 1, 1, 1, 2, 1, 1, 1, 1, 1, 1, 1, 2, 1, // 6x
    2, 2, 2, 2, 2, 2, 0, 2, 1, 1, 1, 1, 1, 1, 2, 1, // 7x
    1, 1, 1, 1, 1, 1, 2, 1, 1, 1, 1, 1, 1, 1, 2, 1, // 8x
    1, 1, 1, 1, 1, 1, 2, 1, 1, 1, 1, 1, 1, 1, 2, 1, // 9x
    1, 1, 1, 1, 1, 1, 2, 1, 1, 1, 1, 1, 1, 1, 2, 1, // Ax
    1, 1, 1, 1, 1, 1, 2, 1, 1, 1, 1, 1, 1, 1, 2, 1, // Bx
    5, 3, 4, 4, 6, 4, 2, 4, 2, 4, 3, 0, 3, 6, 2, 4, // Cx
    5, 3, 4, 0, 6, 4, 2, 4, 2, 4, 3, 0, 3, 0, 2, 4, // Dx
    3, 3, 2, 0, 0, 4, 2, 4, 4, 1, 4, 0, 0, 0, 2, 4, // Ex
    3, 3, 2, 1, 0, 4, 2, 4, 3, 1, 4, 1, 0, 0, 2, 4, // Fx
];

#[test]
fn main_table_timings_with_flags_clear() {
    for opcode in 0..=255u8 {
        let expected = CLEAR[opcode as usize];
        if expected == 0 {
            continue;
        }
        assert_eq!(expected, cycles_of(&[opcode, 0x10, 0xC0, 0x00], 0x00), "opcode {:02x}", opcode);
    }
}

#[test]
fn conditional_timings_with_flags_set() {
    let cases: [(u8, u32); 16] = [
        (0x20, 2),
        (0x28, 3),
        (0x30, 2),
        (0x38, 3),
        (0xC0, 2),
        (0xC8, 5),
        (0xD0, 2),
        (0xD8, 5),
        (0xC2, 3),
        (0xCA, 4),
        (0xD2, 3),
        (0xDA, 4),
        (0xC4, 3),
        (0xCC, 6),
        (0xD4, 3),
        (0xDC, 6),
    ];
    for (opcode, expected) in cases {
        assert_eq!(expected, cycles_of(&[opcode, 0x10, 0xC0, 0x00], 0xF0), "opcode {:02x}", opcode);
    }
}

#[test]
fn a_taken_jump_is_one_cycle_longer() {
    for (opcode, taken_with) in [
        (0x20u8, 0x00u8),
        (0x28, 0x80),
        (0x30, 0x00),
        (0x38, 0x10),
        (0xC2, 0x00),
        (0xCA, 0x80),
        (0xD2, 0x00),
        (0xDA, 0x10),
    ] {
        let not_taken_with = if taken_with == 0x00 { 0x90 } else { 0x00 };
        let taken = cycles_of(&[opcode, 0x02, 0x00, 0x00, 0x00], taken_with);
        let not_taken = cycles_of(&[opcode, 0x02, 0x00, 0x00, 0x00], not_taken_with);
        assert_eq!(not_taken + 1, taken, "opcode {:02x}", opcode);
    }
}

#[test]
fn prefixed_table_timings() {
    for opcode in 0..=255u8 {
        let memory = opcode & 0x07 == 0x06;
        let test = (0x40..0x80).contains(&opcode);
        let expected = if !memory {
            2
        } else if test {
            3
        } else {
            4
        };
        assert_eq!(expected, cycles_of(&[0xCB, opcode, 0x00], 0x00), "opcode cb {:02x}", opcode);
    }
}

#[test]
fn every_instruction_leaves_the_step_counters_at_zero() {
    for opcode in 0..=255u8 {
        if CLEAR[opcode as usize] == 0 {
            continue;
        }
        let (mut cpu, mut peri) = start(&[opcode, 0x10, 0xC0, 0x00], 0x00);
        run(&mut cpu, &mut peri);
        assert_eq!(0, cpu.ctx.step);
        assert_eq!(0, cpu.ctx.operand.step);
        assert_eq!(0, cpu.ctx.immediate.step);
        assert!(!cpu.ctx.cb);
    }
}

#[test]
fn program_counter_after_each_length() {
    let cases: [(&[u8], u16); 8] = [
        (&[0x00, 0x00], 2),
        (&[0x3E, 0x12, 0x00], 3),
        (&[0x01, 0x34, 0x12, 0x00], 4),
        (&[0xCB, 0x00, 0x00], 3),
        (&[0xE0, 0x80, 0x00], 3),
        (&[0xEA, 0x00, 0xC0, 0x00], 4),
        (&[0x08, 0x00, 0xC0, 0x00], 4),
        (&[0xF8, 0x01, 0x00], 3),
    ];
    for (program, expected) in cases {
        let (mut cpu, mut peri) = start(program, 0x00);
        run(&mut cpu, &mut peri);
        assert_eq!(expected, cpu.regs.pc, "program {:02x?}", program);
    }
}
