use gbemu_rust::bootrom::Bootrom;
use gbemu_rust::cartridge::Cartridge;
use gbemu_rust::interrupts::Source;
use gbemu_rust::peripherals::Peripherals;

fn cartridge(image: Vec<u8>) -> Cartridge {
    Cartridge::new(image.into_boxed_slice())
}

fn numbered_image() -> Vec<u8> {
    (0..0x8000u32).map(|i| (i % 251) as u8).collect()
}

#[test]
fn test_readwrite_wram() {
    let mut peri = Peripherals::new(Bootrom::new(vec![0, 0]), cartridge(vec![]));
    peri.write(0xC000, 0x42);
    assert_eq!(0x42, peri.read(0xC000));
}

#[test]
fn test_readwrite_hram() {
    let mut peri = Peripherals::new(Bootrom::new(vec![0, 0]), cartridge(vec![]));
    peri.write(0xFF80, 0x42);
    assert_eq!(0x42, peri.read(0xFF80));
}

#[test]
fn test_readwrite_bootrom() {
    let mut peri = Peripherals::new(Bootrom::new(vec![0, 0]), cartridge(vec![]));
    peri.write(0xFF50, 1);
    assert_eq!(false, peri.bootrom.is_active());
}

#[test]
fn boot_window_shows_the_boot_rom_while_active() {
    let peri = Peripherals::new(Bootrom::new(vec![0xAA; 0x100]), cartridge(numbered_image()));
    assert_eq!(0xAA, peri.read(0x0000));
    assert_eq!(0xAA, peri.read(0x00FF));
    assert_eq!((0x100 % 251) as u8, peri.read(0x0100));
}

#[test]
fn boot_window_shows_the_cartridge_once_unmapped() {
    let mut peri = Peripherals::new(Bootrom::new(vec![0xAA; 0x100]), cartridge(numbered_image()));
    peri.write(0xFF50, 0x01);
    assert_eq!(0, peri.read(0x0000));
    assert_eq!((0x00FF % 251) as u8, peri.read(0x00FF));
    assert_eq!((0x7FFF % 251) as u8, peri.read(0x7FFF));
}

#[test]
fn zero_to_the_latch_keeps_the_boot_rom() {
    let mut peri = Peripherals::new(Bootrom::new(vec![0xAA; 0x100]), cartridge(numbered_image()));
    peri.write(0xFF50, 0x00);
    assert!(peri.bootrom.is_active());
    assert_eq!(0xAA, peri.read(0x0000));
}

#[test]
fn the_latch_cannot_be_undone() {
    let mut peri = Peripherals::new(Bootrom::new(vec![0xAA; 0x100]), cartridge(numbered_image()));
    peri.write(0xFF50, 0x11);
    peri.write(0xFF50, 0x00);
    assert!(!peri.bootrom.is_active());
    for addr in [0x0000u16, 0x8000, 0xC000, 0xFF50, 0xFF80, 0xFFFF] {
        peri.write(addr, 0x00);
        peri.write(addr, 0xFF);
        assert!(!peri.bootrom.is_active());
    }
    assert_eq!(0, peri.read(0x0000));
}

#[test]
fn the_cartridge_image_is_read_only() {
    let mut peri = Peripherals::new(Bootrom::new(vec![0xAA; 0x100]), cartridge(numbered_image()));
    peri.write(0x0000, 0x77);
    peri.write(0x0150, 0x77);
    assert_eq!(0xAA, peri.read(0x0000));
    assert_eq!((0x150 % 251) as u8, peri.read(0x0150));
    peri.write(0xFF50, 0x01);
    peri.write(0x0000, 0x77);
    assert_eq!(0, peri.read(0x0000));
}

#[test]
fn a_short_cartridge_reads_ff_past_its_end() {
    let mut peri = Peripherals::new(Bootrom::new(vec![]), cartridge(vec![1, 2, 3]));
    assert_eq!(0xFF, peri.read(0x0000));
    peri.write(0xFF50, 0x01);
    assert_eq!(1, peri.read(0x0000));
    assert_eq!(3, peri.read(0x0002));
    assert_eq!(0xFF, peri.read(0x0003));
    assert_eq!(0xFF, peri.read(0x7FFF));
}

#[test]
fn every_cell_that_holds_writes_reads_back() {
    let mut peri = Peripherals::new(Bootrom::new(vec![0, 0]), cartridge(vec![]));
    let ranges = [
        (0x8000u16, 0x9FFFu16),
        (0xA000, 0xBFFF),
        (0xC000, 0xFDFF),
        (0xFE00, 0xFE9F),
        (0xFF40, 0xFF4B),
        (0xFF80, 0xFFFE),
    ];
    for (lo, hi) in ranges {
        for addr in lo..=hi {
            let val = (addr as u8) ^ ((addr >> 8) as u8) ^ 0x5A;
            peri.write(addr, val);
            assert_eq!(val, peri.read(addr));
        }
    }
}

#[test]
fn work_ram_echoes() {
    let mut peri = Peripherals::new(Bootrom::new(vec![0, 0]), cartridge(vec![]));
    peri.write(0xC000, 0x12);
    assert_eq!(0x12, peri.read(0xE000));
    peri.write(0xFDFF, 0x34);
    assert_eq!(0x34, peri.read(0xDDFF));
    peri.write(0xE123, 0x56);
    assert_eq!(0x56, peri.read(0xC123));
}

#[test]
fn a_write_leaves_the_other_cells() {
    let mut peri = Peripherals::new(Bootrom::new(vec![0, 0]), cartridge(vec![]));
    peri.write(0xC000, 0x11);
    peri.write(0xC001, 0x22);
    peri.write(0xFF80, 0x33);
    peri.write(0x8000, 0x44);
    peri.write(0xA000, 0x55);
    peri.write(0xFE00, 0x66);
    peri.write(0xFF40, 0x77);
    assert_eq!(0x11, peri.read(0xC000));
    assert_eq!(0x22, peri.read(0xC001));
    assert_eq!(0x33, peri.read(0xFF80));
    assert_eq!(0x44, peri.read(0x8000));
    assert_eq!(0x55, peri.read(0xA000));
    assert_eq!(0x66, peri.read(0xFE00));
    assert_eq!(0x77, peri.read(0xFF40));
    assert_eq!(0x00, peri.read(0xFF81));
}

#[test]
fn unmapped_addresses_read_ff_and_drop_writes() {
    let mut peri = Peripherals::new(Bootrom::new(vec![0, 0]), cartridge(vec![]));
    for addr in [0xFEA0u16, 0xFEFF, 0xFF00, 0xFF0E, 0xFF10, 0xFF3F, 0xFF4C, 0xFF50, 0xFF7F] {
        assert_eq!(0xFF, peri.read(addr));
        peri.write(addr, 0x00);
        assert_eq!(0xFF, peri.read(addr));
    }
}

#[test]
fn interrupt_registers_keep_five_bits() {
    let mut peri = Peripherals::new(Bootrom::new(vec![0, 0]), cartridge(vec![]));
    assert_eq!(0, peri.read(0xFF0F));
    assert_eq!(0, peri.read(0xFFFF));
    peri.write(0xFF0F, 0xFF);
    peri.write(0xFFFF, 0xE5);
    assert_eq!(0x1F, peri.read(0xFF0F));
    assert_eq!(0x05, peri.read(0xFFFF));
    assert_eq!(0x05, peri.interrupts.get_interrupt());
}

#[test]
fn a_request_shows_in_the_pending_flags() {
    let mut peri = Peripherals::new(Bootrom::new(vec![0, 0]), cartridge(vec![]));
    peri.interrupts.request(Source::Timer);
    assert_eq!(0x04, peri.read(0xFF0F));
    peri.interrupts.request(Source::Joypad);
    assert_eq!(0x14, peri.read(0xFF0F));
    peri.interrupts.ack(Source::Timer);
    assert_eq!(0x10, peri.read(0xFF0F));
}
