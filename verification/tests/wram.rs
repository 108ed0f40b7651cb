use gbemu_rust::wram::WRam;

#[test]
fn wram_test_readwrite() {
    let mut wram = WRam::new();
    wram.write(0x00, 0x42);
    assert_eq!(0x42, wram.read(0x00));
    println!("{:?}", wram.read(0));
}

#[test]
fn wram_starts_zeroed() {
    let wram = WRam::new();
    assert_eq!(0, wram.read(0xC000));
    assert_eq!(0, wram.read(0xDFFF));
}

#[test]
fn wram_uses_the_low_thirteen_bits() {
    let mut wram = WRam::new();
    wram.write(0xC123, 0x11);
    assert_eq!(0x11, wram.read(0xE123));
    assert_eq!(0x11, wram.read(0x0123));
    assert_eq!(0, wram.read(0xC124));
    wram.write(0xFDFF, 0x22);
    assert_eq!(0x22, wram.read(0xDDFF));
}
