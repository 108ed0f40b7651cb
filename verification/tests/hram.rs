use gbemu_rust::hram::HRam;

#[test]
fn hram_test_readwrite() {
    let mut hram = HRam::new();
    hram.write(0x00, 0x42);
    assert_eq!(0x42, hram.read(0x00));
    println!("{:?}", hram.read(0));
}

#[test]
fn hram_starts_zeroed() {
    let hram = HRam::new();
    assert_eq!(0, hram.read(0xFF80));
    assert_eq!(0, hram.read(0xFFFE));
}

#[test]
fn hram_uses_the_low_seven_bits() {
    let mut hram = HRam::new();
    hram.write(0xFF85, 0x11);
    assert_eq!(0x11, hram.read(0x0005));
    assert_eq!(0x11, hram.read(0x0085));
    assert_eq!(0, hram.read(0xFF86));
    hram.write(0xFFFF, 0x22);
    assert_eq!(0x22, hram.read(0x007F));
}
