use gbemu_rust::bootrom::Bootrom;

#[test]
fn test_init() {
    let bootrom = Bootrom::new(vec![0; 0x8000]);
    assert_eq!(0, bootrom.read(0x0000))
}

#[test]
fn test_active() {
    let mut bootrom = Bootrom::new(vec![0; 0x8000]);
    bootrom.write(0xFF50, 0x01);
    assert!(!bootrom.is_active())
}

#[test]
fn bootrom_starts_active_and_reads_its_image() {
    let bootrom = Bootrom::new(vec![0x31, 0xFE, 0xFF]);
    assert!(bootrom.is_active());
    assert_eq!(0x31, bootrom.read(0));
    assert_eq!(0xFE, bootrom.read(1));
    assert_eq!(0xFF, bootrom.read(2));
}

#[test]
fn bootrom_reads_ff_past_its_image() {
    let bootrom = Bootrom::new(vec![0x12, 0x34]);
    assert_eq!(0xFF, bootrom.read(2));
    assert_eq!(0xFF, bootrom.read(0xFFFF));
}

#[test]
fn bootrom_zero_to_the_latch_changes_nothing() {
    let mut bootrom = Bootrom::new(vec![0x12, 0x34]);
    bootrom.write(0xFF50, 0x00);
    assert!(bootrom.is_active());
}

#[test]
fn bootrom_latch_is_one_way() {
    let mut bootrom = Bootrom::new(vec![0x12, 0x34]);
    bootrom.write(0xFF50, 0x80);
    assert!(!bootrom.is_active());
    bootrom.write(0xFF50, 0x00);
    assert!(!bootrom.is_active());
    bootrom.write(0xFF50, 0x01);
    assert!(!bootrom.is_active());
}

#[test]
fn bootrom_ignores_writes_elsewhere() {
    let mut bootrom = Bootrom::new(vec![0x12, 0x34]);
    bootrom.write(0x0000, 0x55);
    bootrom.write(0xFF4F, 0x01);
    bootrom.write(0xFF51, 0x01);
    assert!(bootrom.is_active());
    assert_eq!(0x12, bootrom.read(0));
}
