use gbemu_rust::interrupts::{Interrupts, Source};

#[test]
fn controller_starts_quiet() {
    let irq = Interrupts::new();
    assert!(!irq.ime());
    assert_eq!(0, irq.read(0xFF0F));
    assert_eq!(0, irq.read(0xFFFF));
    assert_eq!(None, irq.highest_pending());
}

#[test]
fn masks_and_vectors_follow_the_priority_order() {
    let sources =
        [Source::VBlank, Source::LcdStat, Source::Timer, Source::Serial, Source::Joypad];
    let masks = [0x01u8, 0x02, 0x04, 0x08, 0x10];
    let vectors = [0x0040u16, 0x0048, 0x0050, 0x0058, 0x0060];
    for i in 0..5 {
        assert_eq!(masks[i], sources[i].mask());
        assert_eq!(vectors[i], sources[i].vector());
    }
}

#[test]
fn highest_pending_is_the_lowest_enabled_pending_bit() {
    let mut irq = Interrupts::new();
    irq.write(0xFFFF, 0x1F);
    irq.request(Source::Joypad);
    assert_eq!(Some(Source::Joypad), irq.highest_pending());
    irq.request(Source::Serial);
    assert_eq!(Some(Source::Serial), irq.highest_pending());
    irq.request(Source::Timer);
    assert_eq!(Some(Source::Timer), irq.highest_pending());
    irq.request(Source::LcdStat);
    assert_eq!(Some(Source::LcdStat), irq.highest_pending());
    irq.request(Source::VBlank);
    assert_eq!(Some(Source::VBlank), irq.highest_pending());
    assert_eq!(0x1F, irq.read(0xFF0F));
}

#[test]
fn a_source_that_is_not_enabled_is_not_pending() {
    let mut irq = Interrupts::new();
    irq.write(0xFFFF, 0x04);
    irq.request(Source::VBlank);
    assert_eq!(None, irq.highest_pending());
    assert_eq!(0, irq.get_interrupt());
    irq.request(Source::Timer);
    assert_eq!(Some(Source::Timer), irq.highest_pending());
    assert_eq!(0x04, irq.get_interrupt());
}

#[test]
fn ack_clears_one_source() {
    let mut irq = Interrupts::new();
    irq.write(0xFFFF, 0x1F);
    irq.write(0xFF0F, 0x1F);
    irq.ack(Source::VBlank);
    assert_eq!(0x1E, irq.read(0xFF0F));
    assert_eq!(Some(Source::LcdStat), irq.highest_pending());
    irq.ack(Source::VBlank);
    assert_eq!(0x1E, irq.read(0xFF0F));
    irq.ack(Source::Serial);
    assert_eq!(0x16, irq.read(0xFF0F));
}

#[test]
fn request_is_idempotent() {
    let mut irq = Interrupts::new();
    irq.request(Source::Serial);
    irq.request(Source::Serial);
    assert_eq!(0x08, irq.read(0xFF0F));
}

#[test]
fn only_five_bits_are_stored() {
    let mut irq = Interrupts::new();
    irq.write(0xFF0F, 0xE0);
    irq.write(0xFFFF, 0xFF);
    assert_eq!(0x00, irq.read(0xFF0F));
    assert_eq!(0x1F, irq.read(0xFFFF));
    irq.write(0xFF0F, 0xA3);
    assert_eq!(0x03, irq.read(0xFF0F));
}

#[test]
fn other_addresses_are_not_registers() {
    let mut irq = Interrupts::new();
    irq.write(0xFF0E, 0x1F);
    irq.write(0xFFFE, 0x1F);
    assert_eq!(0, irq.read(0xFF0F));
    assert_eq!(0, irq.read(0xFFFF));
    assert_eq!(0xFF, irq.read(0xFF0E));
}

#[test]
fn master_enable_is_set_and_cleared() {
    let mut irq = Interrupts::new();
    irq.set_ime(true);
    assert!(irq.ime());
    irq.set_ime(false);
    assert!(!irq.ime());
}
