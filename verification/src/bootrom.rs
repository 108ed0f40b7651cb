//! The boot ROM and the one-way latch that unmaps it.
use vstd::prelude::*;

verus! {

/// Address of the latch that unmaps the boot ROM.
pub const BOOT_LATCH: u16 = 0xFF50;

/// What a boot ROM holds: its image, and whether it is still mapped.
pub struct BootromView {
    pub rom: Seq<u8>,
    pub active: bool,
}

impl BootromView {
    /// The byte at `addr`, or `0xFF` past the end of the image.
    pub open spec fn read(self, addr: u16) -> u8 {
        if addr < self.rom.len() {
            self.rom[addr as int]
        } else {
            0xFF
        }
    }

    /// A nonzero byte written to the latch unmaps the ROM; nothing else
    /// has any effect.
    pub open spec fn write(self, addr: u16, val: u8) -> BootromView {
        if addr == BOOT_LATCH && val != 0 {
            BootromView { active: false, ..self }
        } else {
            self
        }
    }
}

/// The boot ROM: an image and the latch that maps it.
pub struct Bootrom {
    rom: Vec<u8>,
    active: bool,
}

impl View for Bootrom {
    type V = BootromView;

    closed spec fn view(&self) -> BootromView {
        BootromView { rom: self.rom@, active: self.active }
    }
}

impl Bootrom {
    /// Whether the boot ROM is still mapped.
    pub fn is_active(&self) -> (r: bool)
        ensures
            r == self@.active,
    {
        self.active
    }

    /// A boot ROM holding `rom`, mapped.
    pub fn new(rom: Vec<u8>) -> (r: Self)
        ensures
            r@.rom == rom@,
            r@.active,
    {
        Self { rom, active: true }
    }

    /// The byte of the image at `addr`, or `0xFF` past its end.
    pub fn read(&self, addr: u16) -> (r: u8)
        ensures
            r == self@.read(addr),
    {
        if (addr as usize) < self.rom.len() {
            self.rom[addr as usize]
        } else {
            0xFF
        }
    }

    /// Unmaps the boot ROM when `val` is not zero and `addr` is the latch.
    pub fn write(&mut self, addr: u16, val: u8)
        ensures
            final(self)@ == old(self)@.write(addr, val),
    {
        if addr == BOOT_LATCH && val != 0 {
            self.active = false;
        }
    }
}

} // verus!
