//! The memory that the picture unit exposes on the bus: video RAM, the
//! object attribute table and the LCD registers, as plain cells.
use vstd::prelude::*;

verus! {

/// Width of the screen in pixels.
pub const LCD_WIDTH: usize = 160;

/// Height of the screen in pixels.
pub const LCD_HEIGHT: usize = 144;

/// Number of bytes of video RAM, at `8000`-`9FFF`.
pub const VRAM_SIZE: usize = 0x2000;

/// Number of bytes of the object attribute table, at `FE00`-`FE9F`.
pub const OAM_SIZE: usize = 0xA0;

/// Number of LCD registers, at `FF40`-`FF4B`.
pub const LCD_REGS: usize = 12;

/// Whether `addr` lies in the video RAM.
pub open spec fn in_vram(addr: u16) -> bool {
    0x8000 <= addr <= 0x9FFF
}

/// Whether `addr` lies in the object attribute table.
pub open spec fn in_oam(addr: u16) -> bool {
    0xFE00 <= addr <= 0xFE9F
}

/// Whether `addr` names an LCD register.
pub open spec fn in_lcd_regs(addr: u16) -> bool {
    0xFF40 <= addr <= 0xFF4B
}

/// What the picture unit holds.
pub struct PpuView {
    pub vram: Seq<u8>,
    pub oam: Seq<u8>,
    pub regs: Seq<u8>,
}

impl PpuView {
    /// Each of the three memories has its length.
    pub open spec fn wf(self) -> bool {
        &&& self.vram.len() == VRAM_SIZE
        &&& self.oam.len() == OAM_SIZE
        &&& self.regs.len() == LCD_REGS
    }

    /// The cell that `addr` names, or `0xFF` outside the three windows.
    pub open spec fn read(self, addr: u16) -> u8 {
        if in_vram(addr) {
            self.vram[addr - 0x8000]
        } else if in_oam(addr) {
            self.oam[addr - 0xFE00]
        } else if in_lcd_regs(addr) {
            self.regs[addr - 0xFF40]
        } else {
            0xFF
        }
    }

    /// A write changes the cell that `addr` names, and nothing outside
    /// the three windows.
    pub open spec fn write(self, addr: u16, val: u8) -> PpuView {
        if in_vram(addr) {
            PpuView { vram: self.vram.update(addr - 0x8000, val), ..self }
        } else if in_oam(addr) {
            PpuView { oam: self.oam.update(addr - 0xFE00, val), ..self }
        } else if in_lcd_regs(addr) {
            PpuView { regs: self.regs.update(addr - 0xFF40, val), ..self }
        } else {
            self
        }
    }
}

/// The memory of the picture unit.
pub struct Ppu {
    vram: Vec<u8>,
    oam: Vec<u8>,
    regs: Vec<u8>,
}

impl View for Ppu {
    type V = PpuView;

    closed spec fn view(&self) -> PpuView {
        PpuView { vram: self.vram@, oam: self.oam@, regs: self.regs@ }
    }
}

impl Ppu {
    /// Each of the three memories has its length.
    #[verifier::type_invariant]
    pub closed spec fn well_formed(self) -> bool {
        &&& self.vram@.len() == VRAM_SIZE
        &&& self.oam@.len() == OAM_SIZE
        &&& self.regs@.len() == LCD_REGS
    }

    /// What a well-formed picture unit holds is well formed.
    pub proof fn lemma_view_wf(self)
        requires
            self.well_formed(),
        ensures
            self@.wf(),
    {
    }

    /// A picture unit with every cell zeroed.
    pub fn new() -> (r: Self)
        ensures
            r@.vram == Seq::new(VRAM_SIZE as nat, |i: int| 0u8),
            r@.oam == Seq::new(OAM_SIZE as nat, |i: int| 0u8),
            r@.regs == Seq::new(LCD_REGS as nat, |i: int| 0u8),
    {
        let r = Self { vram: vec![0; VRAM_SIZE], oam: vec![0; OAM_SIZE], regs: vec![0; LCD_REGS] };
        assert(r.vram@ =~= Seq::new(VRAM_SIZE as nat, |i: int| 0u8));
        assert(r.oam@ =~= Seq::new(OAM_SIZE as nat, |i: int| 0u8));
        assert(r.regs@ =~= Seq::new(LCD_REGS as nat, |i: int| 0u8));
        r
    }

    /// The byte in the cell that `addr` names, or `0xFF` outside the three
    /// windows.
    pub fn read(&self, addr: u16) -> (r: u8)
        ensures
            self@.wf(),
            r == self@.read(addr),
    {
        proof {
            use_type_invariant(self);
        }
        if 0x8000 <= addr && addr <= 0x9FFF {
            self.vram[(addr - 0x8000) as usize]
        } else if 0xFE00 <= addr && addr <= 0xFE9F {
            self.oam[(addr - 0xFE00) as usize]
        } else if 0xFF40 <= addr && addr <= 0xFF4B {
            self.regs[(addr - 0xFF40) as usize]
        } else {
            0xFF
        }
    }

    /// Stores `val` in the cell that `addr` names, if it names one.
    pub fn write(&mut self, addr: u16, val: u8)
        ensures
            old(self)@.wf(),
            final(self)@ == old(self)@.write(addr, val),
    {
        proof {
            use_type_invariant(&*self);
        }
        if 0x8000 <= addr && addr <= 0x9FFF {
            self.vram[(addr - 0x8000) as usize] = val;
        } else if 0xFE00 <= addr && addr <= 0xFE9F {
            self.oam[(addr - 0xFE00) as usize] = val;
        } else if 0xFF40 <= addr && addr <= 0xFF4B {
            self.regs[(addr - 0xFF40) as usize] = val;
        }
    }
}

} // verus!
