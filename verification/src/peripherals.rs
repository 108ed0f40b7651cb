//! The bus: every read and write of the processor is decoded here and
//! handed to the device that owns the address.
use vstd::prelude::*;
use crate::bootrom::{Bootrom, BootromView, BOOT_LATCH};
use crate::cartridge::{in_external_ram, Cartridge, CartridgeView};
use crate::hram::{hram_offset, HRam, HRAM_SIZE};
use crate::interrupts::{Interrupts, IrqView, IE_ADDR, IF_ADDR};
use crate::ppu::{in_lcd_regs, in_oam, in_vram, Ppu, PpuView};
use crate::wram::{wram_offset, WRam, WRAM_SIZE};

verus! {

/// Whether `addr` reaches the work RAM (`C000`-`FDFF`, the upper part an
/// echo of the lower).
pub open spec fn in_wram(addr: u16) -> bool {
    0xC000 <= addr <= 0xFDFF
}

/// Whether `addr` reaches the high RAM.
pub open spec fn in_hram(addr: u16) -> bool {
    0xFF80 <= addr <= 0xFFFE
}

/// Whether `addr` lies where the boot ROM is mapped while it is active.
pub open spec fn in_boot_window(addr: u16) -> bool {
    addr <= 0x00FF
}

/// Whether `addr` names a cell that keeps the byte last written to it.
pub open spec fn holds_writes(addr: u16) -> bool {
    ||| in_vram(addr)
    ||| in_external_ram(addr)
    ||| in_wram(addr)
    ||| in_oam(addr)
    ||| in_lcd_regs(addr)
    ||| in_hram(addr)
}

/// Whether `a` and `b` name the same cell: the same address, or two
/// work RAM addresses that differ by the length of the work RAM.
pub open spec fn same_cell(a: u16, b: u16) -> bool {
    a == b || (in_wram(a) && in_wram(b) && wram_offset(a) == wram_offset(b))
}

/// Everything that can be observed through the bus.
pub struct BusView {
    pub boot: BootromView,
    pub cart: CartridgeView,
    pub wram: Seq<u8>,
    pub hram: Seq<u8>,
    pub ppu: PpuView,
    pub irq: IrqView,
}

impl BusView {
    /// Every memory has its fixed length and the interrupt registers hold
    /// five bits each.
    pub open spec fn wf(self) -> bool {
        &&& self.cart.wf()
        &&& self.wram.len() == WRAM_SIZE
        &&& self.hram.len() == HRAM_SIZE
        &&& self.ppu.wf()
        &&& self.irq.wf()
    }

    /// The byte that a read of `addr` returns.
    pub open spec fn read(self, addr: u16) -> u8 {
        if in_boot_window(addr) {
            if self.boot.active {
                self.boot.read(addr)
            } else {
                self.cart.read(addr)
            }
        } else if addr <= 0x7FFF || in_external_ram(addr) {
            self.cart.read(addr)
        } else if in_vram(addr) || in_oam(addr) || in_lcd_regs(addr) {
            self.ppu.read(addr)
        } else if in_wram(addr) {
            self.wram[wram_offset(addr)]
        } else if in_hram(addr) {
            self.hram[hram_offset(addr)]
        } else if addr == IF_ADDR || addr == IE_ADDR {
            self.irq.read(addr)
        } else {
            0xFF
        }
    }

    /// The bus after `val` is written to `addr`.
    pub open spec fn write(self, addr: u16, val: u8) -> BusView {
        if in_boot_window(addr) {
            if self.boot.active {
                self
            } else {
                BusView { cart: self.cart.write(addr, val), ..self }
            }
        } else if addr <= 0x7FFF || in_external_ram(addr) {
            BusView { cart: self.cart.write(addr, val), ..self }
        } else if in_vram(addr) || in_oam(addr) || in_lcd_regs(addr) {
            BusView { ppu: self.ppu.write(addr, val), ..self }
        } else if in_wram(addr) {
            BusView { wram: self.wram.update(wram_offset(addr), val), ..self }
        } else if addr == BOOT_LATCH {
            BusView { boot: self.boot.write(addr, val), ..self }
        } else if in_hram(addr) {
            BusView { hram: self.hram.update(hram_offset(addr), val), ..self }
        } else if addr == IF_ADDR || addr == IE_ADDR {
            BusView { irq: self.irq.write(addr, val), ..self }
        } else {
            self
        }
    }
}

/// The bus and the devices behind it.
pub struct Peripherals {
    pub bootrom: Bootrom,
    pub cartridge: Cartridge,
    pub wram: WRam,
    pub hram: HRam,
    pub ppu: Ppu,
    pub interrupts: Interrupts,
}

impl View for Peripherals {
    type V = BusView;

    open spec fn view(&self) -> BusView {
        BusView {
            boot: self.bootrom@,
            cart: self.cartridge@,
            wram: self.wram@,
            hram: self.hram@,
            ppu: self.ppu@,
            irq: self.interrupts@,
        }
    }
}

impl Peripherals {
    /// What can be observed through a bus is well formed.
    proof fn lemma_view_wf(&self)
        requires
            self.cartridge.well_formed(),
            self.wram.well_formed(),
            self.hram.well_formed(),
            self.ppu.well_formed(),
            self.interrupts.well_formed(),
        ensures
            self@.wf(),
    {
        self.cartridge.lemma_view_wf();
        self.wram.lemma_view_wf();
        self.hram.lemma_view_wf();
        self.ppu.lemma_view_wf();
        self.interrupts.lemma_view_wf();
    }

    /// A bus with the given boot ROM, mapped, and cartridge; every RAM
    /// zeroed, interrupts disabled.
    pub fn new(bootrom: Bootrom, cartridge: Cartridge) -> (r: Self)
        ensures
            r@.boot == bootrom@,
            r@.cart == cartridge@,
            r@.wram == Seq::new(WRAM_SIZE as nat, |i: int| 0u8),
            r@.hram == Seq::new(HRAM_SIZE as nat, |i: int| 0u8),
            r@.ppu.vram == Seq::new(crate::ppu::VRAM_SIZE as nat, |i: int| 0u8),
            r@.ppu.oam == Seq::new(crate::ppu::OAM_SIZE as nat, |i: int| 0u8),
            r@.ppu.regs == Seq::new(crate::ppu::LCD_REGS as nat, |i: int| 0u8),
            r@.irq == (IrqView { ime: false, ie: 0, if_: 0 }),
            r@.wf(),
    {
        let r = Self {
            bootrom,
            cartridge,
            wram: WRam::new(),
            hram: HRam::new(),
            ppu: Ppu::new(),
            interrupts: Interrupts::new(),
        };
        proof {
            use_type_invariant(&r.cartridge);
            use_type_invariant(&r.wram);
            use_type_invariant(&r.hram);
            use_type_invariant(&r.ppu);
            use_type_invariant(&r.interrupts);
            r.lemma_view_wf();
        }
        r
    }

    /// The byte that a read of `addr` returns.
    pub fn read(&self, addr: u16) -> (r: u8)
        ensures
            self@.wf(),
            r == self@.read(addr),
    {
        proof {
            use_type_invariant(&self.cartridge);
            use_type_invariant(&self.wram);
            use_type_invariant(&self.hram);
            use_type_invariant(&self.ppu);
            use_type_invariant(&self.interrupts);
            self.lemma_view_wf();
        }
        match addr {
            0x0000..=0x00FF => if self.bootrom.is_active() {
                self.bootrom.read(addr)
            } else {
                self.cartridge.read(addr)
            },
            0x0100..=0x7FFF => self.cartridge.read(addr),
            0xA000..=0xBFFF => self.cartridge.read(addr),
            0x8000..=0x9FFF => self.ppu.read(addr),
            0xFE00..=0xFE9F => self.ppu.read(addr),
            0xFF40..=0xFF4B => self.ppu.read(addr),
            0xC000..=0xFDFF => self.wram.read(addr),
            0xFF80..=0xFFFE => self.hram.read(addr),
            0xFF0F => self.interrupts.read(addr),
            0xFFFF => self.interrupts.read(addr),
            _ => 0xFF,
        }
    }

    /// Writes `val` to `addr`.
    pub fn write(&mut self, addr: u16, val: u8)
        ensures
            old(self)@.wf(),
            final(self)@ == old(self)@.write(addr, val),
            final(self)@.wf(),
    {
        proof {
            use_type_invariant(&self.cartridge);
            use_type_invariant(&self.wram);
            use_type_invariant(&self.hram);
            use_type_invariant(&self.ppu);
            use_type_invariant(&self.interrupts);
            self.lemma_view_wf();
            lemma_write_keeps_wf(self@, addr, val);
        }
        match addr {
            0x0000..=0x00FF => if !self.bootrom.is_active() {
                self.cartridge.write(addr, val)
            },
            0x0100..=0x7FFF => self.cartridge.write(addr, val),
            0xA000..=0xBFFF => self.cartridge.write(addr, val),
            0x8000..=0x9FFF => self.ppu.write(addr, val),
            0xFE00..=0xFE9F => self.ppu.write(addr, val),
            0xFF40..=0xFF4B => self.ppu.write(addr, val),
            0xC000..=0xFDFF => self.wram.write(addr, val),
            0xFF50 => self.bootrom.write(addr, val),
            0xFF80..=0xFFFE => self.hram.write(addr, val),
            0xFF0F => self.interrupts.write(addr, val),
            0xFFFF => self.interrupts.write(addr, val),
            _ => (),
        }
    }
}

/// A write leaves every memory at its length.
pub proof fn lemma_write_keeps_wf(bus: BusView, addr: u16, val: u8)
    requires
        bus.wf(),
    ensures
        bus.write(addr, val).wf(),
{
}

/// A cell that holds writes returns the byte last written to it, through
/// the address written or through any other address of the same cell.
pub proof fn lemma_read_after_write(bus: BusView, a: u16, b: u16, val: u8)
    requires
        bus.wf(),
        holds_writes(a),
        same_cell(a, b),
    ensures
        bus.write(a, val).read(b) == val,
{
}

/// A write changes no cell but the one written: every other address that
/// holds writes reads as before.
pub proof fn lemma_write_leaves_other_cells(bus: BusView, a: u16, b: u16, val: u8)
    requires
        bus.wf(),
        holds_writes(b),
        !same_cell(a, b),
    ensures
        bus.write(a, val).read(b) == bus.read(b),
{
}

/// Writing zero to the boot latch changes nothing; writing anything else
/// unmaps the boot ROM.
pub proof fn lemma_boot_latch(bus: BusView, val: u8)
    ensures
        bus.write(BOOT_LATCH, 0) == bus,
        val != 0 ==> !bus.write(BOOT_LATCH, val).boot.active,
{
}

/// Once the boot ROM is unmapped, no write maps it again.
pub proof fn lemma_boot_latch_is_one_way(bus: BusView, addr: u16, val: u8)
    requires
        !bus.boot.active,
    ensures
        !bus.write(addr, val).boot.active,
{
}

} // verus!
