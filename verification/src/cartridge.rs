//! A cartridge without a bank controller: a read-only image in the lower
//! half of the address space and 8 KiB of external RAM at `A000`-`BFFF`.
use vstd::prelude::*;

verus! {

/// Number of bytes of external RAM.
pub const EXTERNAL_RAM_SIZE: usize = 0x2000;

/// Whether `addr` lies in the window of the external RAM.
pub open spec fn in_external_ram(addr: u16) -> bool {
    0xA000 <= addr <= 0xBFFF
}

/// What a cartridge holds.
pub struct CartridgeView {
    pub rom: Seq<u8>,
    pub ram: Seq<u8>,
}

impl CartridgeView {
    /// The external RAM has its length.
    pub open spec fn wf(self) -> bool {
        self.ram.len() == EXTERNAL_RAM_SIZE
    }

    /// The image below `8000` (`0xFF` past its end), the external RAM in
    /// its window, `0xFF` elsewhere.
    pub open spec fn read(self, addr: u16) -> u8 {
        if addr < 0x8000 {
            if addr < self.rom.len() {
                self.rom[addr as int]
            } else {
                0xFF
            }
        } else if in_external_ram(addr) {
            self.ram[addr - 0xA000]
        } else {
            0xFF
        }
    }

    /// Only the external RAM takes writes.
    pub open spec fn write(self, addr: u16, val: u8) -> CartridgeView {
        if in_external_ram(addr) {
            CartridgeView { ram: self.ram.update(addr - 0xA000, val), ..self }
        } else {
            self
        }
    }
}

/// The cartridge: its image and its external RAM.
pub struct Cartridge {
    rom: Vec<u8>,
    ram: Vec<u8>,
}

impl View for Cartridge {
    type V = CartridgeView;

    closed spec fn view(&self) -> CartridgeView {
        CartridgeView { rom: self.rom@, ram: self.ram@ }
    }
}

impl Cartridge {
    /// The external RAM has its length.
    #[verifier::type_invariant]
    pub closed spec fn well_formed(self) -> bool {
        self.ram@.len() == EXTERNAL_RAM_SIZE
    }

    /// What a well-formed cartridge holds is well formed.
    pub proof fn lemma_view_wf(self)
        requires
            self.well_formed(),
        ensures
            self@.wf(),
    {
    }

    /// A cartridge holding the image `rom`, its external RAM zeroed.
    pub fn new(rom: Box<[u8]>) -> (r: Self)
        ensures
            r@.rom == rom@,
            r@.ram == Seq::new(EXTERNAL_RAM_SIZE as nat, |i: int| 0u8),
    {
        let r = Self { rom: rom.into_vec(), ram: vec![0; EXTERNAL_RAM_SIZE] };
        assert(r.ram@ =~= Seq::new(EXTERNAL_RAM_SIZE as nat, |i: int| 0u8));
        r
    }

    /// The byte that the cartridge shows at `addr`.
    pub fn read(&self, addr: u16) -> (r: u8)
        ensures
            self@.wf(),
            r == self@.read(addr),
    {
        proof {
            use_type_invariant(self);
        }
        if addr < 0x8000 {
            if (addr as usize) < self.rom.len() {
                self.rom[addr as usize]
            } else {
                0xFF
            }
        } else if 0xA000 <= addr && addr <= 0xBFFF {
            self.ram[(addr - 0xA000) as usize]
        } else {
            0xFF
        }
    }

    /// Stores `val` at `addr` if `addr` lies in the external RAM.
    pub fn write(&mut self, addr: u16, val: u8)
        ensures
            old(self)@.wf(),
            final(self)@ == old(self)@.write(addr, val),
    {
        proof {
            use_type_invariant(&*self);
        }
        if 0xA000 <= addr && addr <= 0xBFFF {
            self.ram[(addr - 0xA000) as usize] = val;
        }
    }
}

} // verus!
