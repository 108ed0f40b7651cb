//! Operands: the places an instruction reads from and writes to, and the
//! machine cycles that each access costs.
//!
//! An access that needs the bus does not finish at once. It returns `None`
//! and records its progress; called again in the next machine cycle it
//! goes on, and returns `Some` when it is complete. At most one bus access
//! happens per call.
use vstd::prelude::*;
use crate::cpu::{Cpu, Ctx, Latch, Processor};
use crate::peripherals::{BusView, Peripherals};
use crate::register::{word, Registres};

verus! {

/// The seven 8-bit registers that an instruction can name.
#[derive(Clone, Copy, Debug)]
pub enum Reg8 {
    A,
    B,
    C,
    D,
    E,
    H,
    L,
}

/// The four register pairs and the stack pointer.
#[derive(Clone, Copy, Debug)]
pub enum Reg16 {
    AF,
    BC,
    DE,
    HL,
    SP,
}

/// The byte at PC.
#[derive(Clone, Copy, Debug)]
pub struct Imm8;

/// The little-endian word at PC.
#[derive(Clone, Copy, Debug)]
pub struct Imm16;

/// The byte at an address held in registers: in BC, DE or HL, at
/// `FF00 + C`, or in HL with HL decremented or incremented by the access.
#[derive(Clone, Copy, Debug)]
pub enum Indirect {
    BC,
    DE,
    HL,
    CFF,
    HLD,
    HLI,
}

/// The byte at an address that follows the opcode: a full word (`D`), or
/// one byte that selects a cell of the page at `FF00` (`DFF`).
#[derive(Clone, Copy, Debug)]
pub enum Direct8 {
    D,
    DFF,
}

/// The word at the address that follows the opcode. It can only be
/// written.
#[derive(Clone, Copy, Debug)]
pub struct Direct16;

/// The four conditions on the flags: Z clear, Z set, C clear, C set.
#[derive(Clone, Copy, Debug)]
pub enum Cond {
    NZ,
    Z,
    NC,
    C,
}

/// An 8-bit operand of any kind.
pub enum Operand8 {
    Reg(Reg8),
    Imm,
    Ind(Indirect),
    Dir(Direct8),
}

/// A 16-bit operand of any kind.
pub enum Operand16 {
    Reg(Reg16),
    Imm,
    Dir,
}

impl Operand8 {
    /// Every kind but the immediate can be written.
    pub open spec fn writable(self) -> bool {
        !(self is Imm)
    }
}

impl Operand16 {
    /// Every kind but the direct word can be read.
    pub open spec fn readable(self) -> bool {
        !(self is Dir)
    }

    /// Every kind but the immediate can be written.
    pub open spec fn writable(self) -> bool {
        !(self is Imm)
    }
}

impl Registres {
    /// What the register `r` holds.
    pub open spec fn reg8(self, r: Reg8) -> u8 {
        match r {
            Reg8::A => self.a,
            Reg8::B => self.b,
            Reg8::C => self.c,
            Reg8::D => self.d,
            Reg8::E => self.e,
            Reg8::H => self.h,
            Reg8::L => self.l,
        }
    }

    /// The registers after `val` is stored in `r`.
    pub open spec fn with_reg8(self, r: Reg8, val: u8) -> Registres {
        match r {
            Reg8::A => Registres { a: val, ..self },
            Reg8::B => Registres { b: val, ..self },
            Reg8::C => Registres { c: val, ..self },
            Reg8::D => Registres { d: val, ..self },
            Reg8::E => Registres { e: val, ..self },
            Reg8::H => Registres { h: val, ..self },
            Reg8::L => Registres { l: val, ..self },
        }
    }

    /// What the register pair `r` holds.
    pub open spec fn reg16(self, r: Reg16) -> u16 {
        match r {
            Reg16::AF => self.af(),
            Reg16::BC => self.bc(),
            Reg16::DE => self.de(),
            Reg16::HL => self.hl(),
            Reg16::SP => self.sp,
        }
    }

    /// The registers after `val` is stored in `r`; AF takes it without its
    /// low nibble.
    pub open spec fn with_reg16(self, r: Reg16, val: u16) -> Registres {
        match r {
            Reg16::AF => self.with_af(val),
            Reg16::BC => self.with_bc(val),
            Reg16::DE => self.with_de(val),
            Reg16::HL => self.with_hl(val),
            Reg16::SP => Registres { sp: val, ..self },
        }
    }

    /// The address that an indirect operand names.
    pub open spec fn indirect_addr(self, at: Indirect) -> u16 {
        match at {
            Indirect::BC => self.bc(),
            Indirect::DE => self.de(),
            Indirect::CFF => word(0xFF, self.c),
            Indirect::HL | Indirect::HLD | Indirect::HLI => self.hl(),
        }
    }

    /// The registers after an access through an indirect operand.
    pub open spec fn after_indirect(self, at: Indirect) -> Registres {
        match at {
            Indirect::HLD => self.with_hl(self.hl().wrapping_sub(1)),
            Indirect::HLI => self.with_hl(self.hl().wrapping_add(1)),
            _ => self,
        }
    }
}

impl Cpu {
    /// The processor with its registers replaced.
    pub open spec fn with_regs(self, regs: Registres) -> Cpu {
        Cpu { regs, ..self }
    }

    /// The processor with the instruction's own progress replaced.
    pub open spec fn at_step(self, step: u8) -> Cpu {
        Cpu { ctx: Ctx { step, ..self.ctx }, ..self }
    }

    /// The processor with the instruction's own byte replaced.
    pub open spec fn holding8(self, val8: u8) -> Cpu {
        Cpu { ctx: Ctx { val8, ..self.ctx }, ..self }
    }

    /// The processor with the instruction's own word replaced.
    pub open spec fn holding16(self, val16: u16) -> Cpu {
        Cpu { ctx: Ctx { val16, ..self.ctx }, ..self }
    }

    /// The processor with the progress of the operand access replaced.
    pub open spec fn with_operand(self, operand: Latch) -> Cpu {
        Cpu { ctx: Ctx { operand, ..self.ctx }, ..self }
    }

    /// The processor with the step of the operand access replaced.
    pub open spec fn operand_at(self, step: u8) -> Cpu {
        self.with_operand(Latch { step, ..self.ctx.operand })
    }

    /// The processor with the progress of the immediate fetch replaced.
    pub open spec fn with_immediate(self, immediate: Latch) -> Cpu {
        Cpu { ctx: Ctx { immediate, ..self.ctx }, ..self }
    }
}

/// One call of the read of the byte at PC. The first call reads the byte
/// and moves PC; the second hands the byte out.
pub open spec fn read_imm8(cpu: Cpu, bus: BusView) -> (Cpu, Option<u8>) {
    if cpu.ctx.immediate.step == 0 {
        (
            cpu.with_regs(Registres { pc: cpu.regs.pc.wrapping_add(1), ..cpu.regs }).with_immediate(
                Latch { step: 1, val8: bus.read(cpu.regs.pc), ..cpu.ctx.immediate },
            ),
            None,
        )
    } else {
        (cpu.with_immediate(Latch { step: 0, ..cpu.ctx.immediate }), Some(cpu.ctx.immediate.val8))
    }
}

/// The part that every access through an address after the opcode begins
/// with: the low byte of the address, then, for a full word, the high
/// byte. The operand latch stands at step 2 with the address in `val16`
/// once the address is complete.
pub open spec fn read_address(cpu: Cpu, bus: BusView, page: bool) -> Cpu {
    let c0 = if cpu.ctx.operand.step == 0 {
        let (c, r) = read_imm8(cpu, bus);
        match r {
            Some(lo) => if page {
                c.with_operand(Latch { step: 2, val8: lo, val16: word(0xFF, lo) })
            } else {
                c.with_operand(Latch { step: 1, val8: lo, ..c.ctx.operand })
            },
            None => c,
        }
    } else {
        cpu
    };
    if c0.ctx.operand.step == 1 {
        let (c, r) = read_imm8(c0, bus);
        match r {
            Some(hi) => c.with_operand(
                Latch { step: 2, val16: word(hi, c.ctx.operand.val8), ..c.ctx.operand },
            ),
            None => c,
        }
    } else {
        c0
    }
}

/// One call of the read of the word at PC, low byte first.
pub open spec fn read_imm16(cpu: Cpu, bus: BusView) -> (Cpu, Option<u16>) {
    let c = read_address(cpu, bus, false);
    if c.ctx.operand.step == 2 {
        (c.operand_at(0), Some(c.ctx.operand.val16))
    } else {
        (c, None)
    }
}

/// One call of a read through an indirect operand.
pub open spec fn read_indirect(cpu: Cpu, bus: BusView, at: Indirect) -> (Cpu, Option<u8>) {
    if cpu.ctx.operand.step == 0 {
        (
            cpu.with_regs(cpu.regs.after_indirect(at)).with_operand(
                Latch { step: 1, val8: bus.read(cpu.regs.indirect_addr(at)), ..cpu.ctx.operand },
            ),
            None,
        )
    } else {
        (cpu.operand_at(0), Some(cpu.ctx.operand.val8))
    }
}

/// One call of a read through the address after the opcode.
pub open spec fn read_direct(cpu: Cpu, bus: BusView, at: Direct8) -> (Cpu, Option<u8>) {
    let c = read_address(cpu, bus, at is DFF);
    if c.ctx.operand.step == 2 {
        (c.with_operand(Latch { step: 3, val8: bus.read(c.ctx.operand.val16), ..c.ctx.operand }), None)
    } else if c.ctx.operand.step == 3 {
        (c.operand_at(0), Some(c.ctx.operand.val8))
    } else {
        (c, None)
    }
}

/// One call of the read of an 8-bit operand: the processor afterwards,
/// and the value once the read is complete.
#[verifier::opaque]
pub open spec fn read8_model(cpu: Cpu, bus: BusView, src: Operand8) -> (Cpu, Option<u8>) {
    match src {
        Operand8::Reg(r) => (cpu, Some(cpu.regs.reg8(r))),
        Operand8::Imm => read_imm8(cpu, bus),
        Operand8::Ind(at) => read_indirect(cpu, bus, at),
        Operand8::Dir(at) => read_direct(cpu, bus, at),
    }
}

/// One call of a write through an indirect operand.
pub open spec fn write_indirect(cpu: Cpu, bus: BusView, at: Indirect, val: u8) -> (
    Cpu,
    BusView,
    bool,
) {
    if cpu.ctx.operand.step == 0 {
        (
            cpu.with_regs(cpu.regs.after_indirect(at)).operand_at(1),
            bus.write(cpu.regs.indirect_addr(at), val),
            false,
        )
    } else {
        (cpu.operand_at(0), bus, true)
    }
}

/// One call of a write through the address after the opcode.
pub open spec fn write_direct(cpu: Cpu, bus: BusView, at: Direct8, val: u8) -> (
    Cpu,
    BusView,
    bool,
) {
    let c = read_address(cpu, bus, at is DFF);
    if c.ctx.operand.step == 2 {
        (c.operand_at(3), bus.write(c.ctx.operand.val16, val), false)
    } else if c.ctx.operand.step == 3 {
        (c.operand_at(0), bus, true)
    } else {
        (c, bus, false)
    }
}

/// One call of the write of an 8-bit operand: the processor and the bus
/// afterwards, and whether the write is complete.
#[verifier::opaque]
pub open spec fn write8_model(cpu: Cpu, bus: BusView, dst: Operand8, val: u8) -> (
    Cpu,
    BusView,
    bool,
) {
    match dst {
        Operand8::Reg(r) => (cpu.with_regs(cpu.regs.with_reg8(r, val)), bus, true),
        Operand8::Imm => (cpu, bus, false),
        Operand8::Ind(at) => write_indirect(cpu, bus, at, val),
        Operand8::Dir(at) => write_direct(cpu, bus, at, val),
    }
}

/// One call of the read of a 16-bit operand.
#[verifier::opaque]
pub open spec fn read16_model(cpu: Cpu, bus: BusView, src: Operand16) -> (Cpu, Option<u16>) {
    match src {
        Operand16::Reg(r) => (cpu, Some(cpu.regs.reg16(r))),
        Operand16::Imm => read_imm16(cpu, bus),
        Operand16::Dir => (cpu, None),
    }
}

/// One call of the write of a word to the address after the opcode: the
/// low byte goes to the address, the high byte to the one above.
pub open spec fn write_direct16(cpu: Cpu, bus: BusView, val: u16) -> (Cpu, BusView, bool) {
    let c = read_address(cpu, bus, false);
    if c.ctx.operand.step == 2 {
        (c.operand_at(3), bus.write(c.ctx.operand.val16, (val % 256) as u8), false)
    } else if c.ctx.operand.step == 3 {
        (c.operand_at(4), bus.write(c.ctx.operand.val16.wrapping_add(1), (val / 256) as u8), false)
    } else if c.ctx.operand.step == 4 {
        (c.operand_at(0), bus, true)
    } else {
        (c, bus, false)
    }
}

/// One call of the write of a 16-bit operand.
#[verifier::opaque]
pub open spec fn write16_model(cpu: Cpu, bus: BusView, dst: Operand16, val: u16) -> (
    Cpu,
    BusView,
    bool,
) {
    match dst {
        Operand16::Reg(r) => (cpu.with_regs(cpu.regs.with_reg16(r, val)), bus, true),
        Operand16::Imm => (cpu, bus, false),
        Operand16::Dir => write_direct16(cpu, bus, val),
    }
}

/// Reading and writing a byte through an operand of type `T`.
pub trait IO8<T: Copy>: Processor {
    /// The kind of operand that `at` is.
    spec fn operand8(at: T) -> Operand8;

    fn read8(&mut self, bus: &Peripherals, src: T) -> (r: Option<u8>)
        ensures
            (final(self).state(), r) == read8_model(old(self).state(), bus@, Self::operand8(src)),
    ;

    fn write8(&mut self, bus: &mut Peripherals, dst: T, val: u8) -> (r: Option<()>)
        requires
            Self::operand8(dst).writable(),
        ensures
            (final(self).state(), final(bus)@, r.is_some()) == write8_model(
                old(self).state(),
                old(bus)@,
                Self::operand8(dst),
                val,
            ),
    ;
}

/// Reading and writing a word through an operand of type `T`.
pub trait IO16<T: Copy>: Processor {
    /// The kind of operand that `at` is.
    spec fn operand16(at: T) -> Operand16;

    fn read16(&mut self, bus: &Peripherals, src: T) -> (r: Option<u16>)
        requires
            Self::operand16(src).readable(),
        ensures
            (final(self).state(), r) == read16_model(old(self).state(), bus@, Self::operand16(src)),
    ;

    fn write16(&mut self, bus: &mut Peripherals, dst: T, val: u16) -> (r: Option<()>)
        requires
            Self::operand16(dst).writable(),
        ensures
            (final(self).state(), final(bus)@, r.is_some()) == write16_model(
                old(self).state(),
                old(bus)@,
                Self::operand16(dst),
                val,
            ),
    ;
}

impl IO8<Reg8> for Cpu {
    open spec fn operand8(at: Reg8) -> Operand8 {
        Operand8::Reg(at)
    }

    fn read8(&mut self, _bus: &Peripherals, src: Reg8) -> (r: Option<u8>) {
        proof {
            reveal(read8_model);
        }
        Some(
            match src {
                Reg8::A => self.regs.a,
                Reg8::B => self.regs.b,
                Reg8::C => self.regs.c,
                Reg8::D => self.regs.d,
                Reg8::E => self.regs.e,
                Reg8::H => self.regs.h,
                Reg8::L => self.regs.l,
            },
        )
    }

    fn write8(&mut self, _bus: &mut Peripherals, dst: Reg8, val: u8) -> (r: Option<()>) {
        proof {
            reveal(write8_model);
        }
        match dst {
            Reg8::A => self.regs.a = val,
            Reg8::B => self.regs.b = val,
            Reg8::C => self.regs.c = val,
            Reg8::D => self.regs.d = val,
            Reg8::E => self.regs.e = val,
            Reg8::H => self.regs.h = val,
            Reg8::L => self.regs.l = val,
        }
        Some(())
    }
}

impl IO16<Reg16> for Cpu {
    open spec fn operand16(at: Reg16) -> Operand16 {
        Operand16::Reg(at)
    }

    fn read16(&mut self, _bus: &Peripherals, src: Reg16) -> (r: Option<u16>) {
        proof {
            reveal(read16_model);
        }
        Some(
            match src {
                Reg16::AF => self.regs.af(),
                Reg16::BC => self.regs.bc(),
                Reg16::DE => self.regs.de(),
                Reg16::HL => self.regs.hl(),
                Reg16::SP => self.regs.sp,
            },
        )
    }

    fn write16(&mut self, _bus: &mut Peripherals, dst: Reg16, val: u16) -> (r: Option<()>) {
        proof {
            reveal(write16_model);
        }
        match dst {
            Reg16::AF => self.regs.write_af(val),
            Reg16::BC => self.regs.write_bc(val),
            Reg16::DE => self.regs.write_de(val),
            Reg16::HL => self.regs.write_hl(val),
            Reg16::SP => self.regs.sp = val,
        }
        Some(())
    }
}

impl IO8<Imm8> for Cpu {
    open spec fn operand8(at: Imm8) -> Operand8 {
        Operand8::Imm
    }

    fn read8(&mut self, bus: &Peripherals, _src: Imm8) -> (r: Option<u8>) {
        proof {
            reveal(read8_model);
        }
        if self.ctx.immediate.step == 0 {
            self.ctx.immediate.val8 = bus.read(self.regs.pc);
            self.regs.pc = self.regs.pc.wrapping_add(1);
            self.ctx.immediate.step = 1;
            None
        } else {
            self.ctx.immediate.step = 0;
            Some(self.ctx.immediate.val8)
        }
    }

    /// An immediate is never written: the contract admits no call.
    fn write8(&mut self, _bus: &mut Peripherals, _dst: Imm8, _val: u8) -> (r: Option<()>) {
        proof {
            reveal(write8_model);
        }
        None
    }
}

impl Cpu {
    /// One call of the reading of the address that follows the opcode.
    fn read_address(&mut self, bus: &Peripherals, page: bool)
        ensures
            *final(self) == read_address(*old(self), bus@, page),
    {
        proof {
            reveal(read8_model);
        }
        if self.ctx.operand.step == 0 {
            if let Some(lo) = self.read8(bus, Imm8) {
                self.ctx.operand.val8 = lo;
                self.ctx.operand.step = 1;
                if page {
                    self.ctx.operand.val16 = 0xFF00 + (lo as u16);
                    self.ctx.operand.step = 2;
                }
            }
        }
        if self.ctx.operand.step == 1 {
            if let Some(hi) = self.read8(bus, Imm8) {
                self.ctx.operand.val16 = (hi as u16) * 256 + (self.ctx.operand.val8 as u16);
                self.ctx.operand.step = 2;
            }
        }
    }
}

impl IO16<Imm16> for Cpu {
    open spec fn operand16(at: Imm16) -> Operand16 {
        Operand16::Imm
    }

    fn read16(&mut self, bus: &Peripherals, _src: Imm16) -> (r: Option<u16>) {
        proof {
            reveal(read16_model);
        }
        self.read_address(bus, false);
        if self.ctx.operand.step == 2 {
            self.ctx.operand.step = 0;
            Some(self.ctx.operand.val16)
        } else {
            None
        }
    }

    /// An immediate is never written: the contract admits no call.
    fn write16(&mut self, _bus: &mut Peripherals, _dst: Imm16, _val: u16) -> (r: Option<()>) {
        proof {
            reveal(write16_model);
        }
        None
    }
}

impl IO8<Indirect> for Cpu {
    open spec fn operand8(at: Indirect) -> Operand8 {
        Operand8::Ind(at)
    }

    fn read8(&mut self, bus: &Peripherals, src: Indirect) -> (r: Option<u8>) {
        proof {
            reveal(read8_model);
        }
        if self.ctx.operand.step == 0 {
            let addr: u16 = self.indirect(src);
            self.ctx.operand.val8 = bus.read(addr);
            self.ctx.operand.step = 1;
            None
        } else {
            self.ctx.operand.step = 0;
            Some(self.ctx.operand.val8)
        }
    }

    fn write8(&mut self, bus: &mut Peripherals, dst: Indirect, val: u8) -> (r: Option<()>) {
        proof {
            reveal(write8_model);
        }
        if self.ctx.operand.step == 0 {
            let addr: u16 = self.indirect(dst);
            bus.write(addr, val);
            self.ctx.operand.step = 1;
            None
        } else {
            self.ctx.operand.step = 0;
            Some(())
        }
    }
}

impl Cpu {
    /// The address that `at` names; HL moves where `at` says so.
    fn indirect(&mut self, at: Indirect) -> (addr: u16)
        ensures
            addr == old(self).regs.indirect_addr(at),
            *final(self) == old(self).with_regs(old(self).regs.after_indirect(at)),
    {
        match at {
            Indirect::BC => self.regs.bc(),
            Indirect::DE => self.regs.de(),
            Indirect::HL => self.regs.hl(),
            Indirect::CFF => 0xFF00 + (self.regs.c as u16),
            Indirect::HLD => {
                let addr: u16 = self.regs.hl();
                self.regs.write_hl(addr.wrapping_sub(1));
                addr
            },
            Indirect::HLI => {
                let addr: u16 = self.regs.hl();
                self.regs.write_hl(addr.wrapping_add(1));
                addr
            },
        }
    }
}

impl IO8<Direct8> for Cpu {
    open spec fn operand8(at: Direct8) -> Operand8 {
        Operand8::Dir(at)
    }

    fn read8(&mut self, bus: &Peripherals, src: Direct8) -> (r: Option<u8>) {
        proof {
            reveal(read8_model);
        }
        self.read_address(bus, matches!(src, Direct8::DFF));
        if self.ctx.operand.step == 2 {
            self.ctx.operand.val8 = bus.read(self.ctx.operand.val16);
            self.ctx.operand.step = 3;
            None
        } else if self.ctx.operand.step == 3 {
            self.ctx.operand.step = 0;
            Some(self.ctx.operand.val8)
        } else {
            None
        }
    }

    fn write8(&mut self, bus: &mut Peripherals, dst: Direct8, val: u8) -> (r: Option<()>) {
        proof {
            reveal(write8_model);
        }
        self.read_address(bus, matches!(dst, Direct8::DFF));
        if self.ctx.operand.step == 2 {
            bus.write(self.ctx.operand.val16, val);
            self.ctx.operand.step = 3;
            None
        } else if self.ctx.operand.step == 3 {
            self.ctx.operand.step = 0;
            Some(())
        } else {
            None
        }
    }
}

impl IO16<Direct16> for Cpu {
    open spec fn operand16(at: Direct16) -> Operand16 {
        Operand16::Dir
    }

    /// A direct word is never read: the contract admits no call.
    fn read16(&mut self, _bus: &Peripherals, _src: Direct16) -> (r: Option<u16>) {
        proof {
            reveal(read16_model);
        }
        None
    }

    fn write16(&mut self, bus: &mut Peripherals, _dst: Direct16, val: u16) -> (r: Option<()>) {
        proof {
            reveal(write16_model);
        }
        self.read_address(bus, false);
        if self.ctx.operand.step == 2 {
            bus.write(self.ctx.operand.val16, (val % 256) as u8);
            self.ctx.operand.step = 3;
            None
        } else if self.ctx.operand.step == 3 {
            bus.write(self.ctx.operand.val16.wrapping_add(1), (val / 256) as u8);
            self.ctx.operand.step = 4;
            None
        } else if self.ctx.operand.step == 4 {
            self.ctx.operand.step = 0;
            Some(())
        } else {
            None
        }
    }
}

} // verus!
