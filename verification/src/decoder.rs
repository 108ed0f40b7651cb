//! The decoder: which instruction an opcode stands for, and the dispatch
//! of the opcode under way to its routine.
//!
//! An opcode is read as three fields, `x` (bits 7-6), `y` (bits 5-3) and
//! `z` (bits 2-0); `y` splits again into `p` (bits 5-4) and `q` (bit 3).
use vstd::prelude::*;
use crate::alu::{Alu, Modify, Shift};
use crate::cpu::{Cpu, Ctx};
use crate::instruction::{
    add_hl_reg16_model, add_sp_e_model, alu_model, bit_model, call_c_model, call_model, ccf_model,
    cpl_model, daa_model, di_model, ei_model, halt_model, jp_c_model, jp_hl_model, jp_model,
    jr_c_model, jr_model, ld16_model, ld_hl_sp_e_model, ld_model, ld_sp_hl_model, modify_model,
    nop_model, pop_model, push_model, ret_c_model, ret_model, reti_model, rotate_a_model,
    rst_model, scf_model, step16_model,
};
use crate::operand::{
    read8_model, read_imm8, Cond, Direct16, Direct8, Imm16, Imm8, Indirect, Operand16, Operand8, Reg16, Reg8,
    IO8,
};
use crate::peripherals::{BusView, Peripherals};

verus! {

/// An instruction with its operands.
pub enum Instr {
    Nop,
    Stop,
    Halt,
    Di,
    Ei,
    /// The byte `CB`, which announces an opcode of the prefixed table.
    Prefix,
    /// An opcode that stands for no instruction.
    Illegal,
    Ld(Operand8, Operand8),
    Ld16(Operand16, Operand16),
    LdSpHl,
    LdHlSpE,
    Push(Reg16),
    Pop(Reg16),
    Alu(Alu, Operand8),
    Modify(Modify, Operand8),
    Inc16(Reg16),
    Dec16(Reg16),
    AddHl(Reg16),
    AddSpE,
    RotateA(Shift),
    Daa,
    Cpl,
    Scf,
    Ccf,
    Bit(u8, Operand8),
    Jp,
    JpHl,
    JpC(Cond),
    Jr,
    JrC(Cond),
    Call,
    CallC(Cond),
    Ret,
    RetC(Cond),
    Reti,
    Rst(u8),
}

/// The 8-bit operand that a three-bit field selects.
pub open spec fn operand_field(i: int) -> Operand8 {
    if i == 0 {
        Operand8::Reg(Reg8::B)
    } else if i == 1 {
        Operand8::Reg(Reg8::C)
    } else if i == 2 {
        Operand8::Reg(Reg8::D)
    } else if i == 3 {
        Operand8::Reg(Reg8::E)
    } else if i == 4 {
        Operand8::Reg(Reg8::H)
    } else if i == 5 {
        Operand8::Reg(Reg8::L)
    } else if i == 6 {
        Operand8::Ind(Indirect::HL)
    } else {
        Operand8::Reg(Reg8::A)
    }
}

/// The register pair that `p` selects; `stack` says whether the fourth is
/// AF (for PUSH and POP) or SP.
pub open spec fn pair_field(p: int, stack: bool) -> Reg16 {
    if p == 0 {
        Reg16::BC
    } else if p == 1 {
        Reg16::DE
    } else if p == 2 {
        Reg16::HL
    } else if stack {
        Reg16::AF
    } else {
        Reg16::SP
    }
}

/// The condition that a two-bit field selects.
pub open spec fn cond_field(i: int) -> Cond {
    if i == 0 {
        Cond::NZ
    } else if i == 1 {
        Cond::Z
    } else if i == 2 {
        Cond::NC
    } else {
        Cond::C
    }
}

/// The accumulator operation that `y` selects.
pub open spec fn alu_field(y: int) -> Alu {
    if y == 0 {
        Alu::Add
    } else if y == 1 {
        Alu::Adc
    } else if y == 2 {
        Alu::Sub
    } else if y == 3 {
        Alu::Sbc
    } else if y == 4 {
        Alu::And
    } else if y == 5 {
        Alu::Xor
    } else if y == 6 {
        Alu::Or
    } else {
        Alu::Cp
    }
}

/// The rotate or shift that `y` selects.
pub open spec fn shift_field(y: int) -> Shift {
    if y == 0 {
        Shift::Rlc
    } else if y == 1 {
        Shift::Rrc
    } else if y == 2 {
        Shift::Rl
    } else if y == 3 {
        Shift::Rr
    } else if y == 4 {
        Shift::Sla
    } else if y == 5 {
        Shift::Sra
    } else if y == 6 {
        Shift::Swap
    } else {
        Shift::Srl
    }
}

/// The memory operand of the loads between A and memory in the first
/// quarter of the table.
pub open spec fn accumulator_field(p: int) -> Operand8 {
    if p == 0 {
        Operand8::Ind(Indirect::BC)
    } else if p == 1 {
        Operand8::Ind(Indirect::DE)
    } else if p == 2 {
        Operand8::Ind(Indirect::HLI)
    } else {
        Operand8::Ind(Indirect::HLD)
    }
}

/// The first quarter of the table, `00`-`3F`.
pub open spec fn instr_of_first_quarter(y: int, z: int) -> Instr {
    let p = y / 2;
    let q = y % 2;
    if z == 0 {
        if y == 0 {
            Instr::Nop
        } else if y == 1 {
            Instr::Ld16(Operand16::Dir, Operand16::Reg(Reg16::SP))
        } else if y == 2 {
            Instr::Stop
        } else if y == 3 {
            Instr::Jr
        } else {
            Instr::JrC(cond_field(y - 4))
        }
    } else if z == 1 {
        if q == 0 {
            Instr::Ld16(Operand16::Reg(pair_field(p, false)), Operand16::Imm)
        } else {
            Instr::AddHl(pair_field(p, false))
        }
    } else if z == 2 {
        if q == 0 {
            Instr::Ld(accumulator_field(p), Operand8::Reg(Reg8::A))
        } else {
            Instr::Ld(Operand8::Reg(Reg8::A), accumulator_field(p))
        }
    } else if z == 3 {
        if q == 0 {
            Instr::Inc16(pair_field(p, false))
        } else {
            Instr::Dec16(pair_field(p, false))
        }
    } else if z == 4 {
        Instr::Modify(Modify::Inc, operand_field(y))
    } else if z == 5 {
        Instr::Modify(Modify::Dec, operand_field(y))
    } else if z == 6 {
        Instr::Ld(operand_field(y), Operand8::Imm)
    } else if y < 4 {
        Instr::RotateA(shift_field(y))
    } else if y == 4 {
        Instr::Daa
    } else if y == 5 {
        Instr::Cpl
    } else if y == 6 {
        Instr::Scf
    } else {
        Instr::Ccf
    }
}

/// The last quarter of the table, `C0`-`FF`.
pub open spec fn instr_of_last_quarter(y: int, z: int) -> Instr {
    let p = y / 2;
    let q = y % 2;
    if z == 0 {
        if y < 4 {
            Instr::RetC(cond_field(y))
        } else if y == 4 {
            Instr::Ld(Operand8::Dir(Direct8::DFF), Operand8::Reg(Reg8::A))
        } else if y == 5 {
            Instr::AddSpE
        } else if y == 6 {
            Instr::Ld(Operand8::Reg(Reg8::A), Operand8::Dir(Direct8::DFF))
        } else {
            Instr::LdHlSpE
        }
    } else if z == 1 {
        if q == 0 {
            Instr::Pop(pair_field(p, true))
        } else if p == 0 {
            Instr::Ret
        } else if p == 1 {
            Instr::Reti
        } else if p == 2 {
            Instr::JpHl
        } else {
            Instr::LdSpHl
        }
    } else if z == 2 {
        if y < 4 {
            Instr::JpC(cond_field(y))
        } else if y == 4 {
            Instr::Ld(Operand8::Ind(Indirect::CFF), Operand8::Reg(Reg8::A))
        } else if y == 5 {
            Instr::Ld(Operand8::Dir(Direct8::D), Operand8::Reg(Reg8::A))
        } else if y == 6 {
            Instr::Ld(Operand8::Reg(Reg8::A), Operand8::Ind(Indirect::CFF))
        } else {
            Instr::Ld(Operand8::Reg(Reg8::A), Operand8::Dir(Direct8::D))
        }
    } else if z == 3 {
        if y == 0 {
            Instr::Jp
        } else if y == 1 {
            Instr::Prefix
        } else if y == 6 {
            Instr::Di
        } else if y == 7 {
            Instr::Ei
        } else {
            Instr::Illegal
        }
    } else if z == 4 {
        if y < 4 {
            Instr::CallC(cond_field(y))
        } else {
            Instr::Illegal
        }
    } else if z == 5 {
        if q == 0 {
            Instr::Push(pair_field(p, true))
        } else if p == 0 {
            Instr::Call
        } else {
            Instr::Illegal
        }
    } else if z == 6 {
        Instr::Alu(alu_field(y), Operand8::Imm)
    } else {
        Instr::Rst((y * 8) as u8)
    }
}

/// The instruction that `opcode` stands for in the main table.
pub open spec fn instr_of(opcode: u8) -> Instr {
    let x = opcode as int / 64;
    let y = (opcode as int / 8) % 8;
    let z = opcode as int % 8;
    if x == 0 {
        instr_of_first_quarter(y, z)
    } else if x == 1 {
        if y == 6 && z == 6 {
            Instr::Halt
        } else {
            Instr::Ld(operand_field(y), operand_field(z))
        }
    } else if x == 2 {
        Instr::Alu(alu_field(y), operand_field(z))
    } else {
        instr_of_last_quarter(y, z)
    }
}

/// The instruction that `opcode` stands for in the prefixed table.
pub open spec fn prefixed_instr_of(opcode: u8) -> Instr {
    let x = opcode as int / 64;
    let y = (opcode as int / 8) % 8;
    let z = opcode as int % 8;
    if x == 0 {
        Instr::Modify(Modify::Shift(shift_field(y)), operand_field(z))
    } else if x == 1 {
        Instr::Bit(y as u8, operand_field(z))
    } else if x == 2 {
        Instr::Modify(Modify::ResetBit(y as u8), operand_field(z))
    } else {
        Instr::Modify(Modify::SetBit(y as u8), operand_field(z))
    }
}

/// An illegal opcode stops the processor for good.
pub open spec fn illegal_model(cpu: Cpu, bus: BusView) -> (Cpu, BusView) {
    (Cpu { ctx: Ctx { locked: true, ..cpu.ctx }, ..cpu }, bus)
}

/// One machine cycle of `instr`. The prefix byte is not dealt with here:
/// see `cb_prefixed_model`.
pub open spec fn exec_model(instr: Instr, cpu: Cpu, bus: BusView) -> (Cpu, BusView) {
    match instr {
        Instr::Nop => nop_model(cpu, bus),
        Instr::Stop => nop_model(cpu, bus),
        Instr::Halt => halt_model(cpu, bus),
        Instr::Di => di_model(cpu, bus),
        Instr::Ei => ei_model(cpu, bus),
        Instr::Prefix => (cpu, bus),
        Instr::Illegal => illegal_model(cpu, bus),
        Instr::Ld(dst, src) => ld_model(cpu, bus, dst, src),
        Instr::Ld16(dst, src) => ld16_model(cpu, bus, dst, src),
        Instr::LdSpHl => ld_sp_hl_model(cpu, bus),
        Instr::LdHlSpE => ld_hl_sp_e_model(cpu, bus),
        Instr::Push(src) => push_model(cpu, bus, src),
        Instr::Pop(dst) => pop_model(cpu, bus, dst),
        Instr::Alu(op, src) => alu_model(cpu, bus, op, src),
        Instr::Modify(op, at) => modify_model(cpu, bus, op, at),
        Instr::Inc16(at) => step16_model(cpu, bus, true, Operand16::Reg(at)),
        Instr::Dec16(at) => step16_model(cpu, bus, false, Operand16::Reg(at)),
        Instr::AddHl(src) => add_hl_reg16_model(cpu, bus, src),
        Instr::AddSpE => add_sp_e_model(cpu, bus),
        Instr::RotateA(kind) => rotate_a_model(cpu, bus, kind),
        Instr::Daa => daa_model(cpu, bus),
        Instr::Cpl => cpl_model(cpu, bus),
        Instr::Scf => scf_model(cpu, bus),
        Instr::Ccf => ccf_model(cpu, bus),
        Instr::Bit(n, src) => bit_model(cpu, bus, n, src),
        Instr::Jp => jp_model(cpu, bus),
        Instr::JpHl => jp_hl_model(cpu, bus),
        Instr::JpC(cond) => jp_c_model(cpu, bus, cond),
        Instr::Jr => jr_model(cpu, bus),
        Instr::JrC(cond) => jr_c_model(cpu, bus, cond),
        Instr::Call => call_model(cpu, bus),
        Instr::CallC(cond) => call_c_model(cpu, bus, cond),
        Instr::Ret => ret_model(cpu, bus),
        Instr::RetC(cond) => ret_c_model(cpu, bus, cond),
        Instr::Reti => reti_model(cpu, bus),
        Instr::Rst(addr) => rst_model(cpu, bus, addr),
    }
}

/// One machine cycle of the opcode under way, taken from the prefixed
/// table.
pub open spec fn cb_decode_model(cpu: Cpu, bus: BusView) -> (Cpu, BusView) {
    exec_model(prefixed_instr_of(cpu.ctx.opcode), cpu, bus)
}

/// The prefix byte: the byte after it is read; in the cycle in which it
/// arrives it becomes the opcode, marked as prefixed, and its first cycle
/// runs.
pub open spec fn cb_prefixed_model(cpu: Cpu, bus: BusView) -> (Cpu, BusView) {
    let (c, r) = read_imm8(cpu, bus);
    match r {
        Some(v) => cb_decode_model(Cpu { ctx: Ctx { opcode: v, cb: true, ..c.ctx }, ..c }, bus),
        None => (c, bus),
    }
}

/// One machine cycle of the opcode under way.
pub open spec fn decode_model(cpu: Cpu, bus: BusView) -> (Cpu, BusView) {
    if cpu.ctx.cb {
        cb_decode_model(cpu, bus)
    } else {
        match instr_of(cpu.ctx.opcode) {
            Instr::Prefix => cb_prefixed_model(cpu, bus),
            instr => exec_model(instr, cpu, bus),
        }
    }
}

impl Cpu {
    /// Stops the processor for good.
    fn illegal(&mut self)
        ensures
            *final(self) == (Cpu { ctx: Ctx { locked: true, ..old(self).ctx }, ..*old(self) }),
    {
        self.ctx.locked = true;
    }

    /// The opcodes `00`-`0F` of the prefixed table.
    fn cb_row_0(&mut self, bus: &mut Peripherals)
        requires
            old(self).ctx.opcode / 16 == 0,
        ensures
            (*final(self), final(bus)@) == cb_decode_model(*old(self), old(bus)@),
    {
        match self.ctx.opcode {
            0x00 => self.rlc(bus, Reg8::B),
            0x01 => self.rlc(bus, Reg8::C),
            0x02 => self.rlc(bus, Reg8::D),
            0x03 => self.rlc(bus, Reg8::E),
            0x04 => self.rlc(bus, Reg8::H),
            0x05 => self.rlc(bus, Reg8::L),
            0x06 => self.rlc(bus, Indirect::HL),
            0x07 => self.rlc(bus, Reg8::A),
            0x08 => self.rrc(bus, Reg8::B),
            0x09 => self.rrc(bus, Reg8::C),
            0x0a => self.rrc(bus, Reg8::D),
            0x0b => self.rrc(bus, Reg8::E),
            0x0c => self.rrc(bus, Reg8::H),
            0x0d => self.rrc(bus, Reg8::L),
            0x0e => self.rrc(bus, Indirect::HL),
            0x0f => self.rrc(bus, Reg8::A),
            _ => {},
        }
    }

    /// The opcodes `10`-`1F` of the prefixed table.
    fn cb_row_1(&mut self, bus: &mut Peripherals)
        requires
            old(self).ctx.opcode / 16 == 1,
        ensures
            (*final(self), final(bus)@) == cb_decode_model(*old(self), old(bus)@),
    {
        match self.ctx.opcode {
            0x10 => self.rl(bus, Reg8::B),
            0x11 => self.rl(bus, Reg8::C),
            0x12 => self.rl(bus, Reg8::D),
            0x13 => self.rl(bus, Reg8::E),
            0x14 => self.rl(bus, Reg8::H),
            0x15 => self.rl(bus, Reg8::L),
            0x16 => self.rl(bus, Indirect::HL),
            0x17 => self.rl(bus, Reg8::A),
            0x18 => self.rr(bus, Reg8::B),
            0x19 => self.rr(bus, Reg8::C),
            0x1a => self.rr(bus, Reg8::D),
            0x1b => self.rr(bus, Reg8::E),
            0x1c => self.rr(bus, Reg8::H),
            0x1d => self.rr(bus, Reg8::L),
            0x1e => self.rr(bus, Indirect::HL),
            0x1f => self.rr(bus, Reg8::A),
            _ => {},
        }
    }

    /// The opcodes `20`-`2F` of the prefixed table.
    fn cb_row_2(&mut self, bus: &mut Peripherals)
        requires
            old(self).ctx.opcode / 16 == 2,
        ensures
            (*final(self), final(bus)@) == cb_decode_model(*old(self), old(bus)@),
    {
        match self.ctx.opcode {
            0x20 => self.sla(bus, Reg8::B),
            0x21 => self.sla(bus, Reg8::C),
            0x22 => self.sla(bus, Reg8::D),
            0x23 => self.sla(bus, Reg8::E),
            0x24 => self.sla(bus, Reg8::H),
            0x25 => self.sla(bus, Reg8::L),
            0x26 => self.sla(bus, Indirect::HL),
            0x27 => self.sla(bus, Reg8::A),
            0x28 => self.sra(bus, Reg8::B),
            0x29 => self.sra(bus, Reg8::C),
            0x2a => self.sra(bus, Reg8::D),
            0x2b => self.sra(bus, Reg8::E),
            0x2c => self.sra(bus, Reg8::H),
            0x2d => self.sra(bus, Reg8::L),
            0x2e => self.sra(bus, Indirect::HL),
            0x2f => self.sra(bus, Reg8::A),
            _ => {},
        }
    }

    /// The opcodes `30`-`3F` of the prefixed table.
    fn cb_row_3(&mut self, bus: &mut Peripherals)
        requires
            old(self).ctx.opcode / 16 == 3,
        ensures
            (*final(self), final(bus)@) == cb_decode_model(*old(self), old(bus)@),
    {
        match self.ctx.opcode {
            0x30 => self.swap(bus, Reg8::B),
            0x31 => self.swap(bus, Reg8::C),
            0x32 => self.swap(bus, Reg8::D),
            0x33 => self.swap(bus, Reg8::E),
            0x34 => self.swap(bus, Reg8::H),
            0x35 => self.swap(bus, Reg8::L),
            0x36 => self.swap(bus, Indirect::HL),
            0x37 => self.swap(bus, Reg8::A),
            0x38 => self.srl(bus, Reg8::B),
            0x39 => self.srl(bus, Reg8::C),
            0x3a => self.srl(bus, Reg8::D),
            0x3b => self.srl(bus, Reg8::E),
            0x3c => self.srl(bus, Reg8::H),
            0x3d => self.srl(bus, Reg8::L),
            0x3e => self.srl(bus, Indirect::HL),
            0x3f => self.srl(bus, Reg8::A),
            _ => {},
        }
    }

    /// The opcodes `40`-`4F` of the prefixed table.
    fn cb_row_4(&mut self, bus: &mut Peripherals)
        requires
            old(self).ctx.opcode / 16 == 4,
        ensures
            (*final(self), final(bus)@) == cb_decode_model(*old(self), old(bus)@),
    {
        match self.ctx.opcode {
            0x40 => self.bit(bus, 0, Reg8::B),
            0x41 => self.bit(bus, 0, Reg8::C),
            0x42 => self.bit(bus, 0, Reg8::D),
            0x43 => self.bit(bus, 0, Reg8::E),
            0x44 => self.bit(bus, 0, Reg8::H),
            0x45 => self.bit(bus, 0, Reg8::L),
            0x46 => self.bit(bus, 0, Indirect::HL),
            0x47 => self.bit(bus, 0, Reg8::A),
            0x48 => self.bit(bus, 1, Reg8::B),
            0x49 => self.bit(bus, 1, Reg8::C),
            0x4a => self.bit(bus, 1, Reg8::D),
            0x4b => self.bit(bus, 1, Reg8::E),
            0x4c => self.bit(bus, 1, Reg8::H),
            0x4d => self.bit(bus, 1, Reg8::L),
            0x4e => self.bit(bus, 1, Indirect::HL),
            0x4f => self.bit(bus, 1, Reg8::A),
            _ => {},
        }
    }

    /// The opcodes `50`-`5F` of the prefixed table.
    fn cb_row_5(&mut self, bus: &mut Peripherals)
        requires
            old(self).ctx.opcode / 16 == 5,
        ensures
            (*final(self), final(bus)@) == cb_decode_model(*old(self), old(bus)@),
    {
        match self.ctx.opcode {
            0x50 => self.bit(bus, 2, Reg8::B),
            0x51 => self.bit(bus, 2, Reg8::C),
            0x52 => self.bit(bus, 2, Reg8::D),
            0x53 => self.bit(bus, 2, Reg8::E),
            0x54 => self.bit(bus, 2, Reg8::H),
            0x55 => self.bit(bus, 2, Reg8::L),
            0x56 => self.bit(bus, 2, Indirect::HL),
            0x57 => self.bit(bus, 2, Reg8::A),
            0x58 => self.bit(bus, 3, Reg8::B),
            0x59 => self.bit(bus, 3, Reg8::C),
            0x5a => self.bit(bus, 3, Reg8::D),
            0x5b => self.bit(bus, 3, Reg8::E),
            0x5c => self.bit(bus, 3, Reg8::H),
            0x5d => self.bit(bus, 3, Reg8::L),
            0x5e => self.bit(bus, 3, Indirect::HL),
            0x5f => self.bit(bus, 3, Reg8::A),
            _ => {},
        }
    }

    /// The opcodes `60`-`6F` of the prefixed table.
    fn cb_row_6(&mut self, bus: &mut Peripherals)
        requires
            old(self).ctx.opcode / 16 == 6,
        ensures
            (*final(self), final(bus)@) == cb_decode_model(*old(self), old(bus)@),
    {
        match self.ctx.opcode {
            0x60 => self.bit(bus, 4, Reg8::B),
            0x61 => self.bit(bus, 4, Reg8::C),
            0x62 => self.bit(bus, 4, Reg8::D),
            0x63 => self.bit(bus, 4, Reg8::E),
            0x64 => self.bit(bus, 4, Reg8::H),
            0x65 => self.bit(bus, 4, Reg8::L),
            0x66 => self.bit(bus, 4, Indirect::HL),
            0x67 => self.bit(bus, 4, Reg8::A),
            0x68 => self.bit(bus, 5, Reg8::B),
            0x69 => self.bit(bus, 5, Reg8::C),
            0x6a => self.bit(bus, 5, Reg8::D),
            0x6b => self.bit(bus, 5, Reg8::E),
            0x6c => self.bit(bus, 5, Reg8::H),
            0x6d => self.bit(bus, 5, Reg8::L),
            0x6e => self.bit(bus, 5, Indirect::HL),
            0x6f => self.bit(bus, 5, Reg8::A),
            _ => {},
        }
    }

    /// The opcodes `70`-`7F` of the prefixed table.
    fn cb_row_7(&mut self, bus: &mut Peripherals)
        requires
            old(self).ctx.opcode / 16 == 7,
        ensures
            (*final(self), final(bus)@) == cb_decode_model(*old(self), old(bus)@),
    {
        match self.ctx.opcode {
            0x70 => self.bit(bus, 6, Reg8::B),
            0x71 => self.bit(bus, 6, Reg8::C),
            0x72 => self.bit(bus, 6, Reg8::D),
            0x73 => self.bit(bus, 6, Reg8::E),
            0x74 => self.bit(bus, 6, Reg8::H),
            0x75 => self.bit(bus, 6, Reg8::L),
            0x76 => self.bit(bus, 6, Indirect::HL),
            0x77 => self.bit(bus, 6, Reg8::A),
            0x78 => self.bit(bus, 7, Reg8::B),
            0x79 => self.bit(bus, 7, Reg8::C),
            0x7a => self.bit(bus, 7, Reg8::D),
            0x7b => self.bit(bus, 7, Reg8::E),
            0x7c => self.bit(bus, 7, Reg8::H),
            0x7d => self.bit(bus, 7, Reg8::L),
            0x7e => self.bit(bus, 7, Indirect::HL),
            0x7f => self.bit(bus, 7, Reg8::A),
            _ => {},
        }
    }

    /// The opcodes `80`-`8F` of the prefixed table.
    fn cb_row_8(&mut self, bus: &mut Peripherals)
        requires
            old(self).ctx.opcode / 16 == 8,
        ensures
            (*final(self), final(bus)@) == cb_decode_model(*old(self), old(bus)@),
    {
        match self.ctx.opcode {
            0x80 => self.res(bus, 0, Reg8::B),
            0x81 => self.res(bus, 0, Reg8::C),
            0x82 => self.res(bus, 0, Reg8::D),
            0x83 => self.res(bus, 0, Reg8::E),
            0x84 => self.res(bus, 0, Reg8::H),
            0x85 => self.res(bus, 0, Reg8::L),
            0x86 => self.res(bus, 0, Indirect::HL),
            0x87 => self.res(bus, 0, Reg8::A),
            0x88 => self.res(bus, 1, Reg8::B),
            0x89 => self.res(bus, 1, Reg8::C),
            0x8a => self.res(bus, 1, Reg8::D),
            0x8b => self.res(bus, 1, Reg8::E),
            0x8c => self.res(bus, 1, Reg8::H),
            0x8d => self.res(bus, 1, Reg8::L),
            0x8e => self.res(bus, 1, Indirect::HL),
            0x8f => self.res(bus, 1, Reg8::A),
            _ => {},
        }
    }

    /// The opcodes `90`-`9F` of the prefixed table.
    fn cb_row_9(&mut self, bus: &mut Peripherals)
        requires
            old(self).ctx.opcode / 16 == 9,
        ensures
            (*final(self), final(bus)@) == cb_decode_model(*old(self), old(bus)@),
    {
        match self.ctx.opcode {
            0x90 => self.res(bus, 2, Reg8::B),
            0x91 => self.res(bus, 2, Reg8::C),
            0x92 => self.res(bus, 2, Reg8::D),
            0x93 => self.res(bus, 2, Reg8::E),
            0x94 => self.res(bus, 2, Reg8::H),
            0x95 => self.res(bus, 2, Reg8::L),
            0x96 => self.res(bus, 2, Indirect::HL),
            0x97 => self.res(bus, 2, Reg8::A),
            0x98 => self.res(bus, 3, Reg8::B),
            0x99 => self.res(bus, 3, Reg8::C),
            0x9a => self.res(bus, 3, Reg8::D),
            0x9b => self.res(bus, 3, Reg8::E),
            0x9c => self.res(bus, 3, Reg8::H),
            0x9d => self.res(bus, 3, Reg8::L),
            0x9e => self.res(bus, 3, Indirect::HL),
            0x9f => self.res(bus, 3, Reg8::A),
            _ => {},
        }
    }

    /// The opcodes `A0`-`AF` of the prefixed table.
    fn cb_row_a(&mut self, bus: &mut Peripherals)
        requires
            old(self).ctx.opcode / 16 == 10,
        ensures
            (*final(self), final(bus)@) == cb_decode_model(*old(self), old(bus)@),
    {
        match self.ctx.opcode {
            0xa0 => self.res(bus, 4, Reg8::B),
            0xa1 => self.res(bus, 4, Reg8::C),
            0xa2 => self.res(bus, 4, Reg8::D),
            0xa3 => self.res(bus, 4, Reg8::E),
            0xa4 => self.res(bus, 4, Reg8::H),
            0xa5 => self.res(bus, 4, Reg8::L),
            0xa6 => self.res(bus, 4, Indirect::HL),
            0xa7 => self.res(bus, 4, Reg8::A),
            0xa8 => self.res(bus, 5, Reg8::B),
            0xa9 => self.res(bus, 5, Reg8::C),
            0xaa => self.res(bus, 5, Reg8::D),
            0xab => self.res(bus, 5, Reg8::E),
            0xac => self.res(bus, 5, Reg8::H),
            0xad => self.res(bus, 5, Reg8::L),
            0xae => self.res(bus, 5, Indirect::HL),
            0xaf => self.res(bus, 5, Reg8::A),
            _ => {},
        }
    }

    /// The opcodes `B0`-`BF` of the prefixed table.
    fn cb_row_b(&mut self, bus: &mut Peripherals)
        requires
            old(self).ctx.opcode / 16 == 11,
        ensures
            (*final(self), final(bus)@) == cb_decode_model(*old(self), old(bus)@),
    {
        match self.ctx.opcode {
            0xb0 => self.res(bus, 6, Reg8::B),
            0xb1 => self.res(bus, 6, Reg8::C),
            0xb2 => self.res(bus, 6, Reg8::D),
            0xb3 => self.res(bus, 6, Reg8::E),
            0xb4 => self.res(bus, 6, Reg8::H),
            0xb5 => self.res(bus, 6, Reg8::L),
            0xb6 => self.res(bus, 6, Indirect::HL),
            0xb7 => self.res(bus, 6, Reg8::A),
            0xb8 => self.res(bus, 7, Reg8::B),
            0xb9 => self.res(bus, 7, Reg8::C),
            0xba => self.res(bus, 7, Reg8::D),
            0xbb => self.res(bus, 7, Reg8::E),
            0xbc => self.res(bus, 7, Reg8::H),
            0xbd => self.res(bus, 7, Reg8::L),
            0xbe => self.res(bus, 7, Indirect::HL),
            0xbf => self.res(bus, 7, Reg8::A),
            _ => {},
        }
    }

    /// The opcodes `C0`-`CF` of the prefixed table.
    fn cb_row_c(&mut self, bus: &mut Peripherals)
        requires
            old(self).ctx.opcode / 16 == 12,
        ensures
            (*final(self), final(bus)@) == cb_decode_model(*old(self), old(bus)@),
    {
        match self.ctx.opcode {
            0xc0 => self.set(bus, 0, Reg8::B),
            0xc1 => self.set(bus, 0, Reg8::C),
            0xc2 => self.set(bus, 0, Reg8::D),
            0xc3 => self.set(bus, 0, Reg8::E),
            0xc4 => self.set(bus, 0, Reg8::H),
            0xc5 => self.set(bus, 0, Reg8::L),
            0xc6 => self.set(bus, 0, Indirect::HL),
            0xc7 => self.set(bus, 0, Reg8::A),
            0xc8 => self.set(bus, 1, Reg8::B),
            0xc9 => self.set(bus, 1, Reg8::C),
            0xca => self.set(bus, 1, Reg8::D),
            0xcb => self.set(bus, 1, Reg8::E),
            0xcc => self.set(bus, 1, Reg8::H),
            0xcd => self.set(bus, 1, Reg8::L),
            0xce => self.set(bus, 1, Indirect::HL),
            0xcf => self.set(bus, 1, Reg8::A),
            _ => {},
        }
    }

    /// The opcodes `D0`-`DF` of the prefixed table.
    fn cb_row_d(&mut self, bus: &mut Peripherals)
        requires
            old(self).ctx.opcode / 16 == 13,
        ensures
            (*final(self), final(bus)@) == cb_decode_model(*old(self), old(bus)@),
    {
        match self.ctx.opcode {
            0xd0 => self.set(bus, 2, Reg8::B),
            0xd1 => self.set(bus, 2, Reg8::C),
            0xd2 => self.set(bus, 2, Reg8::D),
            0xd3 => self.set(bus, 2, Reg8::E),
            0xd4 => self.set(bus, 2, Reg8::H),
            0xd5 => self.set(bus, 2, Reg8::L),
            0xd6 => self.set(bus, 2, Indirect::HL),
            0xd7 => self.set(bus, 2, Reg8::A),
            0xd8 => self.set(bus, 3, Reg8::B),
            0xd9 => self.set(bus, 3, Reg8::C),
            0xda => self.set(bus, 3, Reg8::D),
            0xdb => self.set(bus, 3, Reg8::E),
            0xdc => self.set(bus, 3, Reg8::H),
            0xdd => self.set(bus, 3, Reg8::L),
            0xde => self.set(bus, 3, Indirect::HL),
            0xdf => self.set(bus, 3, Reg8::A),
            _ => {},
        }
    }

    /// The opcodes `E0`-`EF` of the prefixed table.
    fn cb_row_e(&mut self, bus: &mut Peripherals)
        requires
            old(self).ctx.opcode / 16 == 14,
        ensures
            (*final(self), final(bus)@) == cb_decode_model(*old(self), old(bus)@),
    {
        match self.ctx.opcode {
            0xe0 => self.set(bus, 4, Reg8::B),
            0xe1 => self.set(bus, 4, Reg8::C),
            0xe2 => self.set(bus, 4, Reg8::D),
            0xe3 => self.set(bus, 4, Reg8::E),
            0xe4 => self.set(bus, 4, Reg8::H),
            0xe5 => self.set(bus, 4, Reg8::L),
            0xe6 => self.set(bus, 4, Indirect::HL),
            0xe7 => self.set(bus, 4, Reg8::A),
            0xe8 => self.set(bus, 5, Reg8::B),
            0xe9 => self.set(bus, 5, Reg8::C),
            0xea => self.set(bus, 5, Reg8::D),
            0xeb => self.set(bus, 5, Reg8::E),
            0xec => self.set(bus, 5, Reg8::H),
            0xed => self.set(bus, 5, Reg8::L),
            0xee => self.set(bus, 5, Indirect::HL),
            0xef => self.set(bus, 5, Reg8::A),
            _ => {},
        }
    }

    /// The opcodes `F0`-`FF` of the prefixed table.
    fn cb_row_f(&mut self, bus: &mut Peripherals)
        requires
            old(self).ctx.opcode / 16 == 15,
        ensures
            (*final(self), final(bus)@) == cb_decode_model(*old(self), old(bus)@),
    {
        match self.ctx.opcode {
            0xf0 => self.set(bus, 6, Reg8::B),
            0xf1 => self.set(bus, 6, Reg8::C),
            0xf2 => self.set(bus, 6, Reg8::D),
            0xf3 => self.set(bus, 6, Reg8::E),
            0xf4 => self.set(bus, 6, Reg8::H),
            0xf5 => self.set(bus, 6, Reg8::L),
            0xf6 => self.set(bus, 6, Indirect::HL),
            0xf7 => self.set(bus, 6, Reg8::A),
            0xf8 => self.set(bus, 7, Reg8::B),
            0xf9 => self.set(bus, 7, Reg8::C),
            0xfa => self.set(bus, 7, Reg8::D),
            0xfb => self.set(bus, 7, Reg8::E),
            0xfc => self.set(bus, 7, Reg8::H),
            0xfd => self.set(bus, 7, Reg8::L),
            0xfe => self.set(bus, 7, Indirect::HL),
            0xff => self.set(bus, 7, Reg8::A),
            _ => {},
        }
    }

    /// Runs one machine cycle of the opcode under way, taken from the
    /// prefixed table.
    pub fn cb_decode(&mut self, bus: &mut Peripherals)
        ensures
            (*final(self), final(bus)@) == cb_decode_model(*old(self), old(bus)@),
    {
        match self.ctx.opcode / 16 {
            0 => self.cb_row_0(bus),
            1 => self.cb_row_1(bus),
            2 => self.cb_row_2(bus),
            3 => self.cb_row_3(bus),
            4 => self.cb_row_4(bus),
            5 => self.cb_row_5(bus),
            6 => self.cb_row_6(bus),
            7 => self.cb_row_7(bus),
            8 => self.cb_row_8(bus),
            9 => self.cb_row_9(bus),
            10 => self.cb_row_a(bus),
            11 => self.cb_row_b(bus),
            12 => self.cb_row_c(bus),
            13 => self.cb_row_d(bus),
            14 => self.cb_row_e(bus),
            _ => self.cb_row_f(bus),
        }
    }

    /// Runs one machine cycle of the prefix byte.
    pub fn cb_prefixed(&mut self, bus: &mut Peripherals)
        ensures
            (*final(self), final(bus)@) == cb_prefixed_model(*old(self), old(bus)@),
    {
        proof {
            reveal(read8_model);
        }
        if let Some(v) = self.read8(bus, Imm8) {
            self.ctx.opcode = v;
            self.ctx.cb = true;
            self.cb_decode(bus);
        }
    }

    /// The opcodes `00`-`0F` of the main table.
    fn main_row_0(&mut self, bus: &mut Peripherals)
        requires
            !old(self).ctx.cb,
            old(self).ctx.opcode / 16 == 0,
        ensures
            (*final(self), final(bus)@) == decode_model(*old(self), old(bus)@),
    {
        match self.ctx.opcode {
            0x00 => self.nop(bus),
            0x01 => self.ld16(bus, Reg16::BC, Imm16),
            0x02 => self.ld(bus, Indirect::BC, Reg8::A),
            0x03 => self.inc16(bus, Reg16::BC),
            0x04 => self.inc(bus, Reg8::B),
            0x05 => self.dec(bus, Reg8::B),
            0x06 => self.ld(bus, Reg8::B, Imm8),
            0x07 => self.rlca(bus),
            0x08 => self.ld16(bus, Direct16, Reg16::SP),
            0x09 => self.add_hl_reg16(bus, Reg16::BC),
            0x0a => self.ld(bus, Reg8::A, Indirect::BC),
            0x0b => self.dec16(bus, Reg16::BC),
            0x0c => self.inc(bus, Reg8::C),
            0x0d => self.dec(bus, Reg8::C),
            0x0e => self.ld(bus, Reg8::C, Imm8),
            0x0f => self.rrca(bus),
            _ => {},
        }
    }

    /// The opcodes `10`-`1F` of the main table.
    fn main_row_1(&mut self, bus: &mut Peripherals)
        requires
            !old(self).ctx.cb,
            old(self).ctx.opcode / 16 == 1,
        ensures
            (*final(self), final(bus)@) == decode_model(*old(self), old(bus)@),
    {
        match self.ctx.opcode {
            0x10 => self.stop(bus),
            0x11 => self.ld16(bus, Reg16::DE, Imm16),
            0x12 => self.ld(bus, Indirect::DE, Reg8::A),
            0x13 => self.inc16(bus, Reg16::DE),
            0x14 => self.inc(bus, Reg8::D),
            0x15 => self.dec(bus, Reg8::D),
            0x16 => self.ld(bus, Reg8::D, Imm8),
            0x17 => self.rla(bus),
            0x18 => self.jr(bus),
            0x19 => self.add_hl_reg16(bus, Reg16::DE),
            0x1a => self.ld(bus, Reg8::A, Indirect::DE),
            0x1b => self.dec16(bus, Reg16::DE),
            0x1c => self.inc(bus, Reg8::E),
            0x1d => self.dec(bus, Reg8::E),
            0x1e => self.ld(bus, Reg8::E, Imm8),
            0x1f => self.rra(bus),
            _ => {},
        }
    }

    /// The opcodes `20`-`2F` of the main table.
    fn main_row_2(&mut self, bus: &mut Peripherals)
        requires
            !old(self).ctx.cb,
            old(self).ctx.opcode / 16 == 2,
        ensures
            (*final(self), final(bus)@) == decode_model(*old(self), old(bus)@),
    {
        match self.ctx.opcode {
            0x20 => self.jr_c(bus, Cond::NZ),
            0x21 => self.ld16(bus, Reg16::HL, Imm16),
            0x22 => self.ld(bus, Indirect::HLI, Reg8::A),
            0x23 => self.inc16(bus, Reg16::HL),
            0x24 => self.inc(bus, Reg8::H),
            0x25 => self.dec(bus, Reg8::H),
            0x26 => self.ld(bus, Reg8::H, Imm8),
            0x27 => self.daa(bus),
            0x28 => self.jr_c(bus, Cond::Z),
            0x29 => self.add_hl_reg16(bus, Reg16::HL),
            0x2a => self.ld(bus, Reg8::A, Indirect::HLI),
            0x2b => self.dec16(bus, Reg16::HL),
            0x2c => self.inc(bus, Reg8::L),
            0x2d => self.dec(bus, Reg8::L),
            0x2e => self.ld(bus, Reg8::L, Imm8),
            0x2f => self.cpl(bus),
            _ => {},
        }
    }

    /// The opcodes `30`-`3F` of the main table.
    fn main_row_3(&mut self, bus: &mut Peripherals)
        requires
            !old(self).ctx.cb,
            old(self).ctx.opcode / 16 == 3,
        ensures
            (*final(self), final(bus)@) == decode_model(*old(self), old(bus)@),
    {
        match self.ctx.opcode {
            0x30 => self.jr_c(bus, Cond::NC),
            0x31 => self.ld16(bus, Reg16::SP, Imm16),
            0x32 => self.ld(bus, Indirect::HLD, Reg8::A),
            0x33 => self.inc16(bus, Reg16::SP),
            0x34 => self.inc(bus, Indirect::HL),
            0x35 => self.dec(bus, Indirect::HL),
            0x36 => self.ld(bus, Indirect::HL, Imm8),
            0x37 => self.scf(bus),
            0x38 => self.jr_c(bus, Cond::C),
            0x39 => self.add_hl_reg16(bus, Reg16::SP),
            0x3a => self.ld(bus, Reg8::A, Indirect::HLD),
            0x3b => self.dec16(bus, Reg16::SP),
            0x3c => self.inc(bus, Reg8::A),
            0x3d => self.dec(bus, Reg8::A),
            0x3e => self.ld(bus, Reg8::A, Imm8),
            0x3f => self.ccf(bus),
            _ => {},
        }
    }

    /// The opcodes `40`-`4F` of the main table.
    fn main_row_4(&mut self, bus: &mut Peripherals)
        requires
            !old(self).ctx.cb,
            old(self).ctx.opcode / 16 == 4,
        ensures
            (*final(self), final(bus)@) == decode_model(*old(self), old(bus)@),
    {
        match self.ctx.opcode {
            0x40 => self.ld(bus, Reg8::B, Reg8::B),
            0x41 => self.ld(bus, Reg8::B, Reg8::C),
            0x42 => self.ld(bus, Reg8::B, Reg8::D),
            0x43 => self.ld(bus, Reg8::B, Reg8::E),
            0x44 => self.ld(bus, Reg8::B, Reg8::H),
            0x45 => self.ld(bus, Reg8::B, Reg8::L),
            0x46 => self.ld(bus, Reg8::B, Indirect::HL),
            0x47 => self.ld(bus, Reg8::B, Reg8::A),
            0x48 => self.ld(bus, Reg8::C, Reg8::B),
            0x49 => self.ld(bus, Reg8::C, Reg8::C),
            0x4a => self.ld(bus, Reg8::C, Reg8::D),
            0x4b => self.ld(bus, Reg8::C, Reg8::E),
            0x4c => self.ld(bus, Reg8::C, Reg8::H),
            0x4d => self.ld(bus, Reg8::C, Reg8::L),
            0x4e => self.ld(bus, Reg8::C, Indirect::HL),
            0x4f => self.ld(bus, Reg8::C, Reg8::A),
            _ => {},
        }
    }

    /// The opcodes `50`-`5F` of the main table.
    fn main_row_5(&mut self, bus: &mut Peripherals)
        requires
            !old(self).ctx.cb,
            old(self).ctx.opcode / 16 == 5,
        ensures
            (*final(self), final(bus)@) == decode_model(*old(self), old(bus)@),
    {
        match self.ctx.opcode {
            0x50 => self.ld(bus, Reg8::D, Reg8::B),
            0x51 => self.ld(bus, Reg8::D, Reg8::C),
            0x52 => self.ld(bus, Reg8::D, Reg8::D),
            0x53 => self.ld(bus, Reg8::D, Reg8::E),
            0x54 => self.ld(bus, Reg8::D, Reg8::H),
            0x55 => self.ld(bus, Reg8::D, Reg8::L),
            0x56 => self.ld(bus, Reg8::D, Indirect::HL),
            0x57 => self.ld(bus, Reg8::D, Reg8::A),
            0x58 => self.ld(bus, Reg8::E, Reg8::B),
            0x59 => self.ld(bus, Reg8::E, Reg8::C),
            0x5a => self.ld(bus, Reg8::E, Reg8::D),
            0x5b => self.ld(bus, Reg8::E, Reg8::E),
            0x5c => self.ld(bus, Reg8::E, Reg8::H),
            0x5d => self.ld(bus, Reg8::E, Reg8::L),
            0x5e => self.ld(bus, Reg8::E, Indirect::HL),
            0x5f => self.ld(bus, Reg8::E, Reg8::A),
            _ => {},
        }
    }

    /// The opcodes `60`-`6F` of the main table.
    fn main_row_6(&mut self, bus: &mut Peripherals)
        requires
            !old(self).ctx.cb,
            old(self).ctx.opcode / 16 == 6,
        ensures
            (*final(self), final(bus)@) == decode_model(*old(self), old(bus)@),
    {
        match self.ctx.opcode {
            0x60 => self.ld(bus, Reg8::H, Reg8::B),
            0x61 => self.ld(bus, Reg8::H, Reg8::C),
            0x62 => self.ld(bus, Reg8::H, Reg8::D),
            0x63 => self.ld(bus, Reg8::H, Reg8::E),
            0x64 => self.ld(bus, Reg8::H, Reg8::H),
            0x65 => self.ld(bus, Reg8::H, Reg8::L),
            0x66 => self.ld(bus, Reg8::H, Indirect::HL),
            0x67 => self.ld(bus, Reg8::H, Reg8::A),
            0x68 => self.ld(bus, Reg8::L, Reg8::B),
            0x69 => self.ld(bus, Reg8::L, Reg8::C),
            0x6a => self.ld(bus, Reg8::L, Reg8::D),
            0x6b => self.ld(bus, Reg8::L, Reg8::E),
            0x6c => self.ld(bus, Reg8::L, Reg8::H),
            0x6d => self.ld(bus, Reg8::L, Reg8::L),
            0x6e => self.ld(bus, Reg8::L, Indirect::HL),
            0x6f => self.ld(bus, Reg8::L, Reg8::A),
            _ => {},
        }
    }

    /// The opcodes `70`-`7F` of the main table.
    fn main_row_7(&mut self, bus: &mut Peripherals)
        requires
            !old(self).ctx.cb,
            old(self).ctx.opcode / 16 == 7,
        ensures
            (*final(self), final(bus)@) == decode_model(*old(self), old(bus)@),
    {
        match self.ctx.opcode {
            0x70 => self.ld(bus, Indirect::HL, Reg8::B),
            0x71 => self.ld(bus, Indirect::HL, Reg8::C),
            0x72 => self.ld(bus, Indirect::HL, Reg8::D),
            0x73 => self.ld(bus, Indirect::HL, Reg8::E),
            0x74 => self.ld(bus, Indirect::HL, Reg8::H),
            0x75 => self.ld(bus, Indirect::HL, Reg8::L),
            0x76 => self.halt(bus),
            0x77 => self.ld(bus, Indirect::HL, Reg8::A),
            0x78 => self.ld(bus, Reg8::A, Reg8::B),
            0x79 => self.ld(bus, Reg8::A, Reg8::C),
            0x7a => self.ld(bus, Reg8::A, Reg8::D),
            0x7b => self.ld(bus, Reg8::A, Reg8::E),
            0x7c => self.ld(bus, Reg8::A, Reg8::H),
            0x7d => self.ld(bus, Reg8::A, Reg8::L),
            0x7e => self.ld(bus, Reg8::A, Indirect::HL),
            0x7f => self.ld(bus, Reg8::A, Reg8::A),
            _ => {},
        }
    }

    /// The opcodes `80`-`8F` of the main table.
    fn main_row_8(&mut self, bus: &mut Peripherals)
        requires
            !old(self).ctx.cb,
            old(self).ctx.opcode / 16 == 8,
        ensures
            (*final(self), final(bus)@) == decode_model(*old(self), old(bus)@),
    {
        match self.ctx.opcode {
            0x80 => self.add(bus, Reg8::B),
            0x81 => self.add(bus, Reg8::C),
            0x82 => self.add(bus, Reg8::D),
            0x83 => self.add(bus, Reg8::E),
            0x84 => self.add(bus, Reg8::H),
            0x85 => self.add(bus, Reg8::L),
            0x86 => self.add(bus, Indirect::HL),
            0x87 => self.add(bus, Reg8::A),
            0x88 => self.adc(bus, Reg8::B),
            0x89 => self.adc(bus, Reg8::C),
            0x8a => self.adc(bus, Reg8::D),
            0x8b => self.adc(bus, Reg8::E),
            0x8c => self.adc(bus, Reg8::H),
            0x8d => self.adc(bus, Reg8::L),
            0x8e => self.adc(bus, Indirect::HL),
            0x8f => self.adc(bus, Reg8::A),
            _ => {},
        }
    }

    /// The opcodes `90`-`9F` of the main table.
    fn main_row_9(&mut self, bus: &mut Peripherals)
        requires
            !old(self).ctx.cb,
            old(self).ctx.opcode / 16 == 9,
        ensures
            (*final(self), final(bus)@) == decode_model(*old(self), old(bus)@),
    {
        match self.ctx.opcode {
            0x90 => self.sub(bus, Reg8::B),
            0x91 => self.sub(bus, Reg8::C),
            0x92 => self.sub(bus, Reg8::D),
            0x93 => self.sub(bus, Reg8::E),
            0x94 => self.sub(bus, Reg8::H),
            0x95 => self.sub(bus, Reg8::L),
            0x96 => self.sub(bus, Indirect::HL),
            0x97 => self.sub(bus, Reg8::A),
            0x98 => self.sbc(bus, Reg8::B),
            0x99 => self.sbc(bus, Reg8::C),
            0x9a => self.sbc(bus, Reg8::D),
            0x9b => self.sbc(bus, Reg8::E),
            0x9c => self.sbc(bus, Reg8::H),
            0x9d => self.sbc(bus, Reg8::L),
            0x9e => self.sbc(bus, Indirect::HL),
            0x9f => self.sbc(bus, Reg8::A),
            _ => {},
        }
    }

    /// The opcodes `A0`-`AF` of the main table.
    fn main_row_a(&mut self, bus: &mut Peripherals)
        requires
            !old(self).ctx.cb,
            old(self).ctx.opcode / 16 == 10,
        ensures
            (*final(self), final(bus)@) == decode_model(*old(self), old(bus)@),
    {
        match self.ctx.opcode {
            0xa0 => self.and(bus, Reg8::B),
            0xa1 => self.and(bus, Reg8::C),
            0xa2 => self.and(bus, Reg8::D),
            0xa3 => self.and(bus, Reg8::E),
            0xa4 => self.and(bus, Reg8::H),
            0xa5 => self.and(bus, Reg8::L),
            0xa6 => self.and(bus, Indirect::HL),
            0xa7 => self.and(bus, Reg8::A),
            0xa8 => self.xor(bus, Reg8::B),
            0xa9 => self.xor(bus, Reg8::C),
            0xaa => self.xor(bus, Reg8::D),
            0xab => self.xor(bus, Reg8::E),
            0xac => self.xor(bus, Reg8::H),
            0xad => self.xor(bus, Reg8::L),
            0xae => self.xor(bus, Indirect::HL),
            0xaf => self.xor(bus, Reg8::A),
            _ => {},
        }
    }

    /// The opcodes `B0`-`BF` of the main table.
    fn main_row_b(&mut self, bus: &mut Peripherals)
        requires
            !old(self).ctx.cb,
            old(self).ctx.opcode / 16 == 11,
        ensures
            (*final(self), final(bus)@) == decode_model(*old(self), old(bus)@),
    {
        match self.ctx.opcode {
            0xb0 => self.or(bus, Reg8::B),
            0xb1 => self.or(bus, Reg8::C),
            0xb2 => self.or(bus, Reg8::D),
            0xb3 => self.or(bus, Reg8::E),
            0xb4 => self.or(bus, Reg8::H),
            0xb5 => self.or(bus, Reg8::L),
            0xb6 => self.or(bus, Indirect::HL),
            0xb7 => self.or(bus, Reg8::A),
            0xb8 => self.cp(bus, Reg8::B),
            0xb9 => self.cp(bus, Reg8::C),
            0xba => self.cp(bus, Reg8::D),
            0xbb => self.cp(bus, Reg8::E),
            0xbc => self.cp(bus, Reg8::H),
            0xbd => self.cp(bus, Reg8::L),
            0xbe => self.cp(bus, Indirect::HL),
            0xbf => self.cp(bus, Reg8::A),
            _ => {},
        }
    }

    /// The opcodes `C0`-`CF` of the main table.
    fn main_row_c(&mut self, bus: &mut Peripherals)
        requires
            !old(self).ctx.cb,
            old(self).ctx.opcode / 16 == 12,
        ensures
            (*final(self), final(bus)@) == decode_model(*old(self), old(bus)@),
    {
        match self.ctx.opcode {
            0xc0 => self.ret_c(bus, Cond::NZ),
            0xc1 => self.pop(bus, Reg16::BC),
            0xc2 => self.jp_c(bus, Cond::NZ),
            0xc3 => self.jp(bus),
            0xc4 => self.call_c(bus, Cond::NZ),
            0xc5 => self.push(bus, Reg16::BC),
            0xc6 => self.add(bus, Imm8),
            0xc7 => self.rst_addr(bus, 0x00),
            0xc8 => self.ret_c(bus, Cond::Z),
            0xc9 => self.ret(bus),
            0xca => self.jp_c(bus, Cond::Z),
            0xcb => self.cb_prefixed(bus),
            0xcc => self.call_c(bus, Cond::Z),
            0xcd => self.call(bus),
            0xce => self.adc(bus, Imm8),
            0xcf => self.rst_addr(bus, 0x08),
            _ => {},
        }
    }

    /// The opcodes `D0`-`DF` of the main table.
    fn main_row_d(&mut self, bus: &mut Peripherals)
        requires
            !old(self).ctx.cb,
            old(self).ctx.opcode / 16 == 13,
        ensures
            (*final(self), final(bus)@) == decode_model(*old(self), old(bus)@),
    {
        match self.ctx.opcode {
            0xd0 => self.ret_c(bus, Cond::NC),
            0xd1 => self.pop(bus, Reg16::DE),
            0xd2 => self.jp_c(bus, Cond::NC),
            0xd3 => self.illegal(),
            0xd4 => self.call_c(bus, Cond::NC),
            0xd5 => self.push(bus, Reg16::DE),
            0xd6 => self.sub(bus, Imm8),
            0xd7 => self.rst_addr(bus, 0x10),
            0xd8 => self.ret_c(bus, Cond::C),
            0xd9 => self.reti(bus),
            0xda => self.jp_c(bus, Cond::C),
            0xdb => self.illegal(),
            0xdc => self.call_c(bus, Cond::C),
            0xdd => self.illegal(),
            0xde => self.sbc(bus, Imm8),
            0xdf => self.rst_addr(bus, 0x18),
            _ => {},
        }
    }

    /// The opcodes `E0`-`EF` of the main table.
    fn main_row_e(&mut self, bus: &mut Peripherals)
        requires
            !old(self).ctx.cb,
            old(self).ctx.opcode / 16 == 14,
        ensures
            (*final(self), final(bus)@) == decode_model(*old(self), old(bus)@),
    {
        match self.ctx.opcode {
            0xe0 => self.ld(bus, Direct8::DFF, Reg8::A),
            0xe1 => self.pop(bus, Reg16::HL),
            0xe2 => self.ld(bus, Indirect::CFF, Reg8::A),
            0xe3 => self.illegal(),
            0xe4 => self.illegal(),
            0xe5 => self.push(bus, Reg16::HL),
            0xe6 => self.and(bus, Imm8),
            0xe7 => self.rst_addr(bus, 0x20),
            0xe8 => self.add_sp_e(bus),
            0xe9 => self.jp_hl(bus),
            0xea => self.ld(bus, Direct8::D, Reg8::A),
            0xeb => self.illegal(),
            0xec => self.illegal(),
            0xed => self.illegal(),
            0xee => self.xor(bus, Imm8),
            0xef => self.rst_addr(bus, 0x28),
            _ => {},
        }
    }

    /// The opcodes `F0`-`FF` of the main table.
    fn main_row_f(&mut self, bus: &mut Peripherals)
        requires
            !old(self).ctx.cb,
            old(self).ctx.opcode / 16 == 15,
        ensures
            (*final(self), final(bus)@) == decode_model(*old(self), old(bus)@),
    {
        match self.ctx.opcode {
            0xf0 => self.ld(bus, Reg8::A, Direct8::DFF),
            0xf1 => self.pop(bus, Reg16::AF),
            0xf2 => self.ld(bus, Reg8::A, Indirect::CFF),
            0xf3 => self.di(bus),
            0xf4 => self.illegal(),
            0xf5 => self.push(bus, Reg16::AF),
            0xf6 => self.or(bus, Imm8),
            0xf7 => self.rst_addr(bus, 0x30),
            0xf8 => self.ld_hl_sp_e(bus),
            0xf9 => self.ld_sp_hl(bus),
            0xfa => self.ld(bus, Reg8::A, Direct8::D),
            0xfb => self.ei(bus),
            0xfc => self.illegal(),
            0xfd => self.illegal(),
            0xfe => self.cp(bus, Imm8),
            0xff => self.rst_addr(bus, 0x38),
            _ => {},
        }
    }

    /// Runs one machine cycle of the opcode under way.
    pub fn decode(&mut self, bus: &mut Peripherals)
        ensures
            (*final(self), final(bus)@) == decode_model(*old(self), old(bus)@),
    {
        if self.ctx.cb {
            self.cb_decode(bus);
            return ;
        }
        match self.ctx.opcode / 16 {
            0 => self.main_row_0(bus),
            1 => self.main_row_1(bus),
            2 => self.main_row_2(bus),
            3 => self.main_row_3(bus),
            4 => self.main_row_4(bus),
            5 => self.main_row_5(bus),
            6 => self.main_row_6(bus),
            7 => self.main_row_7(bus),
            8 => self.main_row_8(bus),
            9 => self.main_row_9(bus),
            10 => self.main_row_a(bus),
            11 => self.main_row_b(bus),
            12 => self.main_row_c(bus),
            13 => self.main_row_d(bus),
            14 => self.main_row_e(bus),
            _ => self.main_row_f(bus),
        }
    }
}

} // verus!
