//! The instructions. Each routine advances its instruction by one machine
//! cycle: it goes as far as it can without a second bus access, records
//! where it stands, and in its last cycle fetches the next opcode.
//!
//! For every routine a function of the same name with `_model` appended
//! gives the processor and the bus after one call.
use vstd::prelude::*;
use crate::alu::{displace, displaced, Alu, Modify, Shift};
use crate::cpu::{fetch_model, Cpu, Ctx, Latch};
use crate::operand::{
    read16_model, read8_model, read_imm8, write16_model, write8_model, Cond, Imm16, Imm8,
    Operand16, Operand8, Reg16, IO16, IO8,
};
use crate::peripherals::{BusView, Peripherals};
use crate::register::{word, Registres};

verus! {

impl Registres {
    /// Whether the flags meet `cond`.
    pub open spec fn meets(self, cond: Cond) -> bool {
        match cond {
            Cond::NZ => !self.zf(),
            Cond::Z => self.zf(),
            Cond::NC => !self.cf(),
            Cond::C => self.cf(),
        }
    }

    /// The registers with PC replaced.
    pub open spec fn with_pc(self, pc: u16) -> Registres {
        Registres { pc, ..self }
    }

    /// The registers with SP replaced.
    pub open spec fn with_sp(self, sp: u16) -> Registres {
        Registres { sp, ..self }
    }
}

/// The last cycle of an instruction: the next opcode is fetched.
#[verifier::opaque]
pub open spec fn nop_model(cpu: Cpu, bus: BusView) -> (Cpu, BusView) {
    (fetch_model(cpu, bus), bus)
}

/// An accumulator operation: once the operand is read, the operation is
/// done and the next opcode fetched in the same cycle.
#[verifier::opaque]
pub open spec fn alu_model(cpu: Cpu, bus: BusView, op: Alu, src: Operand8) -> (Cpu, BusView) {
    let (c, r) = read8_model(cpu, bus, src);
    match r {
        Some(v) => (fetch_model(c.with_regs(c.regs.after_alu(op, v)), bus), bus),
        None => (c, bus),
    }
}

/// An 8-bit load: read the source, write the destination, fetch; each
/// part starts in the cycle in which the one before it completes.
#[verifier::opaque]
pub open spec fn ld_model(cpu: Cpu, bus: BusView, dst: Operand8, src: Operand8) -> (Cpu, BusView) {
    let c0 = if cpu.ctx.step == 0 {
        let (c, r) = read8_model(cpu, bus, src);
        match r {
            Some(v) => c.holding8(v).at_step(1),
            None => c,
        }
    } else {
        cpu
    };
    let (c1, b1) = if c0.ctx.step == 1 {
        let (c, b, done) = write8_model(c0, bus, dst, c0.ctx.val8);
        (if done { c.at_step(2) } else { c }, b)
    } else {
        (c0, bus)
    };
    if c1.ctx.step == 2 {
        (fetch_model(c1, b1), b1)
    } else {
        (c1, b1)
    }
}

/// A 16-bit load, in the same three parts as an 8-bit load.
#[verifier::opaque]
pub open spec fn ld16_model(cpu: Cpu, bus: BusView, dst: Operand16, src: Operand16) -> (
    Cpu,
    BusView,
) {
    let c0 = if cpu.ctx.step == 0 {
        let (c, r) = read16_model(cpu, bus, src);
        match r {
            Some(v) => c.holding16(v).at_step(1),
            None => c,
        }
    } else {
        cpu
    };
    let (c1, b1) = if c0.ctx.step == 1 {
        let (c, b, done) = write16_model(c0, bus, dst, c0.ctx.val16);
        (if done { c.at_step(2) } else { c }, b)
    } else {
        (c0, bus)
    };
    if c1.ctx.step == 2 {
        (fetch_model(c1, b1), b1)
    } else {
        (c1, b1)
    }
}

/// An operation that reads an operand, changes it and writes it back; the
/// next opcode is fetched in the cycle in which the write completes.
#[verifier::opaque]
pub open spec fn modify_model(cpu: Cpu, bus: BusView, op: Modify, at: Operand8) -> (Cpu, BusView) {
    let c0 = if cpu.ctx.step == 0 {
        let (c, r) = read8_model(cpu, bus, at);
        match r {
            Some(v) => {
                let (regs, out) = c.regs.after_modify(op, v);
                c.with_regs(regs).holding8(out).at_step(1)
            },
            None => c,
        }
    } else {
        cpu
    };
    if c0.ctx.step == 1 {
        let (c, b, done) = write8_model(c0, bus, at, c0.ctx.val8);
        if done {
            (fetch_model(c, b), b)
        } else {
            (c, b)
        }
    } else {
        (c0, bus)
    }
}

/// A 16-bit increment (`up`) or decrement: the operand changes in the
/// first cycle, the next opcode is fetched in a cycle of its own. No
/// flag changes.
#[verifier::opaque]
pub open spec fn step16_model(cpu: Cpu, bus: BusView, up: bool, at: Operand16) -> (Cpu, BusView) {
    let c0 = if cpu.ctx.step == 0 {
        let (c, r) = read16_model(cpu, bus, at);
        match r {
            Some(v) => c.holding16(if up { v.wrapping_add(1) } else { v.wrapping_sub(1) }).at_step(1),
            None => c,
        }
    } else {
        cpu
    };
    if c0.ctx.step == 1 {
        let (c, b, done) = write16_model(c0, bus, at, c0.ctx.val16);
        (if done { c.at_step(2) } else { c }, b)
    } else if c0.ctx.step == 2 {
        (fetch_model(c0, bus), bus)
    } else {
        (c0, bus)
    }
}

/// A rotate of the accumulator.
#[verifier::opaque]
pub open spec fn rotate_a_model(cpu: Cpu, bus: BusView, kind: Shift) -> (Cpu, BusView) {
    (fetch_model(cpu.with_regs(cpu.regs.after_rotate_a(kind)), bus), bus)
}

/// BIT: once the operand is read, the flags are set and the next opcode
/// fetched in the same cycle.
#[verifier::opaque]
pub open spec fn bit_model(cpu: Cpu, bus: BusView, n: u8, src: Operand8) -> (Cpu, BusView) {
    let (c, r) = read8_model(cpu, bus, src);
    match r {
        Some(v) => (fetch_model(c.with_regs(c.regs.after_bit(n, v)), bus), bus),
        None => (c, bus),
    }
}

/// JP: the target is read, then the jump takes a cycle of its own.
#[verifier::opaque]
pub open spec fn jp_model(cpu: Cpu, bus: BusView) -> (Cpu, BusView) {
    if cpu.ctx.step == 0 {
        let (c, r) = read16_model(cpu, bus, Operand16::Imm);
        match r {
            Some(v) => (c.holding16(v).at_step(1), bus),
            None => (c, bus),
        }
    } else {
        (fetch_model(cpu.with_regs(cpu.regs.with_pc(cpu.ctx.val16)), bus), bus)
    }
}

/// JP HL.
#[verifier::opaque]
pub open spec fn jp_hl_model(cpu: Cpu, bus: BusView) -> (Cpu, BusView) {
    (fetch_model(cpu.with_regs(cpu.regs.with_pc(cpu.regs.hl())), bus), bus)
}

/// JP cc: as JP when the condition holds; otherwise the next opcode is
/// fetched in the cycle in which the target has been read.
#[verifier::opaque]
pub open spec fn jp_c_model(cpu: Cpu, bus: BusView, cond: Cond) -> (Cpu, BusView) {
    if cpu.ctx.step == 0 {
        let (c, r) = read16_model(cpu, bus, Operand16::Imm);
        match r {
            Some(v) => if c.regs.meets(cond) {
                (c.holding16(v).at_step(1), bus)
            } else {
                (fetch_model(c.holding16(v), bus), bus)
            },
            None => (c, bus),
        }
    } else {
        (fetch_model(cpu.with_regs(cpu.regs.with_pc(cpu.ctx.val16)), bus), bus)
    }
}

/// JR: the offset is read and added to PC, then the jump takes a cycle of
/// its own.
#[verifier::opaque]
pub open spec fn jr_model(cpu: Cpu, bus: BusView) -> (Cpu, BusView) {
    if cpu.ctx.step == 0 {
        let (c, r) = read_imm8(cpu, bus);
        match r {
            Some(e) => (c.with_regs(c.regs.with_pc(displace(c.regs.pc, e))).at_step(1), bus),
            None => (c, bus),
        }
    } else {
        (fetch_model(cpu, bus), bus)
    }
}

/// JR cc: as JR when the condition holds; otherwise the next opcode is
/// fetched in the cycle in which the offset has been read.
#[verifier::opaque]
pub open spec fn jr_c_model(cpu: Cpu, bus: BusView, cond: Cond) -> (Cpu, BusView) {
    if cpu.ctx.step == 0 {
        let (c, r) = read_imm8(cpu, bus);
        match r {
            Some(e) => if c.regs.meets(cond) {
                (c.with_regs(c.regs.with_pc(displace(c.regs.pc, e))).at_step(1), bus)
            } else {
                (fetch_model(c, bus), bus)
            },
            None => (c, bus),
        }
    } else {
        (fetch_model(cpu, bus), bus)
    }
}

/// One call of the push of `val`: a cycle without bus access, the high
/// byte to SP - 1, the low byte to SP - 2, then done.
pub open spec fn push16_model(cpu: Cpu, bus: BusView, val: u16) -> (Cpu, BusView, bool) {
    let sp = cpu.regs.sp.wrapping_sub(1);
    if cpu.ctx.operand.step == 0 {
        (cpu.operand_at(1), bus, false)
    } else if cpu.ctx.operand.step == 1 {
        (
            cpu.with_regs(cpu.regs.with_sp(sp)).with_operand(
                Latch { step: 2, val8: (val % 256) as u8, ..cpu.ctx.operand },
            ),
            bus.write(sp, (val / 256) as u8),
            false,
        )
    } else if cpu.ctx.operand.step == 2 {
        (
            cpu.with_regs(cpu.regs.with_sp(sp)).operand_at(3),
            bus.write(sp, cpu.ctx.operand.val8),
            false,
        )
    } else {
        (cpu.operand_at(0), bus, true)
    }
}

/// One call of the pop of a word: the low byte from SP, the high byte
/// from SP + 1, then the word.
pub open spec fn pop16_model(cpu: Cpu, bus: BusView) -> (Cpu, Option<u16>) {
    let sp = cpu.regs.sp.wrapping_add(1);
    if cpu.ctx.operand.step == 0 {
        (
            cpu.with_regs(cpu.regs.with_sp(sp)).with_operand(
                Latch { step: 1, val8: bus.read(cpu.regs.sp), ..cpu.ctx.operand },
            ),
            None,
        )
    } else if cpu.ctx.operand.step == 1 {
        (
            cpu.with_regs(cpu.regs.with_sp(sp)).with_operand(
                Latch {
                    step: 2,
                    val16: word(bus.read(cpu.regs.sp), cpu.ctx.operand.val8),
                    ..cpu.ctx.operand
                },
            ),
            None,
        )
    } else {
        (cpu.operand_at(0), Some(cpu.ctx.operand.val16))
    }
}

/// PUSH: the register is read, pushed, and the next opcode fetched in the
/// cycle in which the push completes.
#[verifier::opaque]
pub open spec fn push_model(cpu: Cpu, bus: BusView, src: Reg16) -> (Cpu, BusView) {
    let c0 = if cpu.ctx.step == 0 {
        cpu.holding16(cpu.regs.reg16(src)).at_step(1)
    } else {
        cpu
    };
    let (c1, b1) = if c0.ctx.step == 1 {
        let (c, b, done) = push16_model(c0, bus, c0.ctx.val16);
        (if done { c.at_step(2) } else { c }, b)
    } else {
        (c0, bus)
    };
    if c1.ctx.step == 2 {
        (fetch_model(c1, b1), b1)
    } else {
        (c1, b1)
    }
}

/// POP: the register is written and the next opcode fetched in the cycle
/// in which the pop completes.
#[verifier::opaque]
pub open spec fn pop_model(cpu: Cpu, bus: BusView, dst: Reg16) -> (Cpu, BusView) {
    let (c, r) = pop16_model(cpu, bus);
    match r {
        Some(v) => (fetch_model(c.with_regs(c.regs.with_reg16(dst, v)), bus), bus),
        None => (c, bus),
    }
}

/// The second part of a call: PC is pushed; in the cycle in which the
/// push completes PC takes the target held in `val16` and the next opcode
/// is fetched.
#[verifier::opaque]
pub open spec fn call_push(cpu: Cpu, bus: BusView) -> (Cpu, BusView) {
    let (c, b, done) = push16_model(cpu, bus, cpu.regs.pc);
    if done {
        (fetch_model(c.with_regs(c.regs.with_pc(c.ctx.val16)), b), b)
    } else {
        (c, b)
    }
}

/// CALL: the target is read, then PC is pushed and replaced.
#[verifier::opaque]
pub open spec fn call_model(cpu: Cpu, bus: BusView) -> (Cpu, BusView) {
    if cpu.ctx.step == 0 {
        let (c, r) = read16_model(cpu, bus, Operand16::Imm);
        match r {
            Some(v) => call_push(c.holding16(v).at_step(1), bus),
            None => (c, bus),
        }
    } else {
        call_push(cpu, bus)
    }
}

/// CALL cc: as CALL when the condition holds; otherwise the next opcode
/// is fetched in the cycle in which the target has been read.
#[verifier::opaque]
pub open spec fn call_c_model(cpu: Cpu, bus: BusView, cond: Cond) -> (Cpu, BusView) {
    if cpu.ctx.step == 0 {
        let (c, r) = read16_model(cpu, bus, Operand16::Imm);
        match r {
            Some(v) => if c.regs.meets(cond) {
                call_push(c.holding16(v).at_step(1), bus)
            } else {
                (fetch_model(c.holding16(v), bus), bus)
            },
            None => (c, bus),
        }
    } else {
        call_push(cpu, bus)
    }
}

/// RET: PC is popped, then the return takes a cycle of its own.
#[verifier::opaque]
pub open spec fn ret_model(cpu: Cpu, bus: BusView) -> (Cpu, BusView) {
    if cpu.ctx.step == 0 {
        let (c, r) = pop16_model(cpu, bus);
        match r {
            Some(v) => (c.with_regs(c.regs.with_pc(v)).at_step(1), bus),
            None => (c, bus),
        }
    } else {
        (fetch_model(cpu, bus), bus)
    }
}

/// RET cc: one cycle for the test of the condition; then as RET when it
/// holds, and the fetch of the next opcode when it does not.
#[verifier::opaque]
pub open spec fn ret_c_model(cpu: Cpu, bus: BusView, cond: Cond) -> (Cpu, BusView) {
    if cpu.ctx.step == 0 {
        (cpu.at_step(if cpu.regs.meets(cond) { 1 } else { 2 }), bus)
    } else if cpu.ctx.step == 1 {
        let (c, r) = pop16_model(cpu, bus);
        match r {
            Some(v) => (c.with_regs(c.regs.with_pc(v)).at_step(2), bus),
            None => (c, bus),
        }
    } else {
        (fetch_model(cpu, bus), bus)
    }
}

/// RETI: as RET, and the master enable is raised in the last cycle.
#[verifier::opaque]
pub open spec fn reti_model(cpu: Cpu, bus: BusView) -> (Cpu, BusView) {
    if cpu.ctx.step == 0 {
        let (c, r) = pop16_model(cpu, bus);
        match r {
            Some(v) => (c.with_regs(c.regs.with_pc(v)).at_step(1), bus),
            None => (c, bus),
        }
    } else {
        let b = BusView { irq: bus.irq.set_ime(true), ..bus };
        (fetch_model(cpu, b), b)
    }
}

/// RST: PC is pushed; in the cycle in which the push completes PC becomes
/// `addr` and the next opcode is fetched.
#[verifier::opaque]
pub open spec fn rst_model(cpu: Cpu, bus: BusView, addr: u8) -> (Cpu, BusView) {
    let (c, b, done) = push16_model(cpu, bus, cpu.regs.pc);
    if done {
        (fetch_model(c.with_regs(c.regs.with_pc(addr as u16)), b), b)
    } else {
        (c, b)
    }
}

/// LD SP,HL.
#[verifier::opaque]
pub open spec fn ld_sp_hl_model(cpu: Cpu, bus: BusView) -> (Cpu, BusView) {
    (fetch_model(cpu.with_regs(cpu.regs.with_sp(cpu.regs.hl())), bus), bus)
}

/// LD HL,SP+e: HL and the flags change in the cycle in which the offset
/// has been read; the next opcode is fetched in a cycle of its own.
#[verifier::opaque]
pub open spec fn ld_hl_sp_e_model(cpu: Cpu, bus: BusView) -> (Cpu, BusView) {
    if cpu.ctx.step == 0 {
        let (c, r) = read_imm8(cpu, bus);
        match r {
            Some(e) => (
                c.with_regs(c.regs.after_sp_offset(e).with_hl(displace(c.regs.sp, e))).at_step(1),
                bus,
            ),
            None => (c, bus),
        }
    } else {
        (fetch_model(cpu, bus), bus)
    }
}

/// ADD HL,rr: the sum in the first cycle, the fetch in the second.
#[verifier::opaque]
pub open spec fn add_hl_reg16_model(cpu: Cpu, bus: BusView, reg: Reg16) -> (Cpu, BusView) {
    if cpu.ctx.step == 0 {
        (cpu.with_regs(cpu.regs.after_add_hl(cpu.regs.reg16(reg))).at_step(1), bus)
    } else {
        (fetch_model(cpu, bus), bus)
    }
}

/// ADD SP,e: the offset is read; SP and the flags change in the next
/// cycle; the next opcode is fetched in the cycle after that.
#[verifier::opaque]
pub open spec fn add_sp_e_model(cpu: Cpu, bus: BusView) -> (Cpu, BusView) {
    if cpu.ctx.step == 0 {
        let (c, r) = read_imm8(cpu, bus);
        match r {
            Some(e) => (c.holding8(e).at_step(1), bus),
            None => (c, bus),
        }
    } else if cpu.ctx.step == 1 {
        let e = cpu.ctx.val8;
        (
            cpu.with_regs(cpu.regs.after_sp_offset(e).with_sp(displace(cpu.regs.sp, e))).at_step(2),
            bus,
        )
    } else {
        (fetch_model(cpu, bus), bus)
    }
}

/// DAA.
#[verifier::opaque]
pub open spec fn daa_model(cpu: Cpu, bus: BusView) -> (Cpu, BusView) {
    (fetch_model(cpu.with_regs(cpu.regs.after_daa()), bus), bus)
}

/// CPL.
#[verifier::opaque]
pub open spec fn cpl_model(cpu: Cpu, bus: BusView) -> (Cpu, BusView) {
    (fetch_model(cpu.with_regs(cpu.regs.after_cpl()), bus), bus)
}

/// SCF.
#[verifier::opaque]
pub open spec fn scf_model(cpu: Cpu, bus: BusView) -> (Cpu, BusView) {
    (fetch_model(cpu.with_regs(cpu.regs.after_scf()), bus), bus)
}

/// CCF.
#[verifier::opaque]
pub open spec fn ccf_model(cpu: Cpu, bus: BusView) -> (Cpu, BusView) {
    (fetch_model(cpu.with_regs(cpu.regs.after_ccf()), bus), bus)
}

/// EI: the next opcode is fetched and the raising of the master enable
/// is left pending.
#[verifier::opaque]
pub open spec fn ei_model(cpu: Cpu, bus: BusView) -> (Cpu, BusView) {
    let c = fetch_model(cpu, bus);
    (Cpu { ctx: Ctx { ime_pending: true, ..c.ctx }, ..c }, bus)
}

/// DI: the master enable is cleared at once, and so is a pending EI.
#[verifier::opaque]
pub open spec fn di_model(cpu: Cpu, bus: BusView) -> (Cpu, BusView) {
    let b = BusView { irq: bus.irq.set_ime(false), ..bus };
    let c = fetch_model(cpu, b);
    (Cpu { ctx: Ctx { ime_pending: false, ..c.ctx }, ..c }, b)
}

/// HALT: nothing happens until a source is both enabled and pending;
/// then the next opcode is fetched. This holds as well when HALT is met
/// with the master enable clear and a source already pending: the byte
/// after HALT is read once, not twice.
#[verifier::opaque]
pub open spec fn halt_model(cpu: Cpu, bus: BusView) -> (Cpu, BusView) {
    if bus.irq.pending() != 0 {
        (fetch_model(cpu, bus), bus)
    } else {
        (cpu.at_step(1), bus)
    }
}

impl Cpu {
    /// NOP: does nothing but fetch the next opcode.
    pub fn nop(&mut self, bus: &Peripherals)
        ensures
            (*final(self), bus@) == nop_model(*old(self), bus@),
    {
        proof {
            reveal(nop_model);
        }
        self.fetch(bus);
    }

    /// STOP does what NOP does.
    pub fn stop(&mut self, bus: &Peripherals)
        ensures
            (*final(self), bus@) == nop_model(*old(self), bus@),
    {
        proof {
            reveal(nop_model);
        }
        self.fetch(bus);
    }

    fn alu<S: Copy>(&mut self, bus: &Peripherals, op: Alu, src: S) where Self: IO8<S>
        ensures
            (*final(self), bus@) == alu_model(*old(self), bus@, op, <Cpu as IO8<S>>::operand8(src)),
    {
        proof {
            reveal(alu_model);
        }
        if let Some(v) = self.read8(bus, src) {
            self.regs.apply_alu(op, v);
            self.fetch(bus);
        }
    }

    /// ADD A,s.
    pub fn add<S: Copy>(&mut self, bus: &mut Peripherals, src: S) where Self: IO8<S>
        ensures
            (*final(self), final(bus)@) == alu_model(
                *old(self),
                old(bus)@,
                Alu::Add,
                <Cpu as IO8<S>>::operand8(src),
            ),
    {
        self.alu(bus, Alu::Add, src)
    }

    /// ADC A,s: adds the operand and the carry flag.
    pub fn adc<S: Copy>(&mut self, bus: &mut Peripherals, src: S) where Self: IO8<S>
        ensures
            (*final(self), final(bus)@) == alu_model(
                *old(self),
                old(bus)@,
                Alu::Adc,
                <Cpu as IO8<S>>::operand8(src),
            ),
    {
        self.alu(bus, Alu::Adc, src)
    }

    /// SUB s.
    pub fn sub<S: Copy>(&mut self, bus: &mut Peripherals, src: S) where Self: IO8<S>
        ensures
            (*final(self), final(bus)@) == alu_model(
                *old(self),
                old(bus)@,
                Alu::Sub,
                <Cpu as IO8<S>>::operand8(src),
            ),
    {
        self.alu(bus, Alu::Sub, src)
    }

    /// SBC A,s: subtracts the operand and the carry flag.
    pub fn sbc<S: Copy>(&mut self, bus: &mut Peripherals, src: S) where Self: IO8<S>
        ensures
            (*final(self), final(bus)@) == alu_model(
                *old(self),
                old(bus)@,
                Alu::Sbc,
                <Cpu as IO8<S>>::operand8(src),
            ),
    {
        self.alu(bus, Alu::Sbc, src)
    }

    /// AND s.
    pub fn and<S: Copy>(&mut self, bus: &mut Peripherals, src: S) where Self: IO8<S>
        ensures
            (*final(self), final(bus)@) == alu_model(
                *old(self),
                old(bus)@,
                Alu::And,
                <Cpu as IO8<S>>::operand8(src),
            ),
    {
        self.alu(bus, Alu::And, src)
    }

    /// OR s.
    pub fn or<S: Copy>(&mut self, bus: &mut Peripherals, src: S) where Self: IO8<S>
        ensures
            (*final(self), final(bus)@) == alu_model(
                *old(self),
                old(bus)@,
                Alu::Or,
                <Cpu as IO8<S>>::operand8(src),
            ),
    {
        self.alu(bus, Alu::Or, src)
    }

    /// XOR s.
    pub fn xor<S: Copy>(&mut self, bus: &mut Peripherals, src: S) where Self: IO8<S>
        ensures
            (*final(self), final(bus)@) == alu_model(
                *old(self),
                old(bus)@,
                Alu::Xor,
                <Cpu as IO8<S>>::operand8(src),
            ),
    {
        self.alu(bus, Alu::Xor, src)
    }

    /// CP s: sets the flags as SUB does and leaves A alone.
    pub fn cp<S: Copy>(&mut self, bus: &Peripherals, src: S) where Self: IO8<S>
        ensures
            (*final(self), bus@) == alu_model(
                *old(self),
                bus@,
                Alu::Cp,
                <Cpu as IO8<S>>::operand8(src),
            ),
    {
        self.alu(bus, Alu::Cp, src)
    }

    /// LD d,s for bytes.
    pub fn ld<D: Copy, S: Copy>(&mut self, bus: &mut Peripherals, dst: D, src: S) where
        Self: IO8<D> + IO8<S>,

        requires
            <Cpu as IO8<D>>::operand8(dst).writable(),
        ensures
            (*final(self), final(bus)@) == ld_model(
                *old(self),
                old(bus)@,
                <Cpu as IO8<D>>::operand8(dst),
                <Cpu as IO8<S>>::operand8(src),
            ),
    {
        proof {
            reveal(ld_model);
        }
        if self.ctx.step == 0 {
            if let Some(v) = self.read8(bus, src) {
                self.ctx.val8 = v;
                self.ctx.step = 1;
            }
        }
        if self.ctx.step == 1 {
            if self.write8(bus, dst, self.ctx.val8).is_some() {
                self.ctx.step = 2;
            }
        }
        if self.ctx.step == 2 {
            self.fetch(bus);
        }
    }

    /// LD d,s for words.
    pub fn ld16<D: Copy, S: Copy>(&mut self, bus: &mut Peripherals, dst: D, src: S) where
        Self: IO16<D> + IO16<S>,

        requires
            <Cpu as IO16<S>>::operand16(src).readable(),
            <Cpu as IO16<D>>::operand16(dst).writable(),
        ensures
            (*final(self), final(bus)@) == ld16_model(
                *old(self),
                old(bus)@,
                <Cpu as IO16<D>>::operand16(dst),
                <Cpu as IO16<S>>::operand16(src),
            ),
    {
        proof {
            reveal(ld16_model);
        }
        if self.ctx.step == 0 {
            if let Some(v) = self.read16(bus, src) {
                self.ctx.val16 = v;
                self.ctx.step = 1;
            }
        }
        if self.ctx.step == 1 {
            if self.write16(bus, dst, self.ctx.val16).is_some() {
                self.ctx.step = 2;
            }
        }
        if self.ctx.step == 2 {
            self.fetch(bus);
        }
    }

    fn modify<S: Copy>(&mut self, bus: &mut Peripherals, op: Modify, at: S) where Self: IO8<S>
        requires
            op.wf(),
            <Cpu as IO8<S>>::operand8(at).writable(),
        ensures
            (*final(self), final(bus)@) == modify_model(
                *old(self),
                old(bus)@,
                op,
                <Cpu as IO8<S>>::operand8(at),
            ),
    {
        proof {
            reveal(modify_model);
        }
        if self.ctx.step == 0 {
            if let Some(v) = self.read8(bus, at) {
                self.ctx.val8 = self.regs.apply_modify(op, v);
                self.ctx.step = 1;
            }
        }
        if self.ctx.step == 1 {
            if self.write8(bus, at, self.ctx.val8).is_some() {
                self.fetch(bus);
            }
        }
    }

    /// INC s for a byte.
    pub fn inc<S: Copy>(&mut self, bus: &mut Peripherals, src: S) where Self: IO8<S>
        requires
            <Cpu as IO8<S>>::operand8(src).writable(),
        ensures
            (*final(self), final(bus)@) == modify_model(
                *old(self),
                old(bus)@,
                Modify::Inc,
                <Cpu as IO8<S>>::operand8(src),
            ),
    {
        self.modify(bus, Modify::Inc, src)
    }

    /// DEC s for a byte.
    pub fn dec<S: Copy>(&mut self, bus: &mut Peripherals, src: S) where Self: IO8<S>
        requires
            <Cpu as IO8<S>>::operand8(src).writable(),
        ensures
            (*final(self), final(bus)@) == modify_model(
                *old(self),
                old(bus)@,
                Modify::Dec,
                <Cpu as IO8<S>>::operand8(src),
            ),
    {
        self.modify(bus, Modify::Dec, src)
    }

    fn step16<S: Copy>(&mut self, bus: &mut Peripherals, up: bool, at: S) where Self: IO16<S>
        requires
            <Cpu as IO16<S>>::operand16(at).readable(),
            <Cpu as IO16<S>>::operand16(at).writable(),
        ensures
            (*final(self), final(bus)@) == step16_model(
                *old(self),
                old(bus)@,
                up,
                <Cpu as IO16<S>>::operand16(at),
            ),
    {
        proof {
            reveal(step16_model);
        }
        if self.ctx.step == 0 {
            if let Some(v) = self.read16(bus, at) {
                self.ctx.val16 = if up { v.wrapping_add(1) } else { v.wrapping_sub(1) };
                self.ctx.step = 1;
            }
        }
        if self.ctx.step == 1 {
            if self.write16(bus, at, self.ctx.val16).is_some() {
                self.ctx.step = 2;
            }
        } else if self.ctx.step == 2 {
            self.fetch(bus);
        }
    }

    /// INC rr.
    pub fn inc16<S: Copy>(&mut self, bus: &mut Peripherals, src: S) where Self: IO16<S>
        requires
            <Cpu as IO16<S>>::operand16(src).readable(),
            <Cpu as IO16<S>>::operand16(src).writable(),
        ensures
            (*final(self), final(bus)@) == step16_model(
                *old(self),
                old(bus)@,
                true,
                <Cpu as IO16<S>>::operand16(src),
            ),
    {
        self.step16(bus, true, src)
    }

    /// DEC rr.
    pub fn dec16<S: Copy>(&mut self, bus: &mut Peripherals, src: S) where Self: IO16<S>
        requires
            <Cpu as IO16<S>>::operand16(src).readable(),
            <Cpu as IO16<S>>::operand16(src).writable(),
        ensures
            (*final(self), final(bus)@) == step16_model(
                *old(self),
                old(bus)@,
                false,
                <Cpu as IO16<S>>::operand16(src),
            ),
    {
        self.step16(bus, false, src)
    }
}

impl Cpu {
    /// Rotate left through the carry flag.
    pub fn rl<S: Copy>(&mut self, bus: &mut Peripherals, src: S) where Self: IO8<S>
        requires
            <Cpu as IO8<S>>::operand8(src).writable(),
        ensures
            (*final(self), final(bus)@) == modify_model(
                *old(self),
                old(bus)@,
                Modify::Shift(Shift::Rl),
                <Cpu as IO8<S>>::operand8(src),
            ),
    {
        self.modify(bus, Modify::Shift(Shift::Rl), src)
    }

    /// Rotate the accumulator left.
    pub fn rlca(&mut self, bus: &mut Peripherals)
        ensures
            (*final(self), final(bus)@) == rotate_a_model(*old(self), old(bus)@, Shift::Rlc),
    {
        proof {
            reveal(rotate_a_model);
        }
        self.regs.rotate_a(Shift::Rlc);
        self.fetch(bus);
    }

    /// Rotate the accumulator left through the carry flag.
    pub fn rla(&mut self, bus: &mut Peripherals)
        ensures
            (*final(self), final(bus)@) == rotate_a_model(*old(self), old(bus)@, Shift::Rl),
    {
        proof {
            reveal(rotate_a_model);
        }
        self.regs.rotate_a(Shift::Rl);
        self.fetch(bus);
    }

    /// Rotate the accumulator right.
    pub fn rrca(&mut self, bus: &mut Peripherals)
        ensures
            (*final(self), final(bus)@) == rotate_a_model(*old(self), old(bus)@, Shift::Rrc),
    {
        proof {
            reveal(rotate_a_model);
        }
        self.regs.rotate_a(Shift::Rrc);
        self.fetch(bus);
    }

    /// Rotate the accumulator right through the carry flag.
    pub fn rra(&mut self, bus: &mut Peripherals)
        ensures
            (*final(self), final(bus)@) == rotate_a_model(*old(self), old(bus)@, Shift::Rr),
    {
        proof {
            reveal(rotate_a_model);
        }
        self.regs.rotate_a(Shift::Rr);
        self.fetch(bus);
    }

    /// Rotate left.
    pub fn rlc<S: Copy>(&mut self, bus: &mut Peripherals, src: S) where Self: IO8<S>
        requires
            <Cpu as IO8<S>>::operand8(src).writable(),
        ensures
            (*final(self), final(bus)@) == modify_model(
                *old(self),
                old(bus)@,
                Modify::Shift(Shift::Rlc),
                <Cpu as IO8<S>>::operand8(src),
            ),
    {
        self.modify(bus, Modify::Shift(Shift::Rlc), src)
    }

    /// Rotate right.
    pub fn rrc<S: Copy>(&mut self, bus: &mut Peripherals, src: S) where Self: IO8<S>
        requires
            <Cpu as IO8<S>>::operand8(src).writable(),
        ensures
            (*final(self), final(bus)@) == modify_model(
                *old(self),
                old(bus)@,
                Modify::Shift(Shift::Rrc),
                <Cpu as IO8<S>>::operand8(src),
            ),
    {
        self.modify(bus, Modify::Shift(Shift::Rrc), src)
    }

    /// Rotate right through the carry flag.
    pub fn rr<S: Copy>(&mut self, bus: &mut Peripherals, src: S) where Self: IO8<S>
        requires
            <Cpu as IO8<S>>::operand8(src).writable(),
        ensures
            (*final(self), final(bus)@) == modify_model(
                *old(self),
                old(bus)@,
                Modify::Shift(Shift::Rr),
                <Cpu as IO8<S>>::operand8(src),
            ),
    {
        self.modify(bus, Modify::Shift(Shift::Rr), src)
    }

    /// Shift left; bit 0 becomes zero.
    pub fn sla<S: Copy>(&mut self, bus: &mut Peripherals, src: S) where Self: IO8<S>
        requires
            <Cpu as IO8<S>>::operand8(src).writable(),
        ensures
            (*final(self), final(bus)@) == modify_model(
                *old(self),
                old(bus)@,
                Modify::Shift(Shift::Sla),
                <Cpu as IO8<S>>::operand8(src),
            ),
    {
        self.modify(bus, Modify::Shift(Shift::Sla), src)
    }

    /// Shift right; bit 7 stays.
    pub fn sra<S: Copy>(&mut self, bus: &mut Peripherals, src: S) where Self: IO8<S>
        requires
            <Cpu as IO8<S>>::operand8(src).writable(),
        ensures
            (*final(self), final(bus)@) == modify_model(
                *old(self),
                old(bus)@,
                Modify::Shift(Shift::Sra),
                <Cpu as IO8<S>>::operand8(src),
            ),
    {
        self.modify(bus, Modify::Shift(Shift::Sra), src)
    }

    /// Shift right; bit 7 becomes zero.
    pub fn srl<S: Copy>(&mut self, bus: &mut Peripherals, src: S) where Self: IO8<S>
        requires
            <Cpu as IO8<S>>::operand8(src).writable(),
        ensures
            (*final(self), final(bus)@) == modify_model(
                *old(self),
                old(bus)@,
                Modify::Shift(Shift::Srl),
                <Cpu as IO8<S>>::operand8(src),
            ),
    {
        self.modify(bus, Modify::Shift(Shift::Srl), src)
    }

    /// Sets bit `num` of the operand.
    pub fn set<S: Copy>(&mut self, bus: &mut Peripherals, num: usize, src: S) where Self: IO8<S>
        requires
            num < 8,
            <Cpu as IO8<S>>::operand8(src).writable(),
        ensures
            (*final(self), final(bus)@) == modify_model(
                *old(self),
                old(bus)@,
                Modify::SetBit(num as u8),
                <Cpu as IO8<S>>::operand8(src),
            ),
    {
        self.modify(bus, Modify::SetBit(num as u8), src)
    }

    /// Clears bit `num` of the operand.
    pub fn res<S: Copy>(&mut self, bus: &mut Peripherals, num: usize, src: S) where Self: IO8<S>
        requires
            num < 8,
            <Cpu as IO8<S>>::operand8(src).writable(),
        ensures
            (*final(self), final(bus)@) == modify_model(
                *old(self),
                old(bus)@,
                Modify::ResetBit(num as u8),
                <Cpu as IO8<S>>::operand8(src),
            ),
    {
        self.modify(bus, Modify::ResetBit(num as u8), src)
    }

    /// JP nn.
    pub fn jp(&mut self, bus: &Peripherals)
        ensures
            (*final(self), bus@) == jp_model(*old(self), bus@),
    {
        proof {
            reveal(jp_model);
        }
        if self.ctx.step == 0 {
            if let Some(v) = self.read16(bus, Imm16) {
                self.ctx.val16 = v;
                self.ctx.step = 1;
            }
        } else {
            self.regs.pc = self.ctx.val16;
            self.fetch(bus);
        }
    }

    /// JP HL.
    pub fn jp_hl(&mut self, bus: &Peripherals)
        ensures
            (*final(self), bus@) == jp_hl_model(*old(self), bus@),
    {
        proof {
            reveal(jp_hl_model);
        }
        self.regs.pc = self.regs.hl();
        self.fetch(bus);
    }

    /// JP cc,nn.
    pub fn jp_c(&mut self, bus: &mut Peripherals, cond: Cond)
        ensures
            (*final(self), final(bus)@) == jp_c_model(*old(self), old(bus)@, cond),
    {
        proof {
            reveal(jp_c_model);
        }
        if self.ctx.step == 0 {
            if let Some(v) = self.read16(bus, Imm16) {
                self.ctx.val16 = v;
                if !self.cond(cond) {
                    self.fetch(bus);
                } else {
                    self.ctx.step = 1;
                }
            }
        } else {
            self.regs.pc = self.ctx.val16;
            self.fetch(bus);
        }
    }

    /// The second part of a call.
    fn call_push(&mut self, bus: &mut Peripherals)
        ensures
            (*final(self), final(bus)@) == call_push(*old(self), old(bus)@),
    {
        proof {
            reveal(call_push);
        }
        if self.push16(bus, self.regs.pc).is_some() {
            self.regs.pc = self.ctx.val16;
            self.fetch(bus);
        }
    }

    /// CALL cc,nn.
    pub fn call_c(&mut self, bus: &mut Peripherals, cond: Cond)
        ensures
            (*final(self), final(bus)@) == call_c_model(*old(self), old(bus)@, cond),
    {
        proof {
            reveal(call_c_model);
        }
        if self.ctx.step == 0 {
            if let Some(v) = self.read16(bus, Imm16) {
                self.ctx.val16 = v;
                if !self.cond(cond) {
                    self.fetch(bus);
                } else {
                    self.ctx.step = 1;
                    self.call_push(bus);
                }
            }
        } else {
            self.call_push(bus);
        }
    }

    /// RET cc.
    pub fn ret_c(&mut self, bus: &mut Peripherals, cond: Cond)
        ensures
            (*final(self), final(bus)@) == ret_c_model(*old(self), old(bus)@, cond),
    {
        proof {
            reveal(ret_c_model);
        }
        if self.ctx.step == 0 {
            if self.cond(cond) {
                self.ctx.step = 1;
            } else {
                self.ctx.step = 2;
            }
        } else if self.ctx.step == 1 {
            if let Some(v) = self.pop16(bus) {
                self.regs.pc = v;
                self.ctx.step = 2;
            }
        } else {
            self.fetch(bus);
        }
    }

    /// RST: calls the fixed address `addr`.
    pub fn rst_addr(&mut self, bus: &mut Peripherals, addr: u8)
        ensures
            (*final(self), final(bus)@) == rst_model(*old(self), old(bus)@, addr),
    {
        proof {
            reveal(rst_model);
        }
        if self.push16(bus, self.regs.pc).is_some() {
            self.regs.pc = addr as u16;
            self.fetch(bus);
        }
    }

    /// Exchange the two nibbles.
    pub fn swap<S: Copy>(&mut self, bus: &mut Peripherals, src: S) where Self: IO8<S>
        requires
            <Cpu as IO8<S>>::operand8(src).writable(),
        ensures
            (*final(self), final(bus)@) == modify_model(
                *old(self),
                old(bus)@,
                Modify::Shift(Shift::Swap),
                <Cpu as IO8<S>>::operand8(src),
            ),
    {
        self.modify(bus, Modify::Shift(Shift::Swap), src)
    }

    /// CCF: inverts the carry flag.
    pub fn ccf(&mut self, bus: &mut Peripherals)
        ensures
            (*final(self), final(bus)@) == ccf_model(*old(self), old(bus)@),
    {
        proof {
            reveal(ccf_model);
        }
        let carry: bool = self.regs.cf();
        self.regs.set_nf(false);
        self.regs.set_hf(false);
        self.regs.set_cf(!carry);
        self.fetch(bus);
    }

    /// SCF: sets the carry flag.
    pub fn scf(&mut self, bus: &mut Peripherals)
        ensures
            (*final(self), final(bus)@) == scf_model(*old(self), old(bus)@),
    {
        proof {
            reveal(scf_model);
        }
        self.regs.set_nf(false);
        self.regs.set_hf(false);
        self.regs.set_cf(true);
        self.fetch(bus);
    }

    /// DAA: adjusts A to decimal digits after an addition or subtraction.
    pub fn daa(&mut self, bus: &mut Peripherals)
        ensures
            (*final(self), final(bus)@) == daa_model(*old(self), old(bus)@),
    {
        proof {
            reveal(daa_model);
        }
        self.regs.decimal_adjust();
        self.fetch(bus);
    }

    /// CPL: complements A.
    pub fn cpl(&mut self, bus: &mut Peripherals)
        ensures
            (*final(self), final(bus)@) == cpl_model(*old(self), old(bus)@),
    {
        proof {
            reveal(cpl_model);
        }
        self.regs.complement_a();
        self.fetch(bus);
    }

    /// LD SP,HL.
    pub fn ld_sp_hl(&mut self, bus: &mut Peripherals)
        ensures
            (*final(self), final(bus)@) == ld_sp_hl_model(*old(self), old(bus)@),
    {
        proof {
            reveal(ld_sp_hl_model);
        }
        self.regs.sp = self.regs.hl();
        self.fetch(bus);
    }

    /// LD HL,SP+e.
    pub fn ld_hl_sp_e(&mut self, bus: &mut Peripherals)
        ensures
            (*final(self), final(bus)@) == ld_hl_sp_e_model(*old(self), old(bus)@),
    {
        proof {
            reveal(ld_hl_sp_e_model);
            reveal(read8_model);
        }
        if self.ctx.step == 0 {
            if let Some(e) = self.read8(bus, Imm8) {
                let result: u16 = self.regs.offset_sp(e);
                self.regs.write_hl(result);
                self.ctx.step = 1;
            }
        } else {
            self.fetch(bus);
        }
    }

    /// ADD HL,rr.
    pub fn add_hl_reg16(&mut self, bus: &mut Peripherals, reg: Reg16)
        ensures
            (*final(self), final(bus)@) == add_hl_reg16_model(*old(self), old(bus)@, reg),
    {
        proof {
            reveal(add_hl_reg16_model);
        }
        if self.ctx.step == 0 {
            let v: u16 = self.reg16(reg);
            self.regs.add_to_hl(v);
            self.ctx.step = 1;
        } else {
            self.fetch(bus);
        }
    }

    /// ADD SP,e.
    pub fn add_sp_e(&mut self, bus: &mut Peripherals)
        ensures
            (*final(self), final(bus)@) == add_sp_e_model(*old(self), old(bus)@),
    {
        proof {
            reveal(add_sp_e_model);
            reveal(read8_model);
        }
        if self.ctx.step == 0 {
            if let Some(e) = self.read8(bus, Imm8) {
                self.ctx.val8 = e;
                self.ctx.step = 1;
            }
        } else if self.ctx.step == 1 {
            let result: u16 = self.regs.offset_sp(self.ctx.val8);
            self.regs.sp = result;
            self.ctx.step = 2;
        } else {
            self.fetch(bus);
        }
    }

    /// Tests bit `bit` of the operand.
    pub fn bit<S: Copy>(&mut self, bus: &Peripherals, bit: usize, src: S) where Self: IO8<S>
        requires
            bit < 8,
        ensures
            (*final(self), bus@) == bit_model(
                *old(self),
                bus@,
                bit as u8,
                <Cpu as IO8<S>>::operand8(src),
            ),
    {
        proof {
            reveal(bit_model);
        }
        if let Some(v) = self.read8(bus, src) {
            self.regs.test_bit(bit as u8, v);
            self.fetch(bus);
        }
    }

    /// One cycle of the push of `val`; `Some` once both bytes are on the
    /// stack.
    pub fn push16(&mut self, bus: &mut Peripherals, val: u16) -> (r: Option<()>)
        ensures
            (*final(self), final(bus)@, r.is_some()) == push16_model(*old(self), old(bus)@, val),
    {
        if self.ctx.operand.step == 0 {
            self.ctx.operand.step = 1;
            None
        } else if self.ctx.operand.step == 1 {
            self.regs.sp = self.regs.sp.wrapping_sub(1);
            bus.write(self.regs.sp, (val / 256) as u8);
            self.ctx.operand.val8 = (val % 256) as u8;
            self.ctx.operand.step = 2;
            None
        } else if self.ctx.operand.step == 2 {
            self.regs.sp = self.regs.sp.wrapping_sub(1);
            bus.write(self.regs.sp, self.ctx.operand.val8);
            self.ctx.operand.step = 3;
            None
        } else {
            self.ctx.operand.step = 0;
            Some(())
        }
    }

    /// PUSH rr.
    pub fn push(&mut self, bus: &mut Peripherals, src: Reg16)
        ensures
            (*final(self), final(bus)@) == push_model(*old(self), old(bus)@, src),
    {
        proof {
            reveal(push_model);
        }
        if self.ctx.step == 0 {
            self.ctx.val16 = self.reg16(src);
            self.ctx.step = 1;
        }
        if self.ctx.step == 1 {
            if self.push16(bus, self.ctx.val16).is_some() {
                self.ctx.step = 2;
            }
        }
        if self.ctx.step == 2 {
            self.fetch(bus);
        }
    }

    /// One cycle of the pop of a word; `Some` once both bytes are read.
    pub fn pop16(&mut self, bus: &Peripherals) -> (r: Option<u16>)
        ensures
            (*final(self), r) == pop16_model(*old(self), bus@),
    {
        if self.ctx.operand.step == 0 {
            self.ctx.operand.val8 = bus.read(self.regs.sp);
            self.regs.sp = self.regs.sp.wrapping_add(1);
            self.ctx.operand.step = 1;
            None
        } else if self.ctx.operand.step == 1 {
            let hi: u8 = bus.read(self.regs.sp);
            self.regs.sp = self.regs.sp.wrapping_add(1);
            self.ctx.operand.val16 = (hi as u16) * 256 + (self.ctx.operand.val8 as u16);
            self.ctx.operand.step = 2;
            None
        } else {
            self.ctx.operand.step = 0;
            Some(self.ctx.operand.val16)
        }
    }

    /// POP rr.
    pub fn pop(&mut self, bus: &mut Peripherals, dst: Reg16)
        ensures
            (*final(self), final(bus)@) == pop_model(*old(self), old(bus)@, dst),
    {
        proof {
            reveal(pop_model);
            reveal(write16_model);
        }
        if let Some(v) = self.pop16(bus) {
            self.write16(bus, dst, v);
            self.fetch(bus);
        }
    }

    /// JR e.
    pub fn jr(&mut self, bus: &Peripherals)
        ensures
            (*final(self), bus@) == jr_model(*old(self), bus@),
    {
        proof {
            reveal(jr_model);
            reveal(read8_model);
        }
        if self.ctx.step == 0 {
            if let Some(e) = self.read8(bus, Imm8) {
                self.regs.pc = displaced(self.regs.pc, e);
                self.ctx.step = 1;
            }
        } else {
            self.fetch(bus);
        }
    }

    /// Whether the flags meet `cond`.
    pub fn cond(&self, cond: Cond) -> (r: bool)
        ensures
            r == self.regs.meets(cond),
    {
        match cond {
            Cond::NZ => !self.regs.zf(),
            Cond::Z => self.regs.zf(),
            Cond::NC => !self.regs.cf(),
            Cond::C => self.regs.cf(),
        }
    }

    /// The value of a register pair.
    fn reg16(&self, r: Reg16) -> (v: u16)
        ensures
            v == self.regs.reg16(r),
    {
        match r {
            Reg16::AF => self.regs.af(),
            Reg16::BC => self.regs.bc(),
            Reg16::DE => self.regs.de(),
            Reg16::HL => self.regs.hl(),
            Reg16::SP => self.regs.sp,
        }
    }

    /// JR cc,e.
    pub fn jr_c(&mut self, bus: &Peripherals, c: Cond)
        ensures
            (*final(self), bus@) == jr_c_model(*old(self), bus@, c),
    {
        proof {
            reveal(jr_c_model);
            reveal(read8_model);
        }
        if self.ctx.step == 0 {
            if let Some(e) = self.read8(bus, Imm8) {
                if self.cond(c) {
                    self.regs.pc = displaced(self.regs.pc, e);
                    self.ctx.step = 1;
                } else {
                    self.fetch(bus);
                }
            }
        } else {
            self.fetch(bus);
        }
    }

    /// CALL nn.
    pub fn call(&mut self, bus: &mut Peripherals)
        ensures
            (*final(self), final(bus)@) == call_model(*old(self), old(bus)@),
    {
        proof {
            reveal(call_model);
        }
        if self.ctx.step == 0 {
            if let Some(v) = self.read16(bus, Imm16) {
                self.ctx.val16 = v;
                self.ctx.step = 1;
                self.call_push(bus);
            }
        } else {
            self.call_push(bus);
        }
    }

    /// RET.
    pub fn ret(&mut self, bus: &Peripherals)
        ensures
            (*final(self), bus@) == ret_model(*old(self), bus@),
    {
        proof {
            reveal(ret_model);
        }
        if self.ctx.step == 0 {
            if let Some(v) = self.pop16(bus) {
                self.regs.pc = v;
                self.ctx.step = 1;
            }
        } else {
            self.fetch(bus);
        }
    }

    /// RETI: returns and raises the master enable.
    pub fn reti(&mut self, bus: &mut Peripherals)
        ensures
            (*final(self), final(bus)@) == reti_model(*old(self), old(bus)@),
    {
        proof {
            reveal(reti_model);
        }
        if self.ctx.step == 0 {
            if let Some(v) = self.pop16(bus) {
                self.regs.pc = v;
                self.ctx.step = 1;
            }
        } else {
            bus.interrupts.set_ime(true);
            self.fetch(bus);
        }
    }

    /// EI: raises the master enable once the next instruction has started.
    pub fn ei(&mut self, bus: &Peripherals)
        ensures
            (*final(self), bus@) == ei_model(*old(self), bus@),
    {
        proof {
            reveal(ei_model);
        }
        self.fetch(bus);
        self.ctx.ime_pending = true;
    }

    /// DI: clears the master enable at once.
    pub fn di(&mut self, bus: &mut Peripherals)
        ensures
            (*final(self), final(bus)@) == di_model(*old(self), old(bus)@),
    {
        proof {
            reveal(di_model);
        }
        bus.interrupts.set_ime(false);
        self.ctx.ime_pending = false;
        self.fetch(bus);
    }

    /// HALT: waits until a source is both enabled and pending.
    pub fn halt(&mut self, bus: &Peripherals)
        ensures
            (*final(self), bus@) == halt_model(*old(self), bus@),
    {
        proof {
            reveal(halt_model);
        }
        if bus.interrupts.get_interrupt() > 0 {
            self.fetch(bus);
        } else {
            self.ctx.step = 1;
        }
    }
}

} // verus!
