//! How many machine cycles each instruction takes.
use vstd::prelude::*;
use crate::alu::{Alu, Modify};
use crate::cpu::{tick_model, Cpu};
use crate::decoder::{
    instr_of, instr_of_first_quarter, instr_of_last_quarter, prefixed_instr_of, Instr,
};
use crate::effects::{
    lemma_add_hl, lemma_add_sp_e, lemma_alu_immediate, lemma_alu_ind, lemma_alu_register,
    lemma_call, lemma_call_c, lemma_ccf, lemma_cpl, lemma_daa, lemma_di, lemma_ei, lemma_jp,
    lemma_jp_c, lemma_jp_hl, lemma_jr, lemma_jr_c, lemma_ld16_dir_reg, lemma_ld16_reg_imm,
    lemma_ld_dir_reg, lemma_ld_hl_sp_e, lemma_ld_ind_imm, lemma_ld_ind_reg, lemma_ld_page_reg,
    lemma_ld_reg_dir, lemma_ld_reg_imm, lemma_ld_reg_ind, lemma_ld_reg_page, lemma_ld_register,
    lemma_ld_sp_hl, lemma_modify_memory, lemma_modify_register, lemma_nop, lemma_pop, lemma_prefixed_bit_memory,
    lemma_prefixed_bit_register, lemma_prefixed_modify_memory, lemma_prefixed_modify_register,
    lemma_push, lemma_ret,
    lemma_ret_c, lemma_reti, lemma_rotate_a, lemma_rst, lemma_scf, lemma_step16, lemma_stop,
    word_at,
};
use crate::instruction::halt_model;
use crate::operand::{
    read16_model, read8_model, write16_model, write8_model, Direct8, Indirect, Operand16,
    Operand8, Reg16, Reg8,
};
use crate::peripherals::BusView;
use crate::register::{word, Registres};
use crate::run::{about_to_start, entered, takes};

verus! {

/// Bus cycles that an access through an 8-bit operand costs.
pub open spec fn cost8(at: Operand8) -> nat {
    match at {
        Operand8::Reg(_) => 0,
        Operand8::Imm => 1,
        Operand8::Ind(_) => 1,
        Operand8::Dir(Direct8::D) => 3,
        Operand8::Dir(Direct8::DFF) => 2,
    }
}

/// Bus cycles that a read through a 16-bit operand costs.
pub open spec fn read_cost16(at: Operand16) -> nat {
    match at {
        Operand16::Imm => 2,
        _ => 0,
    }
}

/// Bus cycles that a write through a 16-bit operand costs.
pub open spec fn write_cost16(at: Operand16) -> nat {
    match at {
        Operand16::Dir => 4,
        _ => 0,
    }
}

/// Machine cycles that `instr` takes when it starts with the flags in
/// `regs`: one for the fetch of the next opcode, one for each bus cycle of
/// its operands, and those that the instruction spends without the bus.
/// HALT, the prefix byte and an illegal opcode have no number.
pub open spec fn cycles(instr: Instr, regs: Registres) -> nat {
    match instr {
        Instr::Nop | Instr::Stop | Instr::Di | Instr::Ei => 1,
        Instr::Halt | Instr::Prefix | Instr::Illegal => 0,
        Instr::Ld(dst, src) => 1 + cost8(src) + cost8(dst),
        Instr::Ld16(dst, src) => 1 + read_cost16(src) + write_cost16(dst),
        Instr::LdSpHl => 1,
        Instr::LdHlSpE => 3,
        Instr::Push(_) => 4,
        Instr::Pop(_) => 3,
        Instr::Alu(_, src) => 1 + cost8(src),
        Instr::Modify(_, at) => 1 + cost8(at) + cost8(at),
        Instr::Inc16(_) | Instr::Dec16(_) => 2,
        Instr::AddHl(_) => 2,
        Instr::AddSpE => 4,
        Instr::RotateA(_) | Instr::Daa | Instr::Cpl | Instr::Scf | Instr::Ccf => 1,
        Instr::Bit(_, src) => 1 + cost8(src),
        Instr::Jp => 4,
        Instr::JpHl => 1,
        Instr::JpC(cond) => if regs.meets(cond) { 4 } else { 3 },
        Instr::Jr => 3,
        Instr::JrC(cond) => if regs.meets(cond) { 3 } else { 2 },
        Instr::Call => 6,
        Instr::CallC(cond) => if regs.meets(cond) { 6 } else { 3 },
        Instr::Ret => 4,
        Instr::RetC(cond) => if regs.meets(cond) { 5 } else { 2 },
        Instr::Reti => 4,
        Instr::Rst(_) => 4,
    }
}

/// Whether `instr` is one that `cycles` gives a number for.
pub open spec fn timed(instr: Instr) -> bool {
    !(instr is Halt) && !(instr is Prefix) && !(instr is Illegal)
}

/// The first quarter of the table.
proof fn lemma_first_quarter_cycles(cpu: Cpu, bus: BusView)
    requires
        cpu.ctx.opcode / 64 == 0,
        about_to_start(cpu, bus, instr_of(cpu.ctx.opcode)),
    ensures
        takes(cpu, bus, cycles(instr_of(cpu.ctx.opcode), cpu.regs)),
{
    let y = (cpu.ctx.opcode as int / 8) % 8;
    let z = cpu.ctx.opcode as int % 8;
    match instr_of_first_quarter(y, z) {
        Instr::Nop => lemma_nop(cpu, bus),
        Instr::Stop => lemma_stop(cpu, bus),
        Instr::Jr => lemma_jr(cpu, bus),
        Instr::JrC(cond) => lemma_jr_c(cpu, bus, cond),
        Instr::Ld16(Operand16::Dir, Operand16::Reg(src)) => lemma_ld16_dir_reg(cpu, bus, src),
        Instr::Ld16(Operand16::Reg(dst), Operand16::Imm) => lemma_ld16_reg_imm(cpu, bus, dst),
        Instr::AddHl(src) => lemma_add_hl(cpu, bus, src),
        Instr::Ld(Operand8::Ind(dst), Operand8::Reg(src)) => lemma_ld_ind_reg(cpu, bus, dst, src),
        Instr::Ld(Operand8::Reg(dst), Operand8::Ind(src)) => lemma_ld_reg_ind(cpu, bus, dst, src),
        Instr::Ld(Operand8::Reg(dst), Operand8::Imm) => lemma_ld_reg_imm(cpu, bus, dst),
        Instr::Ld(Operand8::Ind(dst), Operand8::Imm) => lemma_ld_ind_imm(cpu, bus, dst),
        Instr::Inc16(at) => lemma_step16(cpu, bus, true, at),
        Instr::Dec16(at) => lemma_step16(cpu, bus, false, at),
        Instr::Modify(op, Operand8::Reg(at)) => lemma_modify_register(cpu, bus, op, at),
        Instr::Modify(op, Operand8::Ind(Indirect::HL)) => lemma_modify_memory(cpu, bus, op),
        Instr::RotateA(kind) => lemma_rotate_a(cpu, bus, kind),
        Instr::Daa => lemma_daa(cpu, bus),
        Instr::Cpl => lemma_cpl(cpu, bus),
        Instr::Scf => lemma_scf(cpu, bus),
        Instr::Ccf => lemma_ccf(cpu, bus),
        _ => {},
    }
}

/// The two middle quarters of the table.
proof fn lemma_middle_quarters_cycles(cpu: Cpu, bus: BusView)
    requires
        cpu.ctx.opcode / 64 == 1 || cpu.ctx.opcode / 64 == 2,
        timed(instr_of(cpu.ctx.opcode)),
        about_to_start(cpu, bus, instr_of(cpu.ctx.opcode)),
    ensures
        takes(cpu, bus, cycles(instr_of(cpu.ctx.opcode), cpu.regs)),
{
    match instr_of(cpu.ctx.opcode) {
        Instr::Ld(Operand8::Reg(dst), Operand8::Reg(src)) => lemma_ld_register(cpu, bus, dst, src),
        Instr::Ld(Operand8::Ind(dst), Operand8::Reg(src)) => lemma_ld_ind_reg(cpu, bus, dst, src),
        Instr::Ld(Operand8::Reg(dst), Operand8::Ind(src)) => lemma_ld_reg_ind(cpu, bus, dst, src),
        Instr::Alu(op, Operand8::Reg(src)) => lemma_alu_register(cpu, bus, op, src),
        Instr::Alu(op, Operand8::Ind(src)) => lemma_alu_ind(cpu, bus, op, src),
        _ => {},
    }
}

/// The last quarter of the table.
proof fn lemma_last_quarter_cycles(cpu: Cpu, bus: BusView)
    requires
        cpu.ctx.opcode / 64 == 3,
        timed(instr_of(cpu.ctx.opcode)),
        about_to_start(cpu, bus, instr_of(cpu.ctx.opcode)),
    ensures
        takes(cpu, bus, cycles(instr_of(cpu.ctx.opcode), cpu.regs)),
{
    let y = (cpu.ctx.opcode as int / 8) % 8;
    let z = cpu.ctx.opcode as int % 8;
    match instr_of_last_quarter(y, z) {
        Instr::RetC(cond) => lemma_ret_c(cpu, bus, cond),
        Instr::Ld(Operand8::Dir(Direct8::DFF), Operand8::Reg(src)) => lemma_ld_page_reg(
            cpu,
            bus,
            src,
        ),
        Instr::Ld(Operand8::Reg(dst), Operand8::Dir(Direct8::DFF)) => lemma_ld_reg_page(
            cpu,
            bus,
            dst,
        ),
        Instr::Ld(Operand8::Dir(Direct8::D), Operand8::Reg(src)) => lemma_ld_dir_reg(cpu, bus, src),
        Instr::Ld(Operand8::Reg(dst), Operand8::Dir(Direct8::D)) => lemma_ld_reg_dir(cpu, bus, dst),
        Instr::Ld(Operand8::Ind(dst), Operand8::Reg(src)) => lemma_ld_ind_reg(cpu, bus, dst, src),
        Instr::Ld(Operand8::Reg(dst), Operand8::Ind(src)) => lemma_ld_reg_ind(cpu, bus, dst, src),
        Instr::AddSpE => lemma_add_sp_e(cpu, bus),
        Instr::LdHlSpE => lemma_ld_hl_sp_e(cpu, bus),
        Instr::Pop(dst) => lemma_pop(cpu, bus, dst),
        Instr::Ret => lemma_ret(cpu, bus),
        Instr::Reti => lemma_reti(cpu, bus),
        Instr::JpHl => lemma_jp_hl(cpu, bus),
        Instr::LdSpHl => lemma_ld_sp_hl(cpu, bus),
        Instr::JpC(cond) => lemma_jp_c(cpu, bus, cond),
        Instr::Jp => lemma_jp(cpu, bus),
        Instr::Di => lemma_di(cpu, bus),
        Instr::Ei => lemma_ei(cpu, bus),
        Instr::CallC(cond) => lemma_call_c(cpu, bus, cond),
        Instr::Push(src) => lemma_push(cpu, bus, src),
        Instr::Call => lemma_call(cpu, bus),
        Instr::Alu(op, Operand8::Imm) => lemma_alu_immediate(cpu, bus, op),
        Instr::Rst(addr) => lemma_rst(cpu, bus, addr),
        _ => {},
    }
}

/// Every instruction of the main table but HALT takes the number of
/// machine cycles that `cycles` gives for it.
pub proof fn lemma_cycles(cpu: Cpu, bus: BusView)
    requires
        timed(instr_of(cpu.ctx.opcode)),
        about_to_start(cpu, bus, instr_of(cpu.ctx.opcode)),
    ensures
        takes(cpu, bus, cycles(instr_of(cpu.ctx.opcode), cpu.regs)),
{
    if cpu.ctx.opcode / 64 == 0 {
        lemma_first_quarter_cycles(cpu, bus);
    } else if cpu.ctx.opcode / 64 == 3 {
        lemma_last_quarter_cycles(cpu, bus);
    } else {
        lemma_middle_quarters_cycles(cpu, bus);
    }
}

/// Every instruction of the prefixed table takes one machine cycle for
/// the prefix byte and then the number that `cycles` gives for it.
pub proof fn lemma_prefixed_cycles(cpu: Cpu, bus: BusView)
    requires
        about_to_start(cpu, bus, Instr::Prefix),
    ensures
        takes(cpu, bus, 1 + cycles(prefixed_instr_of(bus.read(cpu.regs.pc)), cpu.regs)),
{
    match prefixed_instr_of(bus.read(cpu.regs.pc)) {
        Instr::Modify(op, Operand8::Reg(at)) => lemma_prefixed_modify_register(cpu, bus, op, at),
        Instr::Modify(op, Operand8::Ind(Indirect::HL)) => lemma_prefixed_modify_memory(
            cpu,
            bus,
            op,
        ),
        Instr::Bit(n, Operand8::Reg(src)) => lemma_prefixed_bit_register(cpu, bus, n, src),
        Instr::Bit(n, Operand8::Ind(Indirect::HL)) => lemma_prefixed_bit_memory(cpu, bus, n),
        _ => {},
    }
}

/// HALT takes one machine cycle when a source is both enabled and
/// pending as it starts. Otherwise it waits: the processor stays busy and
/// no register changes.
pub proof fn lemma_halt_starts(cpu: Cpu, bus: BusView)
    requires
        about_to_start(cpu, bus, Instr::Halt),
    ensures
        bus.irq.pending() != 0 ==> takes(cpu, bus, 1),
        bus.irq.pending() == 0 ==> tick_model(cpu, bus).0.ctx.busy && tick_model(cpu, bus).0.regs
            == cpu.regs && tick_model(cpu, bus).1 == entered(cpu, bus),
{
    reveal_with_fuel(takes, 2);
    reveal(halt_model);
}

/// While HALT waits, a machine cycle changes nothing as long as no
/// source is both enabled and pending; once one is, the cycle fetches the
/// next opcode and the processor is no longer busy.
pub proof fn lemma_halt_waits(cpu: Cpu, bus: BusView)
    requires
        !cpu.ctx.locked,
        !cpu.ctx.servicing,
        !cpu.ctx.cb,
        cpu.ctx.busy,
        instr_of(cpu.ctx.opcode) is Halt,
    ensures
        bus.irq.pending() == 0 ==> tick_model(cpu, bus) == (cpu.at_step(1), bus),
        bus.irq.pending() != 0 ==> !tick_model(cpu, bus).0.ctx.busy && tick_model(cpu, bus).0.regs
            == cpu.regs.with_pc(cpu.regs.pc.wrapping_add(1)),
{
    reveal(halt_model);
}

/// The address that a direct operand names: the word after the opcode,
/// or `FF00` plus the byte after the opcode.
pub open spec fn direct_addr(bus: BusView, pc: u16, at: Direct8) -> u16 {
    match at {
        Direct8::D => word_at(bus, pc),
        Direct8::DFF => word(0xFF, bus.read(pc)),
    }
}

/// A register costs no bus cycle: the first call reads or writes it.
pub proof fn lemma_register_cost(cpu: Cpu, bus: BusView, r: Reg8, pair: Reg16, v: u8, w: u16)
    ensures
        read8_model(cpu, bus, Operand8::Reg(r)) == (cpu, Some(cpu.regs.reg8(r))),
        write8_model(cpu, bus, Operand8::Reg(r), v) == (
            cpu.with_regs(cpu.regs.with_reg8(r, v)),
            bus,
            true,
        ),
        read16_model(cpu, bus, Operand16::Reg(pair)) == (cpu, Some(cpu.regs.reg16(pair))),
        write16_model(cpu, bus, Operand16::Reg(pair), w) == (
            cpu.with_regs(cpu.regs.with_reg16(pair, w)),
            bus,
            true,
        ),
{
    reveal(read8_model);
    reveal(write8_model);
    reveal(read16_model);
    reveal(write16_model);
}

/// An immediate byte costs one bus cycle: the first call reads the byte
/// at PC and moves PC past it, the second hands the byte out.
pub proof fn lemma_imm8_cost(cpu: Cpu, bus: BusView)
    requires
        cpu.ctx.immediate.step == 0,
    ensures
        ({
            let (c1, r1) = read8_model(cpu, bus, Operand8::Imm);
            let (c2, r2) = read8_model(c1, bus, Operand8::Imm);
            &&& r1 is None
            &&& r2 == Some(bus.read(cpu.regs.pc))
            &&& c2.regs == cpu.regs.with_pc(cpu.regs.pc.wrapping_add(1))
            &&& c2.ctx.immediate.step == 0
        }),
{
    reveal(read8_model);
}

/// An immediate word costs two bus cycles: the first two calls read the
/// low and the high byte at PC, the third hands the word out.
pub proof fn lemma_imm16_cost(cpu: Cpu, bus: BusView)
    requires
        cpu.ctx.operand.step == 0,
        cpu.ctx.immediate.step == 0,
    ensures
        ({
            let (c1, r1) = read16_model(cpu, bus, Operand16::Imm);
            let (c2, r2) = read16_model(c1, bus, Operand16::Imm);
            let (c3, r3) = read16_model(c2, bus, Operand16::Imm);
            &&& r1 is None
            &&& r2 is None
            &&& r3 == Some(word_at(bus, cpu.regs.pc))
            &&& c3.regs == cpu.regs.with_pc(cpu.regs.pc.wrapping_add(1).wrapping_add(1))
            &&& c3.ctx.operand.step == 0
            &&& c3.ctx.immediate.step == 0
        }),
{
    reveal(read16_model);
}

/// An indirect operand costs one bus cycle: the first call reads or
/// writes the byte at the address in the registers and moves HL where the
/// operand says so, the second completes.
pub proof fn lemma_indirect_cost(cpu: Cpu, bus: BusView, at: Indirect, v: u8)
    requires
        cpu.ctx.operand.step == 0,
    ensures
        ({
            let (c1, r1) = read8_model(cpu, bus, Operand8::Ind(at));
            let (c2, r2) = read8_model(c1, bus, Operand8::Ind(at));
            &&& r1 is None
            &&& r2 == Some(bus.read(cpu.regs.indirect_addr(at)))
            &&& c2.regs == cpu.regs.after_indirect(at)
            &&& c2.ctx.operand.step == 0
        }),
        ({
            let (c1, b1, done1) = write8_model(cpu, bus, Operand8::Ind(at), v);
            let (c2, b2, done2) = write8_model(c1, b1, Operand8::Ind(at), v);
            &&& !done1
            &&& done2
            &&& b1 == bus.write(cpu.regs.indirect_addr(at), v)
            &&& b2 == b1
            &&& c2.regs == cpu.regs.after_indirect(at)
            &&& c2.ctx.operand.step == 0
        }),
{
    reveal(read8_model);
    reveal(write8_model);
}

/// A read through a full address after the opcode costs three bus
/// cycles: two for the address and one for the byte.
pub proof fn lemma_direct_read_cost(cpu: Cpu, bus: BusView)
    requires
        cpu.ctx.operand.step == 0,
        cpu.ctx.immediate.step == 0,
    ensures
        ({
            let at = Operand8::Dir(Direct8::D);
            let (c1, r1) = read8_model(cpu, bus, at);
            let (c2, r2) = read8_model(c1, bus, at);
            let (c3, r3) = read8_model(c2, bus, at);
            let (c4, r4) = read8_model(c3, bus, at);
            &&& r1 is None
            &&& r2 is None
            &&& r3 is None
            &&& r4 == Some(bus.read(direct_addr(bus, cpu.regs.pc, Direct8::D)))
            &&& c4.regs == cpu.regs.with_pc(cpu.regs.pc.wrapping_add(1).wrapping_add(1))
            &&& c4.ctx.operand.step == 0
            &&& c4.ctx.immediate.step == 0
        }),
{
    reveal(read8_model);
}

/// A read through the high page costs two bus cycles: one for the byte
/// that selects the cell and one for the byte in it.
pub proof fn lemma_high_page_read_cost(cpu: Cpu, bus: BusView)
    requires
        cpu.ctx.operand.step == 0,
        cpu.ctx.immediate.step == 0,
    ensures
        ({
            let at = Operand8::Dir(Direct8::DFF);
            let (c1, r1) = read8_model(cpu, bus, at);
            let (c2, r2) = read8_model(c1, bus, at);
            let (c3, r3) = read8_model(c2, bus, at);
            &&& r1 is None
            &&& r2 is None
            &&& r3 == Some(bus.read(direct_addr(bus, cpu.regs.pc, Direct8::DFF)))
            &&& c3.regs == cpu.regs.with_pc(cpu.regs.pc.wrapping_add(1))
            &&& c3.ctx.operand.step == 0
            &&& c3.ctx.immediate.step == 0
        }),
{
    reveal(read8_model);
}

/// The write of a word to the address after the opcode costs four bus
/// cycles: two for the address, one for the low byte and one for the high
/// byte, which goes to the address above.
pub proof fn lemma_direct16_cost(cpu: Cpu, bus: BusView, w: u16)
    requires
        cpu.ctx.operand.step == 0,
        cpu.ctx.immediate.step == 0,
    ensures
        ({
            let addr = word_at(bus, cpu.regs.pc);
            let (c1, b1, done1) = write16_model(cpu, bus, Operand16::Dir, w);
            let (c2, b2, done2) = write16_model(c1, b1, Operand16::Dir, w);
            let (c3, b3, done3) = write16_model(c2, b2, Operand16::Dir, w);
            let (c4, b4, done4) = write16_model(c3, b3, Operand16::Dir, w);
            let (c5, b5, done5) = write16_model(c4, b4, Operand16::Dir, w);
            &&& !done1 && !done2 && !done3 && !done4 && done5
            &&& b2 == bus
            &&& b3 == bus.write(addr, (w % 256) as u8)
            &&& b4 == b3.write(addr.wrapping_add(1), (w / 256) as u8)
            &&& b5 == b4
            &&& c5.regs == cpu.regs.with_pc(cpu.regs.pc.wrapping_add(1).wrapping_add(1))
            &&& c5.ctx.operand.step == 0
            &&& c5.ctx.immediate.step == 0
        }),
{
    reveal(write16_model);
}

} // verus!
