//! What single instructions, and the dispatch of an interrupt, do from
//! start to end, and how many machine cycles they take.
use vstd::prelude::*;
use crate::alu::{displace, Alu, Modify, Shift};
use crate::cpu::{due, tick_model, Cpu};
use crate::decoder::{prefixed_instr_of, Instr};
use crate::instruction::{
    add_hl_reg16_model, add_sp_e_model, alu_model, bit_model, call_c_model, call_model, call_push,
    ccf_model, cpl_model, daa_model, di_model, ei_model, jp_c_model, jp_hl_model, jp_model,
    jr_c_model, jr_model, ld16_model, ld_hl_sp_e_model, ld_model, ld_sp_hl_model, modify_model,
    nop_model, pop_model, push_model, ret_c_model, ret_model, reti_model, rotate_a_model,
    rst_model, scf_model, step16_model,
};
use crate::interrupts::Source;
use crate::operand::{
    read16_model, read8_model, write16_model, write8_model, Cond, Direct8, Indirect, Operand16,
    Operand8, Reg16, Reg8,
};
use crate::peripherals::{
    holds_writes, lemma_read_after_write, lemma_write_keeps_wf, lemma_write_leaves_other_cells,
    BusView,
};
use crate::register::{word, Registres};
use crate::run::{about_to_start, entered, takes, ticks};

verus! {

/// What POP leaves in `dst` when the word on the stack is `v`: the word
/// itself, but for AF, which takes it without its low nibble.
pub open spec fn popped(dst: Reg16, v: u16) -> u16 {
    if dst is AF {
        (v - v % 16) as u16
    } else {
        v
    }
}

/// The word that lies at `addr`, low byte first.
pub open spec fn word_at(bus: BusView, addr: u16) -> u16 {
    word(bus.read(addr.wrapping_add(1)), bus.read(addr))
}

/// The bus after `val` is pushed on a stack whose top is `sp`: the high
/// byte at `sp` - 1, the low byte at `sp` - 2.
pub open spec fn pushed(bus: BusView, sp: u16, val: u16) -> BusView {
    bus.write(sp.wrapping_sub(1), (val / 256) as u8).write(sp.wrapping_sub(2), (val % 256) as u8)
}

/// What a register pair holds after `v` is written to it.
pub proof fn lemma_reg16_after_write(r: Registres, dst: Reg16, v: u16)
    ensures
        r.with_reg16(dst, v).reg16(dst) == popped(dst, v),
{
}

/// What a register pair other than AF holds after `v` is written to it
/// and PC has moved to the next address; F is as before.
pub proof fn lemma_pair_after_write(regs: Registres, r: Reg16, v: u16)
    requires
        !(r is AF),
    ensures
        ({
            let after = regs.with_reg16(r, v);
            &&& after.reg16(r) == v
            &&& after.f == regs.f
            &&& after.with_pc(after.pc.wrapping_add(1)).reg16(r) == v
            &&& after.with_pc(after.pc.wrapping_add(1)).f == regs.f
        }),
{
}

/// An operation that changes an operand in place changes no register but
/// F.
pub proof fn lemma_flags_keep_hl(r: Registres, op: Modify, v: u8)
    ensures
        r.after_modify(op, v).0.hl() == r.hl(),
        r.after_modify(op, v).0.with_pc(r.pc.wrapping_add(1)).hl() == r.hl(),
{
}

/// What is read back from a stack that lies in memory that holds writes
/// is what was pushed.
pub proof fn lemma_pushed_word(bus: BusView, sp: u16, val: u16)
    requires
        bus.wf(),
        holds_writes(sp.wrapping_sub(1)),
        holds_writes(sp.wrapping_sub(2)),
    ensures
        word_at(pushed(bus, sp, val), sp.wrapping_sub(2)) == val,
        pushed(bus, sp, val).wf(),
{
    let hi = (val / 256) as u8;
    let lo = (val % 256) as u8;
    let sp1 = sp.wrapping_sub(1);
    let sp2 = sp.wrapping_sub(2);
    let b1 = bus.write(sp1, hi);
    lemma_write_keeps_wf(bus, sp1, hi);
    lemma_write_keeps_wf(b1, sp2, lo);
    lemma_read_after_write(bus, sp1, sp1, hi);
    lemma_write_leaves_other_cells(b1, sp2, sp1, lo);
    lemma_read_after_write(b1, sp2, sp2, lo);
    assert(sp2.wrapping_add(1) == sp1);
    assert(word(hi, lo) == val);
}

/// NOP takes one machine cycle and changes nothing but PC, which moves
/// past the next opcode.
pub proof fn lemma_nop(cpu: Cpu, bus: BusView)
    requires
        about_to_start(cpu, bus, Instr::Nop),
    ensures
        takes(cpu, bus, 1),
        ticks(cpu, bus, 1).1 == entered(cpu, bus),
        ticks(cpu, bus, 1).0.regs == cpu.regs.with_pc(cpu.regs.pc.wrapping_add(1)),
{
    reveal_with_fuel(takes, 2);
    reveal_with_fuel(ticks, 2);
    reveal(nop_model);
}

/// A load from one register to another takes one machine cycle. It
/// leaves the value of the source in the destination, and PC past the
/// next opcode.
pub proof fn lemma_ld_register(cpu: Cpu, bus: BusView, dst: Reg8, src: Reg8)
    requires
        about_to_start(cpu, bus, Instr::Ld(Operand8::Reg(dst), Operand8::Reg(src))),
    ensures
        takes(cpu, bus, 1),
        ticks(cpu, bus, 1).1 == entered(cpu, bus),
        ticks(cpu, bus, 1).0.regs == cpu.regs.with_reg8(dst, cpu.regs.reg8(src)).with_pc(
            cpu.regs.pc.wrapping_add(1),
        ),
{
    reveal_with_fuel(takes, 2);
    reveal_with_fuel(ticks, 2);
    reveal(ld_model);
    reveal(read8_model);
    reveal(write8_model);
}

/// An accumulator operation with a register takes one machine cycle. It
/// leaves what the operation gives, and PC past the next opcode.
pub proof fn lemma_alu_register(cpu: Cpu, bus: BusView, op: Alu, r: Reg8)
    requires
        about_to_start(cpu, bus, Instr::Alu(op, Operand8::Reg(r))),
    ensures
        takes(cpu, bus, 1),
        ({
            let (c, b) = ticks(cpu, bus, 1);
            &&& b == entered(cpu, bus)
            &&& c.regs == cpu.regs.after_alu(op, cpu.regs.reg8(r)).with_pc(
                cpu.regs.pc.wrapping_add(1),
            )
        }),
{
    reveal_with_fuel(takes, 2);
    reveal_with_fuel(ticks, 2);
    reveal(alu_model);
    reveal(read8_model);
}

/// An accumulator operation with an immediate byte takes two machine
/// cycles. It leaves what the operation gives with the byte at PC, and PC
/// past the byte and the next opcode.
#[verifier::rlimit(50)]
pub proof fn lemma_alu_immediate(cpu: Cpu, bus: BusView, op: Alu)
    requires
        about_to_start(cpu, bus, Instr::Alu(op, Operand8::Imm)),
    ensures
        takes(cpu, bus, 2),
        ({
            let (c, b) = ticks(cpu, bus, 2);
            &&& b == entered(cpu, bus)
            &&& c.regs == cpu.regs.after_alu(op, bus.read(cpu.regs.pc)).with_pc(
                cpu.regs.pc.wrapping_add(1).wrapping_add(1),
            )
        }),
{
    reveal_with_fuel(takes, 3);
    reveal_with_fuel(ticks, 3);
    reveal(alu_model);
    reveal(read8_model);
}

/// An operation that changes a register in place takes one machine
/// cycle. It leaves the flags and the new value that the operation gives,
/// and PC past the next opcode.
pub proof fn lemma_modify_register(cpu: Cpu, bus: BusView, op: Modify, r: Reg8)
    requires
        about_to_start(cpu, bus, Instr::Modify(op, Operand8::Reg(r))),
    ensures
        takes(cpu, bus, 1),
        ({
            let (flags, out) = cpu.regs.after_modify(op, cpu.regs.reg8(r));
            let (c, b) = ticks(cpu, bus, 1);
            &&& b == entered(cpu, bus)
            &&& c.regs == flags.with_reg8(r, out).with_pc(cpu.regs.pc.wrapping_add(1))
        }),
{
    reveal_with_fuel(takes, 2);
    reveal_with_fuel(ticks, 2);
    reveal(modify_model);
    reveal(read8_model);
    reveal(write8_model);
}

/// An operation that changes the byte at HL in place takes three machine
/// cycles. It leaves the flags that the operation gives, the new value at
/// HL, and PC past the next opcode.
pub proof fn lemma_modify_memory(cpu: Cpu, bus: BusView, op: Modify)
    requires
        about_to_start(cpu, bus, Instr::Modify(op, Operand8::Ind(Indirect::HL))),
    ensures
        takes(cpu, bus, 3),
        ({
            let (flags, out) = cpu.regs.after_modify(op, bus.read(cpu.regs.hl()));
            let (c, b) = ticks(cpu, bus, 3);
            &&& b == entered(cpu, bus).write(cpu.regs.hl(), out)
            &&& c.regs == flags.with_pc(cpu.regs.pc.wrapping_add(1))
        }),
{
    reveal_with_fuel(takes, 4);
    reveal_with_fuel(ticks, 4);
    reveal(modify_model);
    reveal(read8_model);
    reveal(write8_model);
}

/// A 16-bit INC (`up`) or DEC takes two machine cycles. It leaves the
/// pair one higher or lower, wrapping at 16 bits, and PC past the next
/// opcode.
pub proof fn lemma_step16(cpu: Cpu, bus: BusView, up: bool, r: Reg16)
    requires
        about_to_start(cpu, bus, if up { Instr::Inc16(r) } else { Instr::Dec16(r) }),
    ensures
        takes(cpu, bus, 2),
        ({
            let v = cpu.regs.reg16(r);
            let out = if up { v.wrapping_add(1) } else { v.wrapping_sub(1) };
            let (c, b) = ticks(cpu, bus, 2);
            &&& b == entered(cpu, bus)
            &&& c.regs == cpu.regs.with_reg16(r, out).with_pc(
                cpu.regs.with_reg16(r, out).pc.wrapping_add(1),
            )
        }),
{
    reveal_with_fuel(takes, 3);
    reveal_with_fuel(ticks, 3);
    reveal(step16_model);
    reveal(read16_model);
    reveal(write16_model);
}

/// PUSH takes four machine cycles. It leaves the high byte of the pair
/// at SP - 1, the low byte at SP - 2, and SP two lower; PC has moved past
/// the next opcode.
#[verifier::rlimit(50)]
pub proof fn lemma_push(cpu: Cpu, bus: BusView, src: Reg16)
    requires
        about_to_start(cpu, bus, Instr::Push(src)),
    ensures
        takes(cpu, bus, 4),
        ({
            let v = cpu.regs.reg16(src);
            let sp1 = cpu.regs.sp.wrapping_sub(1);
            let sp2 = cpu.regs.sp.wrapping_sub(2);
            let (c, b) = ticks(cpu, bus, 4);
            &&& b == entered(cpu, bus).write(sp1, (v / 256) as u8).write(sp2, (v % 256) as u8)
            &&& c.regs == cpu.regs.with_sp(sp2).with_pc(cpu.regs.pc.wrapping_add(1))
            &&& c.ctx.opcode == b.read(cpu.regs.pc)
        }),
{
    reveal_with_fuel(takes, 5);
    reveal_with_fuel(ticks, 5);
    reveal(push_model);
}

/// POP takes three machine cycles. It takes the low byte of the pair
/// from SP, the high byte from SP + 1, and leaves SP two higher; PC has
/// moved past the next opcode.
#[verifier::rlimit(50)]
pub proof fn lemma_pop(cpu: Cpu, bus: BusView, dst: Reg16)
    requires
        about_to_start(cpu, bus, Instr::Pop(dst)),
    ensures
        takes(cpu, bus, 3),
        ({
            let lo = bus.read(cpu.regs.sp);
            let hi = bus.read(cpu.regs.sp.wrapping_add(1));
            let (c, b) = ticks(cpu, bus, 3);
            &&& b == entered(cpu, bus)
            &&& c.regs == cpu.regs.with_sp(cpu.regs.sp.wrapping_add(2)).with_reg16(
                dst,
                word(hi, lo),
            ).with_pc(cpu.regs.pc.wrapping_add(1))
        }),
{
    reveal_with_fuel(takes, 4);
    reveal_with_fuel(ticks, 4);
    reveal(pop_model);
}

/// CALL takes six machine cycles. It pushes the address of the
/// instruction after it, and leaves PC past the opcode at the target.
#[verifier::rlimit(50)]
pub proof fn lemma_call(cpu: Cpu, bus: BusView)
    requires
        about_to_start(cpu, bus, Instr::Call),
    ensures
        takes(cpu, bus, 6),
        ({
            let target = word_at(bus, cpu.regs.pc);
            let back = cpu.regs.pc.wrapping_add(2);
            let (c, b) = ticks(cpu, bus, 6);
            &&& b == pushed(entered(cpu, bus), cpu.regs.sp, back)
            &&& c.regs == cpu.regs.with_sp(cpu.regs.sp.wrapping_sub(2)).with_pc(
                target.wrapping_add(1),
            )
            &&& c.ctx.opcode == b.read(target)
            &&& !c.ctx.ime_pending
        }),
{
    reveal_with_fuel(takes, 7);
    reveal_with_fuel(ticks, 7);
    reveal(call_model);
    reveal(call_push);
    reveal(read16_model);
}

/// RET takes four machine cycles. It pops the address to return to, and
/// leaves PC past the opcode at that address.
#[verifier::rlimit(50)]
pub proof fn lemma_ret(cpu: Cpu, bus: BusView)
    requires
        about_to_start(cpu, bus, Instr::Ret),
    ensures
        takes(cpu, bus, 4),
        ({
            let back = word_at(bus, cpu.regs.sp);
            let (c, b) = ticks(cpu, bus, 4);
            &&& b == entered(cpu, bus)
            &&& c.regs == cpu.regs.with_sp(cpu.regs.sp.wrapping_add(2)).with_pc(
                back.wrapping_add(1),
            )
            &&& c.ctx.opcode == b.read(back)
        }),
{
    reveal_with_fuel(takes, 5);
    reveal_with_fuel(ticks, 5);
    reveal(ret_model);
}

/// The dispatch of an interrupt takes five machine cycles and a sixth for
/// the fetch of the handler's first opcode. The source is acknowledged
/// and the master enable cleared; the address of the instruction that
/// was about to start is pushed; after the fifth cycle PC is the source's
/// vector, after the sixth it is past the opcode there.
#[verifier::rlimit(50)]
pub proof fn lemma_dispatch(cpu: Cpu, bus: BusView, source: Source)
    requires
        !cpu.ctx.locked,
        !cpu.ctx.servicing,
        !cpu.ctx.busy,
        cpu.ctx.at_rest(),
        due(bus) == Some(source),
    ensures
        takes(cpu, bus, 6),
        ticks(cpu, bus, 5).0.regs.pc == source.vector(),
        ({
            let back = cpu.regs.pc.wrapping_sub(1);
            let acknowledged = BusView { irq: bus.irq.ack(source).set_ime(false), ..bus };
            let (c, b) = ticks(cpu, bus, 6);
            &&& b == pushed(acknowledged, cpu.regs.sp, back)
            &&& c.regs == cpu.regs.with_sp(cpu.regs.sp.wrapping_sub(2)).with_pc(
                source.vector().wrapping_add(1),
            )
            &&& c.ctx.opcode == b.read(source.vector())
            &&& !c.ctx.servicing
        }),
{
    reveal_with_fuel(takes, 7);
    reveal_with_fuel(ticks, 7);
}

/// STOP takes one machine cycle and changes nothing but PC.
pub proof fn lemma_stop(cpu: Cpu, bus: BusView)
    requires
        about_to_start(cpu, bus, Instr::Stop),
    ensures
        takes(cpu, bus, 1),
        ({
            let (c, b) = ticks(cpu, bus, 1);
            &&& b == entered(cpu, bus)
            &&& c.regs == cpu.regs.with_pc(cpu.regs.pc.wrapping_add(1))
        }),
{
    reveal_with_fuel(takes, 2);
    reveal_with_fuel(ticks, 2);
    reveal(nop_model);
}

/// LD SP,HL takes one machine cycle and leaves HL in SP.
pub proof fn lemma_ld_sp_hl(cpu: Cpu, bus: BusView)
    requires
        about_to_start(cpu, bus, Instr::LdSpHl),
    ensures
        takes(cpu, bus, 1),
        ({
            let (c, b) = ticks(cpu, bus, 1);
            &&& b == entered(cpu, bus)
            &&& c.regs == cpu.regs.with_sp(cpu.regs.hl()).with_pc(cpu.regs.pc.wrapping_add(1))
        }),
{
    reveal_with_fuel(takes, 2);
    reveal_with_fuel(ticks, 2);
    reveal(ld_sp_hl_model);
}

/// DAA takes one machine cycle and leaves the accumulator adjusted.
pub proof fn lemma_daa(cpu: Cpu, bus: BusView)
    requires
        about_to_start(cpu, bus, Instr::Daa),
    ensures
        takes(cpu, bus, 1),
        ({
            let (c, b) = ticks(cpu, bus, 1);
            &&& b == entered(cpu, bus)
            &&& c.regs == cpu.regs.after_daa().with_pc(cpu.regs.pc.wrapping_add(1))
        }),
{
    reveal_with_fuel(takes, 2);
    reveal_with_fuel(ticks, 2);
    reveal(daa_model);
}

/// CPL takes one machine cycle and leaves the accumulator complemented.
pub proof fn lemma_cpl(cpu: Cpu, bus: BusView)
    requires
        about_to_start(cpu, bus, Instr::Cpl),
    ensures
        takes(cpu, bus, 1),
        ({
            let (c, b) = ticks(cpu, bus, 1);
            &&& b == entered(cpu, bus)
            &&& c.regs == cpu.regs.after_cpl().with_pc(cpu.regs.pc.wrapping_add(1))
        }),
{
    reveal_with_fuel(takes, 2);
    reveal_with_fuel(ticks, 2);
    reveal(cpl_model);
}

/// SCF takes one machine cycle and leaves the carry flag set.
pub proof fn lemma_scf(cpu: Cpu, bus: BusView)
    requires
        about_to_start(cpu, bus, Instr::Scf),
    ensures
        takes(cpu, bus, 1),
        ({
            let (c, b) = ticks(cpu, bus, 1);
            &&& b == entered(cpu, bus)
            &&& c.regs == cpu.regs.after_scf().with_pc(cpu.regs.pc.wrapping_add(1))
        }),
{
    reveal_with_fuel(takes, 2);
    reveal_with_fuel(ticks, 2);
    reveal(scf_model);
}

/// CCF takes one machine cycle and leaves the carry flag inverted.
pub proof fn lemma_ccf(cpu: Cpu, bus: BusView)
    requires
        about_to_start(cpu, bus, Instr::Ccf),
    ensures
        takes(cpu, bus, 1),
        ({
            let (c, b) = ticks(cpu, bus, 1);
            &&& b == entered(cpu, bus)
            &&& c.regs == cpu.regs.after_ccf().with_pc(cpu.regs.pc.wrapping_add(1))
        }),
{
    reveal_with_fuel(takes, 2);
    reveal_with_fuel(ticks, 2);
    reveal(ccf_model);
}

/// A rotate of the accumulator takes one machine cycle.
pub proof fn lemma_rotate_a(cpu: Cpu, bus: BusView, kind: Shift)
    requires
        about_to_start(cpu, bus, Instr::RotateA(kind)),
    ensures
        takes(cpu, bus, 1),
        ({
            let (c, b) = ticks(cpu, bus, 1);
            &&& b == entered(cpu, bus)
            &&& c.regs == cpu.regs.after_rotate_a(kind).with_pc(cpu.regs.pc.wrapping_add(1))
        }),
{
    reveal_with_fuel(takes, 2);
    reveal_with_fuel(ticks, 2);
    reveal(rotate_a_model);
}

/// JP HL takes one machine cycle and leaves PC past the opcode at HL.
pub proof fn lemma_jp_hl(cpu: Cpu, bus: BusView)
    requires
        about_to_start(cpu, bus, Instr::JpHl),
    ensures
        takes(cpu, bus, 1),
        ({
            let (c, b) = ticks(cpu, bus, 1);
            &&& b == entered(cpu, bus)
            &&& c.regs == cpu.regs.with_pc(cpu.regs.hl().wrapping_add(1))
            &&& c.ctx.opcode == b.read(cpu.regs.hl())
        }),
{
    reveal_with_fuel(takes, 2);
    reveal_with_fuel(ticks, 2);
    reveal(jp_hl_model);
}

/// DI takes one machine cycle. It clears the master enable and a pending
/// EI.
pub proof fn lemma_di(cpu: Cpu, bus: BusView)
    requires
        about_to_start(cpu, bus, Instr::Di),
    ensures
        takes(cpu, bus, 1),
        ({
            let (c, b) = ticks(cpu, bus, 1);
            &&& b == (BusView { irq: bus.irq.set_ime(false), ..bus })
            &&& c.regs == cpu.regs.with_pc(cpu.regs.pc.wrapping_add(1))
            &&& !c.ctx.ime_pending
        }),
{
    reveal_with_fuel(takes, 2);
    reveal_with_fuel(ticks, 2);
    reveal(di_model);
}

/// EI takes one machine cycle. It leaves the master enable as it finds
/// it and marks it as to be raised when the next instruction starts.
pub proof fn lemma_ei(cpu: Cpu, bus: BusView)
    requires
        about_to_start(cpu, bus, Instr::Ei),
    ensures
        takes(cpu, bus, 1),
        ({
            let (c, b) = ticks(cpu, bus, 1);
            &&& b == entered(cpu, bus)
            &&& c.regs == cpu.regs.with_pc(cpu.regs.pc.wrapping_add(1))
            &&& c.ctx.ime_pending
        }),
{
    reveal_with_fuel(takes, 2);
    reveal_with_fuel(ticks, 2);
    reveal(ei_model);
}

/// A load from memory through registers takes two machine cycles. The
/// register takes the byte at the address; HL moves first where the
/// operand says so.
pub proof fn lemma_ld_reg_ind(cpu: Cpu, bus: BusView, dst: Reg8, src: Indirect)
    requires
        about_to_start(cpu, bus, Instr::Ld(Operand8::Reg(dst), Operand8::Ind(src))),
    ensures
        takes(cpu, bus, 2),
        ({
            let v = bus.read(cpu.regs.indirect_addr(src));
            let (c, b) = ticks(cpu, bus, 2);
            &&& b == entered(cpu, bus)
            &&& c.regs == cpu.regs.after_indirect(src).with_reg8(dst, v).with_pc(cpu.regs.pc.wrapping_add(1))
        }),
{
    reveal_with_fuel(takes, 3);
    reveal_with_fuel(ticks, 3);
    reveal(ld_model);
    reveal(read8_model);
    reveal(write8_model);
}

/// A store through registers takes two machine cycles. The byte at the
/// address takes what the register holds; HL moves where the operand says
/// so.
pub proof fn lemma_ld_ind_reg(cpu: Cpu, bus: BusView, dst: Indirect, src: Reg8)
    requires
        about_to_start(cpu, bus, Instr::Ld(Operand8::Ind(dst), Operand8::Reg(src))),
    ensures
        takes(cpu, bus, 2),
        ({
            let (c, b) = ticks(cpu, bus, 2);
            &&& b == entered(cpu, bus).write(cpu.regs.indirect_addr(dst), cpu.regs.reg8(src))
            &&& c.regs == cpu.regs.after_indirect(dst).with_pc(cpu.regs.pc.wrapping_add(1))
        }),
{
    reveal_with_fuel(takes, 3);
    reveal_with_fuel(ticks, 3);
    reveal(ld_model);
    reveal(read8_model);
    reveal(write8_model);
}

/// A load of an immediate byte takes two machine cycles. The register
/// takes the byte after the opcode.
pub proof fn lemma_ld_reg_imm(cpu: Cpu, bus: BusView, dst: Reg8)
    requires
        about_to_start(cpu, bus, Instr::Ld(Operand8::Reg(dst), Operand8::Imm)),
    ensures
        takes(cpu, bus, 2),
        ({
            let (c, b) = ticks(cpu, bus, 2);
            &&& b == entered(cpu, bus)
            &&& c.regs == cpu.regs.with_reg8(dst, bus.read(cpu.regs.pc)).with_pc(cpu.regs.pc.wrapping_add(1).wrapping_add(1))
        }),
{
    reveal_with_fuel(takes, 3);
    reveal_with_fuel(ticks, 3);
    reveal(ld_model);
    reveal(read8_model);
    reveal(write8_model);
}

/// A store of an immediate byte takes three machine cycles. The byte at
/// the address takes the byte after the opcode.
pub proof fn lemma_ld_ind_imm(cpu: Cpu, bus: BusView, dst: Indirect)
    requires
        about_to_start(cpu, bus, Instr::Ld(Operand8::Ind(dst), Operand8::Imm)),
    ensures
        takes(cpu, bus, 3),
        ({
            let (c, b) = ticks(cpu, bus, 3);
            &&& b == entered(cpu, bus).write(cpu.regs.indirect_addr(dst), bus.read(cpu.regs.pc))
            &&& c.regs == cpu.regs.after_indirect(dst).with_pc(cpu.regs.pc.wrapping_add(1).wrapping_add(1))
        }),
{
    reveal_with_fuel(takes, 4);
    reveal_with_fuel(ticks, 4);
    reveal(ld_model);
    reveal(read8_model);
    reveal(write8_model);
}

/// A store to an absolute address takes four machine cycles. The byte at
/// the address after the opcode takes what the register holds.
#[verifier::rlimit(50)]
pub proof fn lemma_ld_dir_reg(cpu: Cpu, bus: BusView, src: Reg8)
    requires
        about_to_start(cpu, bus, Instr::Ld(Operand8::Dir(Direct8::D), Operand8::Reg(src))),
    ensures
        takes(cpu, bus, 4),
        ({
            let (c, b) = ticks(cpu, bus, 4);
            &&& b == entered(cpu, bus).write(word_at(bus, cpu.regs.pc), cpu.regs.reg8(src))
            &&& c.regs == cpu.regs.with_pc(cpu.regs.pc.wrapping_add(1).wrapping_add(1).wrapping_add(1))
        }),
{
    reveal_with_fuel(takes, 5);
    reveal_with_fuel(ticks, 5);
    reveal(ld_model);
    reveal(read8_model);
    reveal(write8_model);
}

/// A store to the high page takes three machine cycles. The cell of the
/// page that the byte after the opcode selects takes what the register
/// holds.
pub proof fn lemma_ld_page_reg(cpu: Cpu, bus: BusView, src: Reg8)
    requires
        about_to_start(cpu, bus, Instr::Ld(Operand8::Dir(Direct8::DFF), Operand8::Reg(src))),
    ensures
        takes(cpu, bus, 3),
        ({
            let (c, b) = ticks(cpu, bus, 3);
            &&& b == entered(cpu, bus).write(word(0xFF, bus.read(cpu.regs.pc)), cpu.regs.reg8(src))
            &&& c.regs == cpu.regs.with_pc(cpu.regs.pc.wrapping_add(1).wrapping_add(1))
        }),
{
    reveal_with_fuel(takes, 4);
    reveal_with_fuel(ticks, 4);
    reveal(ld_model);
    reveal(read8_model);
    reveal(write8_model);
}

/// A load from an absolute address takes four machine cycles. The
/// register takes the byte at the address after the opcode.
#[verifier::rlimit(50)]
pub proof fn lemma_ld_reg_dir(cpu: Cpu, bus: BusView, dst: Reg8)
    requires
        about_to_start(cpu, bus, Instr::Ld(Operand8::Reg(dst), Operand8::Dir(Direct8::D))),
    ensures
        takes(cpu, bus, 4),
        ({
            let (c, b) = ticks(cpu, bus, 4);
            &&& b == entered(cpu, bus)
            &&& c.regs == cpu.regs.with_reg8(dst, bus.read(word_at(bus, cpu.regs.pc))).with_pc(cpu.regs.pc.wrapping_add(1).wrapping_add(1).wrapping_add(1))
        }),
{
    reveal_with_fuel(takes, 5);
    reveal_with_fuel(ticks, 5);
    reveal(ld_model);
    reveal(read8_model);
    reveal(write8_model);
}

/// A load from the high page takes three machine cycles. The register
/// takes the byte in the cell of the page that the byte after the opcode
/// selects.
pub proof fn lemma_ld_reg_page(cpu: Cpu, bus: BusView, dst: Reg8)
    requires
        about_to_start(cpu, bus, Instr::Ld(Operand8::Reg(dst), Operand8::Dir(Direct8::DFF))),
    ensures
        takes(cpu, bus, 3),
        ({
            let (c, b) = ticks(cpu, bus, 3);
            &&& b == entered(cpu, bus)
            &&& c.regs == cpu.regs.with_reg8(dst, bus.read(word(0xFF, bus.read(cpu.regs.pc)))).with_pc(cpu.regs.pc.wrapping_add(1).wrapping_add(1))
        }),
{
    reveal_with_fuel(takes, 4);
    reveal_with_fuel(ticks, 4);
    reveal(ld_model);
    reveal(read8_model);
    reveal(write8_model);
}

/// A load of an immediate word takes three machine cycles. The register
/// pair takes the word after the opcode.
pub proof fn lemma_ld16_reg_imm(cpu: Cpu, bus: BusView, dst: Reg16)
    requires
        about_to_start(cpu, bus, Instr::Ld16(Operand16::Reg(dst), Operand16::Imm)),
    ensures
        takes(cpu, bus, 3),
        ({
            let loaded = cpu.regs.with_reg16(dst, word_at(bus, cpu.regs.pc));
            let (c, b) = ticks(cpu, bus, 3);
            &&& b == entered(cpu, bus)
            &&& c.regs == loaded.with_pc(cpu.regs.pc.wrapping_add(1).wrapping_add(1).wrapping_add(1))
        }),
{
    reveal_with_fuel(takes, 4);
    reveal_with_fuel(ticks, 4);
    reveal(ld16_model);
    reveal(read16_model);
    reveal(write16_model);
}

/// A store of a register pair takes five machine cycles. The low byte of
/// the pair goes to the address after the opcode, the high byte to the
/// address above.
#[verifier::rlimit(50)]
pub proof fn lemma_ld16_dir_reg(cpu: Cpu, bus: BusView, src: Reg16)
    requires
        about_to_start(cpu, bus, Instr::Ld16(Operand16::Dir, Operand16::Reg(src))),
    ensures
        takes(cpu, bus, 5),
        ({
            let addr = word_at(bus, cpu.regs.pc);
            let v = cpu.regs.reg16(src);
            let (c, b) = ticks(cpu, bus, 5);
            &&& b == entered(cpu, bus).write(addr, (v % 256) as u8).write(addr.wrapping_add(1), (v / 256) as u8)
            &&& c.regs == cpu.regs.with_pc(cpu.regs.pc.wrapping_add(1).wrapping_add(1).wrapping_add(1))
        }),
{
    reveal_with_fuel(takes, 6);
    reveal_with_fuel(ticks, 6);
    reveal(ld16_model);
    reveal(read16_model);
    reveal(write16_model);
}

/// LD HL,SP+e takes three machine cycles. HL takes SP moved by the signed
/// byte after the opcode, and the flags follow the low byte of the sum.
pub proof fn lemma_ld_hl_sp_e(cpu: Cpu, bus: BusView)
    requires
        about_to_start(cpu, bus, Instr::LdHlSpE),
    ensures
        takes(cpu, bus, 3),
        ({
            let e = bus.read(cpu.regs.pc);
            let (c, b) = ticks(cpu, bus, 3);
            &&& b == entered(cpu, bus)
            &&& c.regs == cpu.regs.after_sp_offset(e).with_hl(displace(cpu.regs.sp, e)).with_pc(cpu.regs.pc.wrapping_add(1).wrapping_add(1))
        }),
{
    reveal_with_fuel(takes, 4);
    reveal_with_fuel(ticks, 4);
    reveal(ld_hl_sp_e_model);
}

/// ADD SP,e takes four machine cycles. SP moves by the signed byte after
/// the opcode, and the flags follow the low byte of the sum.
pub proof fn lemma_add_sp_e(cpu: Cpu, bus: BusView)
    requires
        about_to_start(cpu, bus, Instr::AddSpE),
    ensures
        takes(cpu, bus, 4),
        ({
            let e = bus.read(cpu.regs.pc);
            let (c, b) = ticks(cpu, bus, 4);
            &&& b == entered(cpu, bus)
            &&& c.regs == cpu.regs.after_sp_offset(e).with_sp(displace(cpu.regs.sp, e)).with_pc(cpu.regs.pc.wrapping_add(1).wrapping_add(1))
        }),
{
    reveal_with_fuel(takes, 5);
    reveal_with_fuel(ticks, 5);
    reveal(add_sp_e_model);
}

/// ADD HL,rr takes two machine cycles and leaves the sum in HL.
pub proof fn lemma_add_hl(cpu: Cpu, bus: BusView, src: Reg16)
    requires
        about_to_start(cpu, bus, Instr::AddHl(src)),
    ensures
        takes(cpu, bus, 2),
        ({
            let added = cpu.regs.after_add_hl(cpu.regs.reg16(src));
            let (c, b) = ticks(cpu, bus, 2);
            &&& b == entered(cpu, bus)
            &&& c.regs == added.with_pc(cpu.regs.pc.wrapping_add(1))
        }),
{
    reveal_with_fuel(takes, 3);
    reveal_with_fuel(ticks, 3);
    reveal(add_hl_reg16_model);
}

/// An accumulator operation with a byte in memory takes two machine
/// cycles. It leaves what the operation gives with the byte at the
/// address; HL moves first where the operand says so.
pub proof fn lemma_alu_ind(cpu: Cpu, bus: BusView, op: Alu, src: Indirect)
    requires
        about_to_start(cpu, bus, Instr::Alu(op, Operand8::Ind(src))),
    ensures
        takes(cpu, bus, 2),
        ({
            let v = bus.read(cpu.regs.indirect_addr(src));
            let (c, b) = ticks(cpu, bus, 2);
            &&& b == entered(cpu, bus)
            &&& c.regs == cpu.regs.after_indirect(src).after_alu(op, v).with_pc(cpu.regs.pc.wrapping_add(1))
        }),
{
    reveal_with_fuel(takes, 3);
    reveal_with_fuel(ticks, 3);
    reveal(alu_model);
    reveal(read8_model);
}

/// JP takes four machine cycles and leaves PC past the opcode at the
/// target.
#[verifier::rlimit(50)]
pub proof fn lemma_jp(cpu: Cpu, bus: BusView)
    requires
        about_to_start(cpu, bus, Instr::Jp),
    ensures
        takes(cpu, bus, 4),
        ({
            let target = word_at(bus, cpu.regs.pc);
            let (c, b) = ticks(cpu, bus, 4);
            &&& b == entered(cpu, bus)
            &&& c.regs == cpu.regs.with_pc(target.wrapping_add(1))
            &&& c.ctx.opcode == b.read(target)
        }),
{
    reveal_with_fuel(takes, 5);
    reveal_with_fuel(ticks, 5);
    reveal(jp_model);
    reveal(read16_model);
}

/// JR takes three machine cycles. It moves PC, as it stands after the
/// offset, by the signed offset, and leaves it past the opcode there.
pub proof fn lemma_jr(cpu: Cpu, bus: BusView)
    requires
        about_to_start(cpu, bus, Instr::Jr),
    ensures
        takes(cpu, bus, 3),
        ({
            let target = displace(cpu.regs.pc.wrapping_add(1), bus.read(cpu.regs.pc));
            let (c, b) = ticks(cpu, bus, 3);
            &&& b == entered(cpu, bus)
            &&& c.regs == cpu.regs.with_pc(target.wrapping_add(1))
            &&& c.ctx.opcode == b.read(target)
        }),
{
    reveal_with_fuel(takes, 4);
    reveal_with_fuel(ticks, 4);
    reveal(jr_model);
}

/// RETI takes four machine cycles. It pops the address to return to,
/// leaves PC past the opcode at that address, and raises the master
/// enable.
pub proof fn lemma_reti(cpu: Cpu, bus: BusView)
    requires
        about_to_start(cpu, bus, Instr::Reti),
    ensures
        takes(cpu, bus, 4),
        ({
            let back = word_at(bus, cpu.regs.sp);
            let (c, b) = ticks(cpu, bus, 4);
            &&& b == (BusView { irq: bus.irq.set_ime(true), ..bus })
            &&& c.regs == cpu.regs.with_sp(cpu.regs.sp.wrapping_add(2)).with_pc(back.wrapping_add(1))
            &&& c.ctx.opcode == b.read(back)
        }),
{
    reveal_with_fuel(takes, 5);
    reveal_with_fuel(ticks, 5);
    reveal(reti_model);
}

/// RST takes four machine cycles. It pushes the address of the
/// instruction after it and leaves PC past the opcode at `addr`.
pub proof fn lemma_rst(cpu: Cpu, bus: BusView, addr: u8)
    requires
        about_to_start(cpu, bus, Instr::Rst(addr)),
    ensures
        takes(cpu, bus, 4),
        ({
            let (c, b) = ticks(cpu, bus, 4);
            &&& b == pushed(entered(cpu, bus), cpu.regs.sp, cpu.regs.pc)
            &&& c.regs == cpu.regs.with_sp(cpu.regs.sp.wrapping_sub(2)).with_pc((addr as u16).wrapping_add(1))
            &&& c.ctx.opcode == b.read(addr as u16)
        }),
{
    reveal_with_fuel(takes, 5);
    reveal_with_fuel(ticks, 5);
    reveal(rst_model);
}

/// JP cc takes four machine cycles when the condition holds and three
/// when it does not: the jump costs one. It leaves PC past the opcode at
/// the target, or past the opcode after the target's two bytes.
pub proof fn lemma_jp_c(cpu: Cpu, bus: BusView, cond: Cond)
    requires
        about_to_start(cpu, bus, Instr::JpC(cond)),
    ensures
        cpu.regs.meets(cond) ==> takes(cpu, bus, 4),
        !cpu.regs.meets(cond) ==> takes(cpu, bus, 3),
        ({
            let target = word_at(bus, cpu.regs.pc);
            if cpu.regs.meets(cond) {
                let (c, b) = ticks(cpu, bus, 4);
                &&& b == entered(cpu, bus)
                &&& c.regs == cpu.regs.with_pc(target.wrapping_add(1))
            } else {
                let (c, b) = ticks(cpu, bus, 3);
                &&& b == entered(cpu, bus)
                &&& c.regs == cpu.regs.with_pc(cpu.regs.pc.wrapping_add(1).wrapping_add(1).wrapping_add(1))
            }
        }),
{
    reveal_with_fuel(takes, 5);
    reveal_with_fuel(ticks, 5);
    reveal(jp_c_model);
    reveal(read16_model);
}

/// JR cc takes three machine cycles when the condition holds and two
/// when it does not: the jump costs one. It leaves PC moved by the signed
/// offset and past the opcode there, or past the opcode after the offset.
pub proof fn lemma_jr_c(cpu: Cpu, bus: BusView, cond: Cond)
    requires
        about_to_start(cpu, bus, Instr::JrC(cond)),
    ensures
        cpu.regs.meets(cond) ==> takes(cpu, bus, 3),
        !cpu.regs.meets(cond) ==> takes(cpu, bus, 2),
        ({
            let target = displace(cpu.regs.pc.wrapping_add(1), bus.read(cpu.regs.pc));
            if cpu.regs.meets(cond) {
                let (c, b) = ticks(cpu, bus, 3);
                &&& b == entered(cpu, bus)
                &&& c.regs == cpu.regs.with_pc(target.wrapping_add(1))
            } else {
                let (c, b) = ticks(cpu, bus, 2);
                &&& b == entered(cpu, bus)
                &&& c.regs == cpu.regs.with_pc(cpu.regs.pc.wrapping_add(1).wrapping_add(1))
            }
        }),
{
    reveal_with_fuel(takes, 4);
    reveal_with_fuel(ticks, 4);
    reveal(jr_c_model);
}

/// CALL cc takes six machine cycles when the condition holds and three
/// when it does not. It does what CALL does, or leaves PC past the opcode
/// after the target's two bytes.
#[verifier::rlimit(50)]
pub proof fn lemma_call_c(cpu: Cpu, bus: BusView, cond: Cond)
    requires
        about_to_start(cpu, bus, Instr::CallC(cond)),
    ensures
        cpu.regs.meets(cond) ==> takes(cpu, bus, 6),
        !cpu.regs.meets(cond) ==> takes(cpu, bus, 3),
        ({
            let target = word_at(bus, cpu.regs.pc);
            if cpu.regs.meets(cond) {
                let (c, b) = ticks(cpu, bus, 6);
                &&& b == pushed(entered(cpu, bus), cpu.regs.sp, cpu.regs.pc.wrapping_add(2))
                &&& c.regs == cpu.regs.with_sp(cpu.regs.sp.wrapping_sub(2)).with_pc(target.wrapping_add(1))
            } else {
                let (c, b) = ticks(cpu, bus, 3);
                &&& b == entered(cpu, bus)
                &&& c.regs == cpu.regs.with_pc(cpu.regs.pc.wrapping_add(1).wrapping_add(1).wrapping_add(1))
            }
        }),
{
    reveal_with_fuel(takes, 7);
    reveal_with_fuel(ticks, 7);
    reveal(call_c_model);
    reveal(call_push);
    reveal(read16_model);
}

/// RET cc takes five machine cycles when the condition holds and two
/// when it does not. It does what RET does, or leaves PC past the next
/// opcode.
pub proof fn lemma_ret_c(cpu: Cpu, bus: BusView, cond: Cond)
    requires
        about_to_start(cpu, bus, Instr::RetC(cond)),
    ensures
        cpu.regs.meets(cond) ==> takes(cpu, bus, 5),
        !cpu.regs.meets(cond) ==> takes(cpu, bus, 2),
        ({
            let back = word_at(bus, cpu.regs.sp);
            if cpu.regs.meets(cond) {
                let (c, b) = ticks(cpu, bus, 5);
                &&& b == entered(cpu, bus)
                &&& c.regs == cpu.regs.with_sp(cpu.regs.sp.wrapping_add(2)).with_pc(back.wrapping_add(1))
            } else {
                let (c, b) = ticks(cpu, bus, 2);
                &&& b == entered(cpu, bus)
                &&& c.regs == cpu.regs.with_pc(cpu.regs.pc.wrapping_add(1))
            }
        }),
{
    reveal_with_fuel(takes, 6);
    reveal_with_fuel(ticks, 6);
    reveal(ret_c_model);
}

/// A prefixed operation that changes a register in place takes two
/// machine cycles, one of them for the prefix byte. It leaves the flags and
/// the new value that the operation gives.
pub proof fn lemma_prefixed_modify_register(cpu: Cpu, bus: BusView, op: Modify, at: Reg8)
    requires
        about_to_start(cpu, bus, Instr::Prefix),
        prefixed_instr_of(bus.read(cpu.regs.pc)) == Instr::Modify(op, Operand8::Reg(at)),
    ensures
        takes(cpu, bus, 2),
        ({
            let (flags, out) = cpu.regs.after_modify(op, cpu.regs.reg8(at));
            let (c, b) = ticks(cpu, bus, 2);
            &&& b == entered(cpu, bus)
            &&& c.regs == flags.with_reg8(at, out).with_pc(cpu.regs.pc.wrapping_add(1).wrapping_add(1))
        }),
{
    reveal_with_fuel(takes, 3);
    reveal_with_fuel(ticks, 3);
    reveal(modify_model);
    reveal(read8_model);
    reveal(write8_model);
}

/// A prefixed operation that changes the byte at HL in place takes four
/// machine cycles, one of them for the prefix byte. It leaves the flags
/// that the operation gives and the new value at HL.
#[verifier::rlimit(50)]
pub proof fn lemma_prefixed_modify_memory(cpu: Cpu, bus: BusView, op: Modify)
    requires
        about_to_start(cpu, bus, Instr::Prefix),
        prefixed_instr_of(bus.read(cpu.regs.pc)) == Instr::Modify(op, Operand8::Ind(Indirect::HL)),
    ensures
        takes(cpu, bus, 4),
        ({
            let (flags, out) = cpu.regs.after_modify(op, bus.read(cpu.regs.hl()));
            let (c, b) = ticks(cpu, bus, 4);
            &&& b == entered(cpu, bus).write(cpu.regs.hl(), out)
            &&& c.regs == flags.with_pc(cpu.regs.pc.wrapping_add(1).wrapping_add(1))
        }),
{
    reveal(modify_model);
    reveal(read8_model);
    reveal(write8_model);
    let at = Operand8::Ind(Indirect::HL);
    let b0 = entered(cpu, bus);
    let hl = cpu.regs.hl();
    let (flags, out) = cpu.regs.after_modify(op, bus.read(hl));
    let (c1, b1) = tick_model(cpu, bus);
    assert(b1 == b0 && c1.ctx.busy && !c1.ctx.cb && c1.ctx.immediate.step == 1
        && c1.ctx.immediate.val8 == bus.read(cpu.regs.pc) && c1.ctx.opcode == cpu.ctx.opcode
        && c1.ctx.step == 0 && c1.ctx.operand.step == 0 && c1.regs == cpu.regs.with_pc(
        cpu.regs.pc.wrapping_add(1),
    ) && !c1.ctx.locked && !c1.ctx.servicing);
    let (c2, b2) = tick_model(c1, b1);
    assert(b2 == b0 && c2.ctx.busy && c2.ctx.cb && c2.ctx.opcode == bus.read(cpu.regs.pc)
        && c2.ctx.step == 0 && c2.ctx.operand.step == 1 && c2.ctx.operand.val8 == bus.read(hl)
        && c2.regs == c1.regs && !c2.ctx.locked && !c2.ctx.servicing);
    let (c3, b3) = tick_model(c2, b2);
    assert(c3 == modify_model(c2, b2, op, at).0 && b3 == modify_model(c2, b2, op, at).1);
    assert(b3 == b0.write(hl, out) && c3.ctx.busy && c3.ctx.cb && c3.ctx.opcode == c2.ctx.opcode
        && c3.ctx.step == 1 && c3.ctx.operand.step == 1 && c3.ctx.val8 == out && c3.regs
        == flags.with_pc(cpu.regs.pc.wrapping_add(1)) && !c3.ctx.locked && !c3.ctx.servicing);
    let (c4, b4) = tick_model(c3, b3);
    assert(c4 == modify_model(c3, b3, op, at).0 && b4 == modify_model(c3, b3, op, at).1);
    assert(b4 == b3 && !c4.ctx.busy && c4.regs == flags.with_pc(
        cpu.regs.pc.wrapping_add(1).wrapping_add(1),
    ));
    assert(takes(cpu, bus, 4)) by {
        reveal_with_fuel(takes, 5);
    }
    assert(ticks(cpu, bus, 4) == (c4, b4)) by {
        reveal_with_fuel(ticks, 5);
    }
}

/// BIT on a register takes two machine cycles, one of them for the
/// prefix byte, and changes nothing but flags.
pub proof fn lemma_prefixed_bit_register(cpu: Cpu, bus: BusView, n: u8, src: Reg8)
    requires
        about_to_start(cpu, bus, Instr::Prefix),
        prefixed_instr_of(bus.read(cpu.regs.pc)) == Instr::Bit(n, Operand8::Reg(src)),
    ensures
        takes(cpu, bus, 2),
        ({
            let (c, b) = ticks(cpu, bus, 2);
            &&& b == entered(cpu, bus)
            &&& c.regs == cpu.regs.after_bit(n, cpu.regs.reg8(src)).with_pc(cpu.regs.pc.wrapping_add(1).wrapping_add(1))
        }),
{
    reveal_with_fuel(takes, 3);
    reveal_with_fuel(ticks, 3);
    reveal(bit_model);
    reveal(read8_model);
}

/// BIT on the byte at HL takes three machine cycles, one of them for the
/// prefix byte, and changes nothing but flags.
pub proof fn lemma_prefixed_bit_memory(cpu: Cpu, bus: BusView, n: u8)
    requires
        about_to_start(cpu, bus, Instr::Prefix),
        prefixed_instr_of(bus.read(cpu.regs.pc)) == Instr::Bit(n, Operand8::Ind(Indirect::HL)),
    ensures
        takes(cpu, bus, 3),
        ({
            let (c, b) = ticks(cpu, bus, 3);
            &&& b == entered(cpu, bus)
            &&& c.regs == cpu.regs.after_bit(n, bus.read(cpu.regs.hl())).with_pc(cpu.regs.pc.wrapping_add(1).wrapping_add(1))
        }),
{
    reveal_with_fuel(takes, 4);
    reveal_with_fuel(ticks, 4);
    reveal(bit_model);
    reveal(read8_model);
}

/// EI takes effect one instruction late. With the master enable clear
/// as EI starts, it is still clear when EI ends, so that no interrupt is
/// dispatched in place of the next instruction; that instruction finds it
/// raised.
pub proof fn lemma_ei_takes_effect_later(cpu: Cpu, bus: BusView)
    requires
        about_to_start(cpu, bus, Instr::Ei),
        !cpu.ctx.ime_pending,
        !bus.irq.ime,
    ensures
        ({
            let (c, b) = ticks(cpu, bus, 1);
            &&& !b.irq.ime
            &&& due(b) is None
            &&& entered(c, b).irq.ime
        }),
{
    lemma_ei(cpu, bus);
}

} // verus!
