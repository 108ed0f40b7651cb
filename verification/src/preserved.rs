//! What every machine cycle preserves.
use vstd::prelude::*;
use crate::alu::{Alu, Modify, Shift};
use crate::bootrom::BootromView;
use crate::cartridge::CartridgeView;
use crate::cpu::{due, fetch_model, tick_model, Cpu, Ctx};
use crate::decoder::{decode_model, exec_model, instr_of, prefixed_instr_of, Instr};
use crate::instruction::{
    add_hl_reg16_model, add_sp_e_model, alu_model, bit_model, call_c_model, call_model,
    call_push, ccf_model, cpl_model, daa_model, di_model, ei_model, halt_model, jp_c_model,
    jp_hl_model, jp_model, jr_c_model, jr_model, ld16_model, ld_hl_sp_e_model, ld_model,
    ld_sp_hl_model, modify_model, nop_model, pop16_model, pop_model, push16_model, push_model,
    ret_c_model, ret_model, reti_model, rotate_a_model, rst_model, scf_model, step16_model,
};
use crate::interrupts::lemma_request_and_ack;
use crate::operand::{
    read16_model, read8_model, read_imm8, write16_model, write8_model, Cond, Operand16, Operand8,
    Reg16,
};
use crate::peripherals::BusView;
use crate::ppu::PpuView;
use crate::register::{lemma_flags_are_independent, Registres};

verus! {

/// `post` has the F register, the busy mark and the dispatch mark of
/// `pre`.
pub open spec fn same_frame(pre: Cpu, post: Cpu) -> bool {
    &&& post.regs.f == pre.regs.f
    &&& post.ctx.busy == pre.ctx.busy
    &&& post.ctx.servicing == pre.ctx.servicing
}

/// From `pre` to `post` the low nibble of F stays zero, the busy mark
/// either stays or is cleared with every step counter at zero, and the
/// dispatch mark stays.
pub open spec fn keeps(pre: Cpu, post: Cpu) -> bool {
    &&& pre.regs.flags_clean() ==> post.regs.flags_clean()
    &&& post.ctx.busy == pre.ctx.busy || (!post.ctx.busy && post.ctx.at_rest())
    &&& post.ctx.servicing == pre.ctx.servicing
}

/// From `pre` to `post` every memory keeps its length, the two ROM images
/// are as they were, and a boot ROM that was unmapped stays unmapped.
pub open spec fn bus_kept(pre: BusView, post: BusView) -> bool {
    &&& pre.wf() ==> post.wf()
    &&& post.boot.rom == pre.boot.rom
    &&& post.cart.rom == pre.cart.rom
    &&& !pre.boot.active ==> !post.boot.active
}

/// The memories behind the bus, without the interrupt controller.
pub open spec fn memory(bus: BusView) -> (BootromView, CartridgeView, Seq<u8>, Seq<u8>, PpuView) {
    (bus.boot, bus.cart, bus.wram, bus.hram, bus.ppu)
}

/// The memories of `post` are those of `pre`, or those of `pre` after one
/// write.
pub open spec fn one_write_apart(pre: BusView, post: BusView) -> bool {
    memory(post) == memory(pre) || exists|a: u16, v: u8|
        memory(post) == memory(#[trigger] pre.write(a, v))
}

/// `keeps` of the processor, `bus_kept` and `one_write_apart` of the bus.
pub open spec fn kept(cpu: Cpu, bus: BusView, post: (Cpu, BusView)) -> bool {
    keeps(cpu, post.0) && bus_kept(bus, post.1) && one_write_apart(bus, post.1)
}

/// No write changes the length of a memory or a ROM image, or maps the
/// boot ROM again.
pub proof fn lemma_write_is_kept(bus: BusView, addr: u16, val: u8)
    ensures
        bus_kept(bus, bus.write(addr, val)),
{
}

/// The fetch leaves F alone and leaves the processor at rest.
pub proof fn lemma_fetch(cpu: Cpu, bus: BusView)
    ensures
        fetch_model(cpu, bus).regs.f == cpu.regs.f,
        fetch_model(cpu, bus).ctx.servicing == cpu.ctx.servicing,
        !fetch_model(cpu, bus).ctx.busy,
        fetch_model(cpu, bus).ctx.at_rest(),
{
}

/// No operand access touches F, the busy mark or the dispatch mark, but
/// for a write to AF, which leaves the low nibble of F zero; and what an
/// access does to the bus is at most one write.
#[verifier::rlimit(50)]
pub proof fn lemma_operands(cpu: Cpu, bus: BusView, at8: Operand8, at16: Operand16, v8: u8, v16: u16)
    ensures
        same_frame(cpu, read_imm8(cpu, bus).0),
        same_frame(cpu, read8_model(cpu, bus, at8).0),
        same_frame(cpu, write8_model(cpu, bus, at8, v8).0),
        bus_kept(bus, write8_model(cpu, bus, at8, v8).1),
        one_write_apart(bus, write8_model(cpu, bus, at8, v8).1),
        same_frame(cpu, read16_model(cpu, bus, at16).0),
        same_frame(cpu, push16_model(cpu, bus, v16).0),
        bus_kept(bus, push16_model(cpu, bus, v16).1),
        one_write_apart(bus, push16_model(cpu, bus, v16).1),
        same_frame(cpu, pop16_model(cpu, bus).0),
        write16_model(cpu, bus, at16, v16).0.ctx.busy == cpu.ctx.busy,
        write16_model(cpu, bus, at16, v16).0.ctx.servicing == cpu.ctx.servicing,
        cpu.regs.flags_clean() ==> write16_model(cpu, bus, at16, v16).0.regs.flags_clean(),
        bus_kept(bus, write16_model(cpu, bus, at16, v16).1),
        one_write_apart(bus, write16_model(cpu, bus, at16, v16).1),
{
    reveal(read8_model);
    reveal(write8_model);
    reveal(read16_model);
    reveal(write16_model);
    assert forall|b: BusView, a: u16, v: u8| #![trigger b.write(a, v)] bus_kept(b, b.write(a, v)) by {
        lemma_write_is_kept(b, a, v);
    }
}

/// No arithmetic or logic operation sets a bit of the low nibble of F.
#[verifier::rlimit(50)]
pub proof fn lemma_alu(r: Registres, op: Alu, change: Modify, kind: Shift, n: u8, v: u8, w: u16)
    requires
        r.flags_clean(),
    ensures
        r.after_alu(op, v).flags_clean(),
        r.after_modify(change, v).0.flags_clean(),
        r.after_rotate_a(kind).flags_clean(),
        r.after_bit(n, v).flags_clean(),
        r.after_daa().flags_clean(),
        r.after_cpl().flags_clean(),
        r.after_scf().flags_clean(),
        r.after_ccf().flags_clean(),
        r.after_add_hl(w).flags_clean(),
        r.after_sp_offset(v).flags_clean(),
{
    assert forall|x: Registres, on: bool|
        #![trigger x.with_zf(on)]
        #![trigger x.with_nf(on)]
        #![trigger x.with_hf(on)]
        #![trigger x.with_cf(on)]
        x.with_zf(on).f % 16 == x.f % 16 && x.with_nf(on).f % 16 == x.f % 16 && x.with_hf(on).f
            % 16 == x.f % 16 && x.with_cf(on).f % 16 == x.f % 16 by {
        lemma_flags_are_independent(x, on);
    }
}

/// `lemma_fetch` and `lemma_operands` of every processor, bus and operand.
proof fn lemma_operands_everywhere()
    ensures
        forall|cpu: Cpu, bus: BusView| #![trigger fetch_model(cpu, bus)]
            fetch_model(cpu, bus).regs.f == cpu.regs.f && !fetch_model(cpu, bus).ctx.busy
                && fetch_model(cpu, bus).ctx.at_rest() && fetch_model(cpu, bus).ctx.servicing
                == cpu.ctx.servicing,
        forall|cpu: Cpu, bus: BusView| #![trigger read_imm8(cpu, bus)]
            same_frame(cpu, read_imm8(cpu, bus).0),
        forall|cpu: Cpu, bus: BusView, at: Operand8| #![trigger read8_model(cpu, bus, at)]
            same_frame(cpu, read8_model(cpu, bus, at).0),
        forall|cpu: Cpu, bus: BusView, at: Operand8, v: u8| #![trigger write8_model(cpu, bus, at, v)]
            same_frame(cpu, write8_model(cpu, bus, at, v).0) && bus_kept(
                bus,
                write8_model(cpu, bus, at, v).1,
            ) && one_write_apart(bus, write8_model(cpu, bus, at, v).1),
        forall|cpu: Cpu, bus: BusView, at: Operand16| #![trigger read16_model(cpu, bus, at)]
            same_frame(cpu, read16_model(cpu, bus, at).0),
        forall|cpu: Cpu, bus: BusView, v: u16| #![trigger push16_model(cpu, bus, v)]
            same_frame(cpu, push16_model(cpu, bus, v).0) && bus_kept(
                bus,
                push16_model(cpu, bus, v).1,
            ) && one_write_apart(bus, push16_model(cpu, bus, v).1),
        forall|cpu: Cpu, bus: BusView| #![trigger pop16_model(cpu, bus)]
            same_frame(cpu, pop16_model(cpu, bus).0),
        forall|cpu: Cpu, bus: BusView, at: Operand16, v: u16| #![trigger write16_model(cpu, bus, at, v)]
            write16_model(cpu, bus, at, v).0.ctx.busy == cpu.ctx.busy && write16_model(
                cpu,
                bus,
                at,
                v,
            ).0.ctx.servicing == cpu.ctx.servicing && (cpu.regs.flags_clean() ==> write16_model(
                cpu,
                bus,
                at,
                v,
            ).0.regs.flags_clean()) && bus_kept(bus, write16_model(cpu, bus, at, v).1)
                && one_write_apart(bus, write16_model(cpu, bus, at, v).1),
{
    assert forall|cpu: Cpu, bus: BusView| #![trigger fetch_model(cpu, bus)]
        fetch_model(cpu, bus).regs.f == cpu.regs.f && !fetch_model(cpu, bus).ctx.busy
            && fetch_model(cpu, bus).ctx.at_rest() && fetch_model(cpu, bus).ctx.servicing
            == cpu.ctx.servicing by {
        lemma_fetch(cpu, bus);
    }
    assert forall|cpu: Cpu, bus: BusView| #![trigger read_imm8(cpu, bus)]
        same_frame(cpu, read_imm8(cpu, bus).0) by {
        lemma_operands(cpu, bus, Operand8::Imm, Operand16::Imm, 0, 0);
    }
    assert forall|cpu: Cpu, bus: BusView, at: Operand8| #![trigger read8_model(cpu, bus, at)]
        same_frame(cpu, read8_model(cpu, bus, at).0) by {
        lemma_operands(cpu, bus, at, Operand16::Imm, 0, 0);
    }
    assert forall|cpu: Cpu, bus: BusView, at: Operand8, v: u8| #![trigger write8_model(cpu, bus, at, v)]
        same_frame(cpu, write8_model(cpu, bus, at, v).0) && bus_kept(
            bus,
            write8_model(cpu, bus, at, v).1,
        ) && one_write_apart(bus, write8_model(cpu, bus, at, v).1) by {
        lemma_operands(cpu, bus, at, Operand16::Imm, v, 0);
    }
    assert forall|cpu: Cpu, bus: BusView, at: Operand16| #![trigger read16_model(cpu, bus, at)]
        same_frame(cpu, read16_model(cpu, bus, at).0) by {
        lemma_operands(cpu, bus, Operand8::Imm, at, 0, 0);
    }
    assert forall|cpu: Cpu, bus: BusView, v: u16| #![trigger push16_model(cpu, bus, v)]
        same_frame(cpu, push16_model(cpu, bus, v).0) && bus_kept(
            bus,
            push16_model(cpu, bus, v).1,
        ) && one_write_apart(bus, push16_model(cpu, bus, v).1) by {
        lemma_operands(cpu, bus, Operand8::Imm, Operand16::Imm, 0, v);
    }
    assert forall|cpu: Cpu, bus: BusView| #![trigger pop16_model(cpu, bus)]
        same_frame(cpu, pop16_model(cpu, bus).0) by {
        lemma_operands(cpu, bus, Operand8::Imm, Operand16::Imm, 0, 0);
    }
    assert forall|cpu: Cpu, bus: BusView, at: Operand16, v: u16| #![trigger write16_model(cpu, bus, at, v)]
        write16_model(cpu, bus, at, v).0.ctx.busy == cpu.ctx.busy && write16_model(
            cpu,
            bus,
            at,
            v,
        ).0.ctx.servicing == cpu.ctx.servicing && (cpu.regs.flags_clean() ==> write16_model(
            cpu,
            bus,
            at,
            v,
        ).0.regs.flags_clean()) && bus_kept(bus, write16_model(cpu, bus, at, v).1)
            && one_write_apart(bus, write16_model(cpu, bus, at, v).1) by {
        lemma_operands(cpu, bus, Operand8::Imm, at, 0, v);
    }
}

/// `lemma_alu` of every register file and operand.
proof fn lemma_alu_everywhere()
    ensures
        forall|r: Registres, op: Alu, v: u8| #![trigger r.after_alu(op, v)]
            r.flags_clean() ==> r.after_alu(op, v).flags_clean(),
        forall|r: Registres, op: Modify, v: u8| #![trigger r.after_modify(op, v)]
            r.flags_clean() ==> r.after_modify(op, v).0.flags_clean(),
        forall|r: Registres, kind: Shift| #![trigger r.after_rotate_a(kind)]
            r.flags_clean() ==> r.after_rotate_a(kind).flags_clean(),
        forall|r: Registres, n: u8, v: u8| #![trigger r.after_bit(n, v)]
            r.flags_clean() ==> r.after_bit(n, v).flags_clean(),
        forall|r: Registres| #![trigger r.after_daa()]
            r.flags_clean() ==> r.after_daa().flags_clean(),
        forall|r: Registres| #![trigger r.after_cpl()]
            r.flags_clean() ==> r.after_cpl().flags_clean(),
        forall|r: Registres| #![trigger r.after_scf()]
            r.flags_clean() ==> r.after_scf().flags_clean(),
        forall|r: Registres| #![trigger r.after_ccf()]
            r.flags_clean() ==> r.after_ccf().flags_clean(),
        forall|r: Registres, w: u16| #![trigger r.after_add_hl(w)]
            r.flags_clean() ==> r.after_add_hl(w).flags_clean(),
        forall|r: Registres, e: u8| #![trigger r.after_sp_offset(e)]
            r.flags_clean() ==> r.after_sp_offset(e).flags_clean(),
{
    assert forall|r: Registres, op: Alu, v: u8| #![trigger r.after_alu(op, v)]
        r.flags_clean() implies r.after_alu(op, v).flags_clean() by {
        lemma_alu(r, op, Modify::Inc, Shift::Rl, 0, v, 0);
    }
    assert forall|r: Registres, op: Modify, v: u8| #![trigger r.after_modify(op, v)]
        r.flags_clean() implies r.after_modify(op, v).0.flags_clean() by {
        lemma_alu(r, Alu::Add, op, Shift::Rl, 0, v, 0);
    }
    assert forall|r: Registres, kind: Shift| #![trigger r.after_rotate_a(kind)]
        r.flags_clean() implies r.after_rotate_a(kind).flags_clean() by {
        lemma_alu(r, Alu::Add, Modify::Inc, kind, 0, 0, 0);
    }
    assert forall|r: Registres, n: u8, v: u8| #![trigger r.after_bit(n, v)]
        r.flags_clean() implies r.after_bit(n, v).flags_clean() by {
        lemma_alu(r, Alu::Add, Modify::Inc, Shift::Rl, n, v, 0);
    }
    assert forall|r: Registres| #![trigger r.after_daa()]
        r.flags_clean() implies r.after_daa().flags_clean() by {
        lemma_alu(r, Alu::Add, Modify::Inc, Shift::Rl, 0, 0, 0);
    }
    assert forall|r: Registres| #![trigger r.after_cpl()]
        r.flags_clean() implies r.after_cpl().flags_clean() by {
        lemma_alu(r, Alu::Add, Modify::Inc, Shift::Rl, 0, 0, 0);
    }
    assert forall|r: Registres| #![trigger r.after_scf()]
        r.flags_clean() implies r.after_scf().flags_clean() by {
        lemma_alu(r, Alu::Add, Modify::Inc, Shift::Rl, 0, 0, 0);
    }
    assert forall|r: Registres| #![trigger r.after_ccf()]
        r.flags_clean() implies r.after_ccf().flags_clean() by {
        lemma_alu(r, Alu::Add, Modify::Inc, Shift::Rl, 0, 0, 0);
    }
    assert forall|r: Registres, w: u16| #![trigger r.after_add_hl(w)]
        r.flags_clean() implies r.after_add_hl(w).flags_clean() by {
        lemma_alu(r, Alu::Add, Modify::Inc, Shift::Rl, 0, 0, w);
    }
    assert forall|r: Registres, e: u8| #![trigger r.after_sp_offset(e)]
        r.flags_clean() implies r.after_sp_offset(e).flags_clean() by {
        lemma_alu(r, Alu::Add, Modify::Inc, Shift::Rl, 0, e, 0);
    }
}

proof fn lemma_nop(cpu: Cpu, bus: BusView)
    ensures
        kept(cpu, bus, nop_model(cpu, bus)),
{
    reveal(nop_model);
    lemma_operands_everywhere();
}

proof fn lemma_alu_op(cpu: Cpu, bus: BusView, op: Alu, src: Operand8)
    ensures
        kept(cpu, bus, alu_model(cpu, bus, op, src)),
{
    reveal(alu_model);
    lemma_operands_everywhere();
    lemma_alu_everywhere();
}

proof fn lemma_ld(cpu: Cpu, bus: BusView, dst: Operand8, src: Operand8)
    ensures
        kept(cpu, bus, ld_model(cpu, bus, dst, src)),
{
    reveal(ld_model);
    lemma_operands_everywhere();
}

proof fn lemma_ld16(cpu: Cpu, bus: BusView, dst: Operand16, src: Operand16)
    ensures
        kept(cpu, bus, ld16_model(cpu, bus, dst, src)),
{
    reveal(ld16_model);
    lemma_operands_everywhere();
}

proof fn lemma_modify(cpu: Cpu, bus: BusView, op: Modify, at: Operand8)
    ensures
        kept(cpu, bus, modify_model(cpu, bus, op, at)),
{
    reveal(modify_model);
    lemma_operands_everywhere();
    lemma_alu_everywhere();
}

proof fn lemma_step16(cpu: Cpu, bus: BusView, up: bool, at: Operand16)
    ensures
        kept(cpu, bus, step16_model(cpu, bus, up, at)),
{
    reveal(step16_model);
    lemma_operands_everywhere();
}

proof fn lemma_rotate_a(cpu: Cpu, bus: BusView, kind: Shift)
    ensures
        kept(cpu, bus, rotate_a_model(cpu, bus, kind)),
{
    reveal(rotate_a_model);
    lemma_operands_everywhere();
    lemma_alu_everywhere();
}

proof fn lemma_bit(cpu: Cpu, bus: BusView, n: u8, src: Operand8)
    ensures
        kept(cpu, bus, bit_model(cpu, bus, n, src)),
{
    reveal(bit_model);
    lemma_operands_everywhere();
    lemma_alu_everywhere();
}

proof fn lemma_jp(cpu: Cpu, bus: BusView)
    ensures
        kept(cpu, bus, jp_model(cpu, bus)),
{
    reveal(jp_model);
    lemma_operands_everywhere();
}

proof fn lemma_jp_hl(cpu: Cpu, bus: BusView)
    ensures
        kept(cpu, bus, jp_hl_model(cpu, bus)),
{
    reveal(jp_hl_model);
    lemma_operands_everywhere();
}

proof fn lemma_jp_c(cpu: Cpu, bus: BusView, cond: Cond)
    ensures
        kept(cpu, bus, jp_c_model(cpu, bus, cond)),
{
    reveal(jp_c_model);
    lemma_operands_everywhere();
}

proof fn lemma_jr(cpu: Cpu, bus: BusView)
    ensures
        kept(cpu, bus, jr_model(cpu, bus)),
{
    reveal(jr_model);
    lemma_operands_everywhere();
}

proof fn lemma_jr_c(cpu: Cpu, bus: BusView, cond: Cond)
    ensures
        kept(cpu, bus, jr_c_model(cpu, bus, cond)),
{
    reveal(jr_c_model);
    lemma_operands_everywhere();
}

proof fn lemma_push(cpu: Cpu, bus: BusView, src: Reg16)
    ensures
        kept(cpu, bus, push_model(cpu, bus, src)),
{
    reveal(push_model);
    lemma_operands_everywhere();
}

proof fn lemma_pop(cpu: Cpu, bus: BusView, dst: Reg16)
    ensures
        kept(cpu, bus, pop_model(cpu, bus, dst)),
{
    reveal(pop_model);
    lemma_operands_everywhere();
}

proof fn lemma_call_push(cpu: Cpu, bus: BusView)
    ensures
        kept(cpu, bus, call_push(cpu, bus)),
{
    reveal(call_push);
    lemma_operands_everywhere();
}

proof fn lemma_call(cpu: Cpu, bus: BusView)
    ensures
        kept(cpu, bus, call_model(cpu, bus)),
{
    reveal(call_model);
    lemma_operands_everywhere();
    lemma_call_push(cpu, bus);
    let (c, r) = read16_model(cpu, bus, Operand16::Imm);
    if r is Some {
        lemma_call_push(c.holding16(r->0).at_step(1), bus);
    }
}

proof fn lemma_call_c(cpu: Cpu, bus: BusView, cond: Cond)
    ensures
        kept(cpu, bus, call_c_model(cpu, bus, cond)),
{
    reveal(call_c_model);
    lemma_operands_everywhere();
    lemma_call_push(cpu, bus);
    let (c, r) = read16_model(cpu, bus, Operand16::Imm);
    if r is Some {
        lemma_call_push(c.holding16(r->0).at_step(1), bus);
    }
}

proof fn lemma_ret(cpu: Cpu, bus: BusView)
    ensures
        kept(cpu, bus, ret_model(cpu, bus)),
{
    reveal(ret_model);
    lemma_operands_everywhere();
}

proof fn lemma_ret_c(cpu: Cpu, bus: BusView, cond: Cond)
    ensures
        kept(cpu, bus, ret_c_model(cpu, bus, cond)),
{
    reveal(ret_c_model);
    lemma_operands_everywhere();
}

proof fn lemma_reti(cpu: Cpu, bus: BusView)
    ensures
        kept(cpu, bus, reti_model(cpu, bus)),
{
    reveal(reti_model);
    lemma_operands_everywhere();
}

proof fn lemma_rst(cpu: Cpu, bus: BusView, addr: u8)
    ensures
        kept(cpu, bus, rst_model(cpu, bus, addr)),
{
    reveal(rst_model);
    lemma_operands_everywhere();
}

proof fn lemma_ld_sp_hl(cpu: Cpu, bus: BusView)
    ensures
        kept(cpu, bus, ld_sp_hl_model(cpu, bus)),
{
    reveal(ld_sp_hl_model);
    lemma_operands_everywhere();
}

proof fn lemma_ld_hl_sp_e(cpu: Cpu, bus: BusView)
    ensures
        kept(cpu, bus, ld_hl_sp_e_model(cpu, bus)),
{
    reveal(ld_hl_sp_e_model);
    lemma_operands_everywhere();
    lemma_alu_everywhere();
}

proof fn lemma_add_hl_reg16(cpu: Cpu, bus: BusView, reg: Reg16)
    ensures
        kept(cpu, bus, add_hl_reg16_model(cpu, bus, reg)),
{
    reveal(add_hl_reg16_model);
    lemma_operands_everywhere();
    lemma_alu_everywhere();
}

proof fn lemma_add_sp_e(cpu: Cpu, bus: BusView)
    ensures
        kept(cpu, bus, add_sp_e_model(cpu, bus)),
{
    reveal(add_sp_e_model);
    lemma_operands_everywhere();
    lemma_alu_everywhere();
}

proof fn lemma_daa(cpu: Cpu, bus: BusView)
    ensures
        kept(cpu, bus, daa_model(cpu, bus)),
{
    reveal(daa_model);
    lemma_operands_everywhere();
    lemma_alu_everywhere();
}

proof fn lemma_cpl(cpu: Cpu, bus: BusView)
    ensures
        kept(cpu, bus, cpl_model(cpu, bus)),
{
    reveal(cpl_model);
    lemma_operands_everywhere();
    lemma_alu_everywhere();
}

proof fn lemma_scf(cpu: Cpu, bus: BusView)
    ensures
        kept(cpu, bus, scf_model(cpu, bus)),
{
    reveal(scf_model);
    lemma_operands_everywhere();
    lemma_alu_everywhere();
}

proof fn lemma_ccf(cpu: Cpu, bus: BusView)
    ensures
        kept(cpu, bus, ccf_model(cpu, bus)),
{
    reveal(ccf_model);
    lemma_operands_everywhere();
    lemma_alu_everywhere();
}

proof fn lemma_ei(cpu: Cpu, bus: BusView)
    ensures
        kept(cpu, bus, ei_model(cpu, bus)),
{
    reveal(ei_model);
    lemma_operands_everywhere();
}

proof fn lemma_di(cpu: Cpu, bus: BusView)
    ensures
        kept(cpu, bus, di_model(cpu, bus)),
{
    reveal(di_model);
    lemma_operands_everywhere();
}

proof fn lemma_halt(cpu: Cpu, bus: BusView)
    ensures
        kept(cpu, bus, halt_model(cpu, bus)),
{
    reveal(halt_model);
    lemma_operands_everywhere();
}

/// One cycle of any instruction keeps the low nibble of F zero, either
/// leaves the busy mark or ends the instruction with every step counter
/// at zero, and keeps the bus as `bus_kept` says.
pub proof fn lemma_exec_keeps(instr: Instr, cpu: Cpu, bus: BusView)
    ensures
        kept(cpu, bus, exec_model(instr, cpu, bus)),
{
    match instr {
        Instr::Nop => lemma_nop(cpu, bus),
        Instr::Stop => lemma_nop(cpu, bus),
        Instr::Halt => lemma_halt(cpu, bus),
        Instr::Di => lemma_di(cpu, bus),
        Instr::Ei => lemma_ei(cpu, bus),
        Instr::Prefix => {},
        Instr::Illegal => {},
        Instr::Ld(dst, src) => lemma_ld(cpu, bus, dst, src),
        Instr::Ld16(dst, src) => lemma_ld16(cpu, bus, dst, src),
        Instr::LdSpHl => lemma_ld_sp_hl(cpu, bus),
        Instr::LdHlSpE => lemma_ld_hl_sp_e(cpu, bus),
        Instr::Push(src) => lemma_push(cpu, bus, src),
        Instr::Pop(dst) => lemma_pop(cpu, bus, dst),
        Instr::Alu(op, src) => lemma_alu_op(cpu, bus, op, src),
        Instr::Modify(op, at) => lemma_modify(cpu, bus, op, at),
        Instr::Inc16(at) => lemma_step16(cpu, bus, true, Operand16::Reg(at)),
        Instr::Dec16(at) => lemma_step16(cpu, bus, false, Operand16::Reg(at)),
        Instr::AddHl(src) => lemma_add_hl_reg16(cpu, bus, src),
        Instr::AddSpE => lemma_add_sp_e(cpu, bus),
        Instr::RotateA(kind) => lemma_rotate_a(cpu, bus, kind),
        Instr::Daa => lemma_daa(cpu, bus),
        Instr::Cpl => lemma_cpl(cpu, bus),
        Instr::Scf => lemma_scf(cpu, bus),
        Instr::Ccf => lemma_ccf(cpu, bus),
        Instr::Bit(n, src) => lemma_bit(cpu, bus, n, src),
        Instr::Jp => lemma_jp(cpu, bus),
        Instr::JpHl => lemma_jp_hl(cpu, bus),
        Instr::JpC(cond) => lemma_jp_c(cpu, bus, cond),
        Instr::Jr => lemma_jr(cpu, bus),
        Instr::JrC(cond) => lemma_jr_c(cpu, bus, cond),
        Instr::Call => lemma_call(cpu, bus),
        Instr::CallC(cond) => lemma_call_c(cpu, bus, cond),
        Instr::Ret => lemma_ret(cpu, bus),
        Instr::RetC(cond) => lemma_ret_c(cpu, bus, cond),
        Instr::Reti => lemma_reti(cpu, bus),
        Instr::Rst(addr) => lemma_rst(cpu, bus, addr),
    }
}

/// One cycle of the opcode under way keeps what `lemma_exec_keeps` says.
pub proof fn lemma_decode_keeps(cpu: Cpu, bus: BusView)
    ensures
        kept(cpu, bus, decode_model(cpu, bus)),
{
    if cpu.ctx.cb {
        lemma_exec_keeps(prefixed_instr_of(cpu.ctx.opcode), cpu, bus);
    } else if instr_of(cpu.ctx.opcode) is Prefix {
        let (c, r) = read_imm8(cpu, bus);
        if r is Some {
            let started = Cpu { ctx: Ctx { opcode: r->0, cb: true, ..c.ctx }, ..c };
            lemma_exec_keeps(prefixed_instr_of(r->0), started, bus);
        }
    } else {
        lemma_exec_keeps(instr_of(cpu.ctx.opcode), cpu, bus);
    }
}

/// Every machine cycle keeps the processor sound: the low nibble of F
/// stays zero, and whenever no instruction is under way every step
/// counter is zero and no interrupt is being dispatched.
pub proof fn lemma_tick_keeps_sound(cpu: Cpu, bus: BusView)
    requires
        cpu.sound(),
    ensures
        tick_model(cpu, bus).0.sound(),
{
    lemma_tick_keeps(cpu, bus);
}

/// Every machine cycle keeps the bus well formed and its ROM images as
/// they were, leaves a boot ROM that was unmapped unmapped, and writes to
/// the bus at most once.
pub proof fn lemma_tick_keeps_bus(cpu: Cpu, bus: BusView)
    ensures
        bus_kept(bus, tick_model(cpu, bus).1),
        one_write_apart(bus, tick_model(cpu, bus).1),
{
    lemma_tick_keeps(cpu, bus);
}

/// A write does to the memories what it does to them on any bus with the
/// same memories.
pub proof fn lemma_write_ignores_interrupts(b1: BusView, b2: BusView, addr: u16, val: u8)
    requires
        memory(b1) == memory(b2),
    ensures
        memory(b1.write(addr, val)) == memory(b2.write(addr, val)),
{
}

proof fn lemma_tick_keeps(cpu: Cpu, bus: BusView)
    ensures
        cpu.sound() ==> tick_model(cpu, bus).0.sound(),
        bus_kept(bus, tick_model(cpu, bus).1),
        one_write_apart(bus, tick_model(cpu, bus).1),
{
    lemma_operands_everywhere();
    if cpu.ctx.locked {
    } else if cpu.ctx.servicing {
    } else if cpu.ctx.busy {
        lemma_decode_keeps(cpu, bus);
    } else if due(bus) is Some {
        if bus.irq.wf() {
            lemma_request_and_ack(bus.irq, due(bus)->0);
        }
    } else {
        let started = Cpu { ctx: Ctx { busy: true, ime_pending: false, ..cpu.ctx }, ..cpu };
        let b = if cpu.ctx.ime_pending {
            BusView { irq: bus.irq.set_ime(true), ..bus }
        } else {
            bus
        };
        lemma_decode_keeps(started, b);
        let post = decode_model(started, b).1;
        if memory(post) != memory(b) {
            let (a, v) = choose|a: u16, v: u8| memory(post) == memory(#[trigger] b.write(a, v));
            lemma_write_ignores_interrupts(b, bus, a, v);
        }
    }
}

} // verus!
