//! Laws that relate several operations: what one undoes of another.
use vstd::prelude::*;
use crate::alu::{bit_of, decimal_adjusted, Alu, Modify};
use crate::cpu::Cpu;
use crate::decoder::Instr;
use crate::effects::{
    lemma_alu_immediate, lemma_alu_register, lemma_call, lemma_flags_keep_hl, lemma_jp_c,
    lemma_jr_c, lemma_modify_memory, lemma_modify_register, lemma_pair_after_write, lemma_pop,
    lemma_push, lemma_pushed_word, lemma_reg16_after_write, lemma_ret, lemma_step16, popped,
    word_at,
};
use crate::operand::{Cond, Indirect, Operand8, Reg16, Reg8};
use crate::peripherals::{
    holds_writes, lemma_read_after_write, lemma_write_keeps_wf, lemma_write_leaves_other_cells,
    BusView,
};
use crate::register::{lemma_flags_are_independent, lemma_with_flags, word, Registres};
use crate::run::{about_to_start, entered, lemma_ticks_add, takes, ticks};

verus! {

/// Whether both nibbles of `x` are decimal digits.
pub open spec fn is_bcd(x: u8) -> bool {
    x / 16 <= 9 && x % 16 <= 9
}

/// The number from 0 to 99 that the two decimal digits of `x` make.
pub open spec fn bcd_value(x: u8) -> int {
    (x / 16) * 10 + x % 16
}

/// An increment followed by a decrement gives back the value it began
/// with, whatever it does to the flags.
pub proof fn lemma_inc_then_dec(r: Registres, v: u8)
    ensures
        ({
            let (r1, v1) = r.after_modify(Modify::Inc, v);
            r1.after_modify(Modify::Dec, v1).1 == v
        }),
{
}

/// Adding `n` to the accumulator and then subtracting `n` gives back the
/// accumulator it began with, whatever it does to the flags.
pub proof fn lemma_add_then_sub(r: Registres, n: u8)
    ensures
        r.after_alu(Alu::Add, n).after_alu(Alu::Sub, n).a == r.a,
{
    let sum = (r.a + n) % 256;
    assert(r.after_alu(Alu::Add, n).a == sum);
    assert((sum - n) % 256 == r.a);
}

/// The decimal adjustment after the addition of two bytes of decimal
/// digits gives the decimal digits of their sum, and in C the carry out of
/// the hundreds.
pub proof fn lemma_daa_after_add(r: Registres, b: u8)
    requires
        is_bcd(r.a),
        is_bcd(b),
    ensures
        ({
            let adjusted = r.after_alu(Alu::Add, b).after_daa();
            &&& is_bcd(adjusted.a)
            &&& bcd_value(adjusted.a) + 100 * bit_of(adjusted.cf()) == bcd_value(r.a) + bcd_value(b)
        }),
{
    let a = r.a;
    let sum = a + b;
    let added = r.after_alu(Alu::Add, b);
    lemma_with_flags(
        Registres { a: (sum % 256) as u8, ..r },
        sum % 256 == 0,
        false,
        a % 16 + b % 16 > 15,
        sum > 255,
    );
    lemma_daa_flags(added);
    lemma_bcd_sum(a, b);
}

/// The decimal adjustment after the subtraction of two bytes of decimal
/// digits gives the decimal digits of their difference, and in C the
/// borrow from the hundreds.
pub proof fn lemma_daa_after_sub(r: Registres, b: u8)
    requires
        is_bcd(r.a),
        is_bcd(b),
    ensures
        ({
            let adjusted = r.after_alu(Alu::Sub, b).after_daa();
            &&& is_bcd(adjusted.a)
            &&& bcd_value(adjusted.a) - 100 * bit_of(adjusted.cf()) == bcd_value(r.a) - bcd_value(b)
        }),
{
    let a = r.a;
    let diff = a - b;
    let subtracted = r.after_alu(Alu::Sub, b);
    lemma_with_flags(
        Registres { a: (diff % 256) as u8, ..r },
        diff % 256 == 0,
        true,
        a % 16 < b % 16,
        diff < 0,
    );
    lemma_daa_flags(subtracted);
    lemma_bcd_difference(a, b);
}

/// The carry flag after the decimal adjustment is the carry that the
/// adjustment computes.
proof fn lemma_daa_flags(r: Registres)
    ensures
        r.after_daa().a == decimal_adjusted(r.a, r.nf(), r.hf(), r.cf()).0,
        r.after_daa().cf() == decimal_adjusted(r.a, r.nf(), r.hf(), r.cf()).1,
{
    let (a, carry) = decimal_adjusted(r.a, r.nf(), r.hf(), r.cf());
    let r0 = Registres { a, ..r };
    lemma_flags_are_independent(r0, a == 0);
    lemma_flags_are_independent(r0.with_zf(a == 0), false);
    lemma_flags_are_independent(r0.with_zf(a == 0).with_hf(false), carry);
}

/// The decimal adjustment of the sum of two bytes of decimal digits.
proof fn lemma_bcd_sum(a: u8, b: u8)
    by (bit_vector)
    requires
        a / 16 <= 9,
        a % 16 <= 9,
        b / 16 <= 9,
        b % 16 <= 9,
    ensures
        ({
            let s = ((a + b) % 256) as u8;
            let h = a % 16 + b % 16 > 15;
            let c = a + b > 255;
            let high = c || s > 0x99;
            let low = h || s % 16 > 9;
            let d = ((s + (if high { 0x60int } else { 0 }) + (if low { 0x06int } else { 0 })) % 256) as u8;
            &&& d / 16 <= 9
            &&& d % 16 <= 9
            &&& (d / 16) * 10 + d % 16 + (if high { 100int } else { 0 }) == (a / 16) * 10 + a % 16 + (b / 16) * 10 + b % 16
        }),
{
}

/// The decimal adjustment of the difference of two bytes of decimal
/// digits.
proof fn lemma_bcd_difference(a: u8, b: u8)
    by (bit_vector)
    requires
        a / 16 <= 9,
        a % 16 <= 9,
        b / 16 <= 9,
        b % 16 <= 9,
    ensures
        ({
            let s = ((a - b) % 256) as u8;
            let h = a % 16 < b % 16;
            let c = a < b;
            let d = ((s - (if c { 0x60int } else { 0 }) - (if h { 0x06int } else { 0 })) % 256) as u8;
            &&& d / 16 <= 9
            &&& d % 16 <= 9
            &&& (d / 16) * 10 + d % 16 - (if c { 100int } else { 0 }) == (a / 16) * 10 + a % 16 - ((b / 16) * 10 + b % 16)
        }),
{
}

/// A POP that follows a PUSH at once, on a stack that lies in memory that
/// holds writes, leaves in its register pair what the pair that was pushed
/// held, and leaves SP where it was before the PUSH.
pub proof fn lemma_push_then_pop(cpu: Cpu, bus: BusView, src: Reg16, dst: Reg16)
    requires
        bus.wf(),
        about_to_start(cpu, bus, Instr::Push(src)),
        holds_writes(cpu.regs.sp.wrapping_sub(1)),
        holds_writes(cpu.regs.sp.wrapping_sub(2)),
        !(dst is SP),
        ({
            let (c, b) = ticks(cpu, bus, 4);
            about_to_start(c, b, Instr::Pop(dst))
        }),
    ensures
        ticks(cpu, bus, 7).0.regs.reg16(dst) == popped(dst, cpu.regs.reg16(src)),
        ticks(cpu, bus, 7).0.regs.sp == cpu.regs.sp,
{
    let v = cpu.regs.reg16(src);
    let hi = (v / 256) as u8;
    let lo = (v % 256) as u8;
    let sp1 = cpu.regs.sp.wrapping_sub(1);
    let sp2 = cpu.regs.sp.wrapping_sub(2);
    let b0 = entered(cpu, bus);
    let b1 = b0.write(sp1, hi);
    let b2 = b1.write(sp2, lo);
    let (c4, b4) = ticks(cpu, bus, 4);
    lemma_push(cpu, bus, src);
    lemma_pop(c4, b4, dst);
    lemma_ticks_add(cpu, bus, 4, 3);
    assert(b4 == b2);
    lemma_write_keeps_wf(b0, sp1, hi);
    lemma_read_after_write(b0, sp1, sp1, hi);
    lemma_write_leaves_other_cells(b1, sp2, sp1, lo);
    lemma_read_after_write(b1, sp2, sp2, lo);
    assert(b2.read(sp2) == lo);
    assert(b2.read(sp1) == hi);
    assert(sp2.wrapping_add(1) == sp1);
    assert(sp2.wrapping_add(2) == cpu.regs.sp);
    assert(word(hi, lo) == v);
    let after = c4.regs.with_sp(cpu.regs.sp).with_reg16(dst, v).with_pc(c4.regs.pc.wrapping_add(1));
    assert(ticks(cpu, bus, 7).0.regs == after);
    assert(after.reg16(dst) == popped(dst, v)) by {
        lemma_reg16_after_write(c4.regs.with_sp(cpu.regs.sp), dst, v);
    }
}

/// A DEC that follows an INC of the same register at once leaves in it
/// what it held before the INC.
pub proof fn lemma_inc_then_dec_register(cpu: Cpu, bus: BusView, r: Reg8)
    requires
        about_to_start(cpu, bus, Instr::Modify(Modify::Inc, Operand8::Reg(r))),
        ({
            let (c, b) = ticks(cpu, bus, 1);
            about_to_start(c, b, Instr::Modify(Modify::Dec, Operand8::Reg(r)))
        }),
    ensures
        ticks(cpu, bus, 2).0.regs.reg8(r) == cpu.regs.reg8(r),
{
    let (c, b) = ticks(cpu, bus, 1);
    lemma_modify_register(cpu, bus, Modify::Inc, r);
    lemma_modify_register(c, b, Modify::Dec, r);
    lemma_ticks_add(cpu, bus, 1, 1);
    let v = cpu.regs.reg8(r);
    let (flags, up) = cpu.regs.after_modify(Modify::Inc, v);
    assert(c.regs.reg8(r) == up);
    lemma_inc_then_dec(cpu.regs, v);
    let (flags2, down) = c.regs.after_modify(Modify::Dec, up);
    assert(down == v);
    assert(ticks(cpu, bus, 2).0.regs == flags2.with_reg8(r, v).with_pc(c.regs.pc.wrapping_add(1)));
}

/// A DEC that follows an INC of the byte at HL at once, on a cell that
/// holds writes, leaves in the cell what it held before the INC.
pub proof fn lemma_inc_then_dec_memory(cpu: Cpu, bus: BusView)
    requires
        bus.wf(),
        holds_writes(cpu.regs.hl()),
        about_to_start(cpu, bus, Instr::Modify(Modify::Inc, Operand8::Ind(Indirect::HL))),
        ({
            let (c, b) = ticks(cpu, bus, 3);
            about_to_start(c, b, Instr::Modify(Modify::Dec, Operand8::Ind(Indirect::HL)))
        }),
    ensures
        ticks(cpu, bus, 6).1.read(cpu.regs.hl()) == bus.read(cpu.regs.hl()),
{
    let (c, b) = ticks(cpu, bus, 3);
    lemma_modify_memory(cpu, bus, Modify::Inc);
    lemma_modify_memory(c, b, Modify::Dec);
    lemma_ticks_add(cpu, bus, 3, 3);
    let hl = cpu.regs.hl();
    let v = bus.read(hl);
    let up = ((v + 1) % 256) as u8;
    let b0 = entered(cpu, bus);
    lemma_flags_keep_hl(cpu.regs, Modify::Inc, v);
    assert(c.regs.hl() == hl);
    lemma_write_keeps_wf(b0, hl, up);
    lemma_read_after_write(b0, hl, hl, up);
    assert(b == b0.write(hl, up));
    assert(b.read(hl) == up);
    lemma_inc_then_dec(cpu.regs, v);
    let down = c.regs.after_modify(Modify::Dec, up).1;
    assert(down == v);
    lemma_read_after_write(entered(c, b), hl, hl, v);
}

/// A 16-bit DEC that follows a 16-bit INC of the same register pair at
/// once leaves in it what it held before the INC; neither changes a flag.
pub proof fn lemma_inc16_then_dec16(cpu: Cpu, bus: BusView, r: Reg16)
    requires
        !(r is AF),
        about_to_start(cpu, bus, Instr::Inc16(r)),
        ({
            let (c, b) = ticks(cpu, bus, 2);
            about_to_start(c, b, Instr::Dec16(r))
        }),
    ensures
        ticks(cpu, bus, 2).0.regs.f == cpu.regs.f,
        ticks(cpu, bus, 4).0.regs.f == cpu.regs.f,
        ticks(cpu, bus, 4).0.regs.reg16(r) == cpu.regs.reg16(r),
{
    let (c, b) = ticks(cpu, bus, 2);
    lemma_step16(cpu, bus, true, r);
    lemma_step16(c, b, false, r);
    lemma_ticks_add(cpu, bus, 2, 2);
    let v = cpu.regs.reg16(r);
    let up = v.wrapping_add(1);
    lemma_pair_after_write(cpu.regs, r, up);
    assert(c.regs.reg16(r) == up);
    assert(up.wrapping_sub(1) == v);
    lemma_pair_after_write(c.regs, r, v);
}

/// A SUB that follows an ADD of the same register, other than A, at once
/// leaves in A what it held before the ADD.
pub proof fn lemma_add_then_sub_register(cpu: Cpu, bus: BusView, r: Reg8)
    requires
        !(r is A),
        about_to_start(cpu, bus, Instr::Alu(Alu::Add, Operand8::Reg(r))),
        ({
            let (c, b) = ticks(cpu, bus, 1);
            about_to_start(c, b, Instr::Alu(Alu::Sub, Operand8::Reg(r)))
        }),
    ensures
        ticks(cpu, bus, 2).0.regs.a == cpu.regs.a,
{
    let (c, b) = ticks(cpu, bus, 1);
    lemma_alu_register(cpu, bus, Alu::Add, r);
    lemma_alu_register(c, b, Alu::Sub, r);
    lemma_ticks_add(cpu, bus, 1, 1);
    let n = cpu.regs.reg8(r);
    lemma_add_then_sub(cpu.regs, n);
    let added = cpu.regs.after_alu(Alu::Add, n);
    assert(added.reg8(r) == n);
    assert(c.regs.reg8(r) == n);
    assert(c.regs.after_alu(Alu::Sub, n).a == added.after_alu(Alu::Sub, n).a);
}

/// A SUB that follows an ADD at once, both with the same immediate byte,
/// leaves in A what it held before the ADD.
pub proof fn lemma_add_then_sub_immediate(cpu: Cpu, bus: BusView, n: u8)
    requires
        about_to_start(cpu, bus, Instr::Alu(Alu::Add, Operand8::Imm)),
        bus.read(cpu.regs.pc) == n,
        ({
            let (c, b) = ticks(cpu, bus, 2);
            about_to_start(c, b, Instr::Alu(Alu::Sub, Operand8::Imm)) && b.read(c.regs.pc) == n
        }),
    ensures
        ticks(cpu, bus, 4).0.regs.a == cpu.regs.a,
{
    let (c, b) = ticks(cpu, bus, 2);
    lemma_alu_immediate(cpu, bus, Alu::Add);
    lemma_alu_immediate(c, b, Alu::Sub);
    lemma_ticks_add(cpu, bus, 2, 2);
    lemma_add_then_sub(cpu.regs, n);
    let added = cpu.regs.after_alu(Alu::Add, n);
    assert(c.regs.after_alu(Alu::Sub, n).a == added.after_alu(Alu::Sub, n).a);
}

/// A RET that is the first instruction of the routine that a CALL
/// enters, on a stack that lies in memory that holds writes, leaves SP
/// where it was before the CALL and PC past the opcode of the instruction
/// after the CALL; the address of that instruction still lies below SP.
pub proof fn lemma_call_then_ret(cpu: Cpu, bus: BusView)
    requires
        bus.wf(),
        about_to_start(cpu, bus, Instr::Call),
        holds_writes(cpu.regs.sp.wrapping_sub(1)),
        holds_writes(cpu.regs.sp.wrapping_sub(2)),
        ({
            let (c, b) = ticks(cpu, bus, 6);
            about_to_start(c, b, Instr::Ret)
        }),
    ensures
        ticks(cpu, bus, 10).0.regs.sp == cpu.regs.sp,
        ticks(cpu, bus, 10).0.regs.pc == cpu.regs.pc.wrapping_add(2).wrapping_add(1),
        word_at(ticks(cpu, bus, 10).1, cpu.regs.sp.wrapping_sub(2)) == cpu.regs.pc.wrapping_add(2),
{
    let (c, b) = ticks(cpu, bus, 6);
    lemma_call(cpu, bus);
    lemma_ret(c, b);
    lemma_ticks_add(cpu, bus, 6, 4);
    lemma_pushed_word(entered(cpu, bus), cpu.regs.sp, cpu.regs.pc.wrapping_add(2));
    assert(c.regs.sp.wrapping_add(2) == cpu.regs.sp);
}

/// A jump on a condition, relative or absolute, takes exactly one machine
/// cycle more when the condition holds than when it does not.
pub proof fn lemma_taken_jump_takes_one_more(
    taken: Cpu,
    taken_bus: BusView,
    other: Cpu,
    other_bus: BusView,
    cond: Cond,
    relative: bool,
)
    requires
        about_to_start(taken, taken_bus, if relative { Instr::JrC(cond) } else { Instr::JpC(cond) }),
        about_to_start(other, other_bus, if relative { Instr::JrC(cond) } else { Instr::JpC(cond) }),
        taken.regs.meets(cond),
        !other.regs.meets(cond),
    ensures
        exists|n: nat| takes(other, other_bus, n) && takes(taken, taken_bus, n + 1),
{
    if relative {
        lemma_jr_c(taken, taken_bus, cond);
        lemma_jr_c(other, other_bus, cond);
        assert(takes(other, other_bus, 2) && takes(taken, taken_bus, 2 + 1));
    } else {
        lemma_jp_c(taken, taken_bus, cond);
        lemma_jp_c(other, other_bus, cond);
        assert(takes(other, other_bus, 3) && takes(taken, taken_bus, 3 + 1));
    }
}

} // verus!
