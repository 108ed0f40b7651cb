//! The processor: its registers, the record that carries an instruction
//! from one machine cycle to the next, and the fetch that starts each
//! instruction.
use vstd::prelude::*;
use crate::decoder::decode_model;
use crate::instruction::push16_model;
use crate::interrupts::Source;
use crate::peripherals::{BusView, Peripherals};
use crate::preserved::{bus_kept, lemma_tick_keeps_bus, lemma_tick_keeps_sound, one_write_apart};
use crate::register::Registres;

verus! {

/// Progress of an action that spans several machine cycles: where it
/// stands, and what it has read so far.
#[derive(Clone, Copy)]
pub struct Latch {
    pub step: u8,
    pub val8: u8,
    pub val16: u16,
}

impl Latch {
    /// The latch of an action that has not begun.
    pub open spec fn idle() -> Latch {
        Latch { step: 0, val8: 0, val16: 0 }
    }
}

impl Default for Latch {
    fn default() -> (r: Self)
        ensures
            r == Latch::idle(),
    {
        Latch { step: 0, val8: 0, val16: 0 }
    }
}

/// The execution state: the instruction under way and how far it has got.
///
/// `step`, `val8` and `val16` belong to the instruction itself, `operand`
/// to the operand access that the instruction is waiting for, and
/// `immediate` to the fetch of an immediate byte within either.
#[derive(Clone, Copy)]
pub struct Ctx {
    /// The instruction byte that is executing.
    pub opcode: u8,
    /// Whether `opcode` comes from the prefixed table.
    pub cb: bool,
    pub step: u8,
    pub val8: u8,
    pub val16: u16,
    pub operand: Latch,
    pub immediate: Latch,
    /// Set while an instruction or an interrupt dispatch is under way,
    /// cleared by the fetch that ends it.
    pub busy: bool,
    /// Set while an interrupt is being dispatched.
    pub servicing: bool,
    /// Set by EI: the master enable is to be raised when the next
    /// instruction starts.
    pub ime_pending: bool,
    /// Set for good once an illegal opcode has been met.
    pub locked: bool,
}

impl Ctx {
    /// The state before the first instruction: opcode `00`, nothing under
    /// way.
    pub open spec fn initial() -> Ctx {
        Ctx {
            opcode: 0,
            cb: false,
            step: 0,
            val8: 0,
            val16: 0,
            operand: Latch::idle(),
            immediate: Latch::idle(),
            busy: false,
            servicing: false,
            ime_pending: false,
            locked: false,
        }
    }

    /// No action is part-way through: every step counter is zero.
    pub open spec fn at_rest(self) -> bool {
        self.step == 0 && self.operand.step == 0 && self.immediate.step == 0
    }
}

impl Default for Ctx {
    fn default() -> (r: Self)
        ensures
            r == Ctx::initial(),
    {
        Ctx {
            opcode: 0,
            cb: false,
            step: 0,
            val8: 0,
            val16: 0,
            operand: Latch::default(),
            immediate: Latch::default(),
            busy: false,
            servicing: false,
            ime_pending: false,
            locked: false,
        }
    }
}

/// The processor: its registers and its execution state.
#[derive(Clone, Copy)]
pub struct Cpu {
    pub regs: Registres,
    pub ctx: Ctx,
}

impl Default for Cpu {
    fn default() -> (r: Self)
        ensures
            r.regs == (Registres { pc: 0, sp: 0, a: 0, b: 0, c: 0, d: 0, e: 0, f: 0, h: 0, l: 0 }),
            r.ctx == Ctx::initial(),
            r.sound(),
    {
        Cpu { regs: Registres::default(), ctx: Ctx::default() }
    }
}

/// The processor state on which operand accesses act.
pub trait Processor: Sized {
    spec fn state(self) -> Cpu;
}

impl Processor for Cpu {
    open spec fn state(self) -> Cpu {
        self
    }
}

/// The processor after the fetch that ends an instruction: the byte at
/// PC becomes the opcode, PC moves past it, and nothing is under way.
pub open spec fn fetch_model(cpu: Cpu, bus: BusView) -> Cpu {
    Cpu {
        regs: Registres { pc: cpu.regs.pc.wrapping_add(1), ..cpu.regs },
        ctx: Ctx {
            opcode: bus.read(cpu.regs.pc),
            cb: false,
            step: 0,
            operand: Latch { step: 0, ..cpu.ctx.operand },
            immediate: Latch { step: 0, ..cpu.ctx.immediate },
            busy: false,
            ..cpu.ctx
        },
    }
}

/// The first cycle of an interrupt dispatch, taken in place of the
/// instruction that was about to start: `source` is acknowledged, the
/// master enable and a pending EI are cleared, and PC steps back onto the
/// instruction that did not run, which is where the handler will return.
pub open spec fn begin_dispatch_model(cpu: Cpu, bus: BusView, source: Source) -> (Cpu, BusView) {
    (
        Cpu {
            regs: Registres { pc: cpu.regs.pc.wrapping_sub(1), ..cpu.regs },
            ctx: Ctx {
                step: 0,
                val16: source.vector(),
                operand: Latch { step: 0, ..cpu.ctx.operand },
                busy: true,
                servicing: true,
                ime_pending: false,
                ..cpu.ctx
            },
        },
        BusView { irq: bus.irq.ack(source).set_ime(false), ..bus },
    )
}

/// One of the later cycles of an interrupt dispatch: PC is pushed; in the
/// cycle in which the push completes PC takes the vector; the cycle after
/// that fetches the first opcode of the handler.
pub open spec fn call_isr_model(cpu: Cpu, bus: BusView) -> (Cpu, BusView) {
    if cpu.ctx.step == 0 {
        let (c, b, done) = push16_model(cpu, bus, cpu.regs.pc);
        if done {
            (
                Cpu {
                    regs: Registres { pc: c.ctx.val16, ..c.regs },
                    ctx: Ctx { step: 1, ..c.ctx },
                },
                b,
            )
        } else {
            (c, b)
        }
    } else {
        (fetch_model(Cpu { ctx: Ctx { servicing: false, ..cpu.ctx }, ..cpu }, bus), bus)
    }
}

/// The first cycle of an instruction. A pending EI takes effect, the
/// processor is marked busy, and the opcode runs its first cycle.
pub open spec fn begin_instruction_model(cpu: Cpu, bus: BusView) -> (Cpu, BusView) {
    decode_model(
        Cpu { ctx: Ctx { busy: true, ime_pending: false, ..cpu.ctx }, ..cpu },
        if cpu.ctx.ime_pending {
            BusView { irq: bus.irq.set_ime(true), ..bus }
        } else {
            bus
        },
    )
}

/// The source that is dispatched if an instruction is about to start:
/// the most urgent one that is enabled and pending, provided the master
/// enable is set.
pub open spec fn due(bus: BusView) -> Option<Source> {
    if bus.irq.ime {
        bus.irq.highest_pending()
    } else {
        None
    }
}

/// One machine cycle.
///
/// A locked processor does nothing. An interrupt dispatch under way goes
/// on. Between two instructions a due interrupt is dispatched, otherwise
/// the next instruction starts. An instruction under way goes on.
pub open spec fn tick_model(cpu: Cpu, bus: BusView) -> (Cpu, BusView) {
    if cpu.ctx.locked {
        (cpu, bus)
    } else if cpu.ctx.servicing {
        call_isr_model(cpu, bus)
    } else if cpu.ctx.busy {
        decode_model(cpu, bus)
    } else {
        match due(bus) {
            Some(source) => begin_dispatch_model(cpu, bus, source),
            None => begin_instruction_model(cpu, bus),
        }
    }
}

impl Cpu {
    /// What holds of the processor between and within instructions: the
    /// low nibble of F is zero, and when nothing is under way every step
    /// counter is zero and no interrupt is being dispatched.
    pub open spec fn sound(self) -> bool {
        &&& self.regs.flags_clean()
        &&& !self.ctx.busy ==> self.ctx.at_rest() && !self.ctx.servicing
    }

    /// A processor that starts from `regs` with nothing under way.
    pub fn new(regs: Registres) -> (r: Self)
        ensures
            r.regs == regs,
            r.ctx == Ctx::initial(),
            regs.flags_clean() ==> r.sound(),
    {
        Cpu { regs, ctx: Ctx::default() }
    }

    /// Whether an illegal opcode has stopped the processor.
    pub fn is_locked(&self) -> (r: bool)
        ensures
            r == self.ctx.locked,
    {
        self.ctx.locked
    }

    /// Reads the next opcode and ends the instruction under way.
    pub fn fetch(&mut self, bus: &Peripherals)
        ensures
            *final(self) == fetch_model(*old(self), bus@),
    {
        self.ctx.opcode = bus.read(self.regs.pc);
        self.regs.pc = self.regs.pc.wrapping_add(1);
        self.ctx.cb = false;
        self.ctx.step = 0;
        self.ctx.operand.step = 0;
        self.ctx.immediate.step = 0;
        self.ctx.busy = false;
    }

    /// Runs one of the later cycles of an interrupt dispatch.
    pub fn call_isr(&mut self, bus: &mut Peripherals)
        ensures
            (*final(self), final(bus)@) == call_isr_model(*old(self), old(bus)@),
    {
        if self.ctx.step == 0 {
            if self.push16(bus, self.regs.pc).is_some() {
                self.regs.pc = self.ctx.val16;
                self.ctx.step = 1;
            }
        } else {
            self.ctx.servicing = false;
            self.fetch(bus);
        }
    }

    /// Advances the processor by one machine cycle.
    pub fn emulate_cycle(&mut self, bus: &mut Peripherals)
        ensures
            (*final(self), final(bus)@) == tick_model(*old(self), old(bus)@),
            old(self).sound() ==> final(self).sound(),
            bus_kept(old(bus)@, final(bus)@),
            one_write_apart(old(bus)@, final(bus)@),
    {
        proof {
            if self.sound() {
                lemma_tick_keeps_sound(*self, bus@);
            }
            lemma_tick_keeps_bus(*self, bus@);
        }
        if self.ctx.locked {
            return ;
        }
        if self.ctx.servicing {
            self.call_isr(bus);
            return ;
        }
        if !self.ctx.busy {
            if bus.interrupts.ime() {
                if let Some(source) = bus.interrupts.highest_pending() {
                    bus.interrupts.ack(source);
                    bus.interrupts.set_ime(false);
                    self.regs.pc = self.regs.pc.wrapping_sub(1);
                    self.ctx.val16 = source.vector();
                    self.ctx.step = 0;
                    self.ctx.operand.step = 0;
                    self.ctx.busy = true;
                    self.ctx.servicing = true;
                    self.ctx.ime_pending = false;
                    return ;
                }
            }
            if self.ctx.ime_pending {
                bus.interrupts.set_ime(true);
                self.ctx.ime_pending = false;
            }
            self.ctx.busy = true;
        }
        self.decode(bus);
    }
}

} // verus!
