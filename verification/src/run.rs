//! Running the processor for several machine cycles.
use vstd::prelude::*;
use crate::cpu::{due, tick_model, Cpu};
use crate::decoder::{instr_of, Instr};
use crate::peripherals::BusView;

verus! {

/// Whether `instr` is about to start: nothing is under way, no interrupt
/// is due, and the opcode fetched last stands for `instr`.
pub open spec fn about_to_start(cpu: Cpu, bus: BusView, instr: Instr) -> bool {
    &&& !cpu.ctx.locked
    &&& !cpu.ctx.servicing
    &&& !cpu.ctx.busy
    &&& !cpu.ctx.cb
    &&& cpu.ctx.at_rest()
    &&& due(bus) is None
    &&& instr_of(cpu.ctx.opcode) == instr
}

/// Whether what starts with the next machine cycle is complete after
/// exactly `n` of them: the processor is busy after each of the first
/// `n - 1` and not after the last.
pub open spec fn takes(cpu: Cpu, bus: BusView, n: nat) -> bool
    decreases n,
{
    let (c, b) = tick_model(cpu, bus);
    if n == 0 {
        false
    } else if n == 1 {
        !c.ctx.busy
    } else {
        c.ctx.busy && takes(c, b, (n - 1) as nat)
    }
}

/// The processor and the bus after `n` machine cycles.
pub open spec fn ticks(cpu: Cpu, bus: BusView, n: nat) -> (Cpu, BusView)
    decreases n,
{
    if n == 0 {
        (cpu, bus)
    } else {
        let (c, b) = tick_model(cpu, bus);
        ticks(c, b, (n - 1) as nat)
    }
}

/// The bus as the instruction that is about to start finds it: a pending
/// EI has raised the master enable.
pub open spec fn entered(cpu: Cpu, bus: BusView) -> BusView {
    if cpu.ctx.ime_pending {
        BusView { irq: bus.irq.set_ime(true), ..bus }
    } else {
        bus
    }
}

/// Running `n` machine cycles and then `m` more is running `n + m`.
pub proof fn lemma_ticks_add(cpu: Cpu, bus: BusView, n: nat, m: nat)
    ensures
        ({
            let (c, b) = ticks(cpu, bus, n);
            ticks(c, b, m) == ticks(cpu, bus, n + m)
        }),
    decreases n,
{
    if n > 0 {
        let (c, b) = tick_model(cpu, bus);
        lemma_ticks_add(c, b, (n - 1) as nat, m);
        assert(ticks(cpu, bus, n) == ticks(c, b, (n - 1) as nat));
        assert(ticks(cpu, bus, n + m) == ticks(c, b, (n + m - 1) as nat));
    }
}

} // verus!
