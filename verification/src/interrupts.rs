//! The interrupt controller: the master enable, the enable mask and the
//! pending flags of the five interrupt sources.
use vstd::prelude::*;
use crate::bits::{has_bit, lemma_low_five, put_bit};

verus! {

/// Address of the pending flags.
pub const IF_ADDR: u16 = 0xFF0F;

/// Address of the enable mask.
pub const IE_ADDR: u16 = 0xFFFF;

/// The five interrupt sources, the most urgent first.
#[derive(Clone, Copy, Debug, PartialEq, Eq, Structural)]
pub enum Source {
    VBlank,
    LcdStat,
    Timer,
    Serial,
    Joypad,
}

impl Source {
    /// The weight of the source's bit in the enable mask and the pending
    /// flags.
    pub open spec fn spec_mask(self) -> u8 {
        match self {
            Source::VBlank => 0x01,
            Source::LcdStat => 0x02,
            Source::Timer => 0x04,
            Source::Serial => 0x08,
            Source::Joypad => 0x10,
        }
    }

    /// The address at which the source's handler starts.
    pub open spec fn spec_vector(self) -> u16 {
        match self {
            Source::VBlank => 0x0040,
            Source::LcdStat => 0x0048,
            Source::Timer => 0x0050,
            Source::Serial => 0x0058,
            Source::Joypad => 0x0060,
        }
    }

    /// The weight of the source's bit in the enable mask and the pending
    /// flags.
    #[verifier::when_used_as_spec(spec_mask)]
    pub fn mask(self) -> (r: u8)
        ensures
            r == self.spec_mask(),
    {
        match self {
            Source::VBlank => 0x01,
            Source::LcdStat => 0x02,
            Source::Timer => 0x04,
            Source::Serial => 0x08,
            Source::Joypad => 0x10,
        }
    }

    /// The address at which the source's handler starts.
    #[verifier::when_used_as_spec(spec_vector)]
    pub fn vector(self) -> (r: u16)
        ensures
            r == self.spec_vector(),
    {
        match self {
            Source::VBlank => 0x0040,
            Source::LcdStat => 0x0048,
            Source::Timer => 0x0050,
            Source::Serial => 0x0058,
            Source::Joypad => 0x0060,
        }
    }
}

/// The most urgent source whose bit is set in `bits`, if any.
pub open spec fn most_urgent(bits: u8) -> Option<Source> {
    if has_bit(bits, 0x01) {
        Some(Source::VBlank)
    } else if has_bit(bits, 0x02) {
        Some(Source::LcdStat)
    } else if has_bit(bits, 0x04) {
        Some(Source::Timer)
    } else if has_bit(bits, 0x08) {
        Some(Source::Serial)
    } else if has_bit(bits, 0x10) {
        Some(Source::Joypad)
    } else {
        None
    }
}

/// What the interrupt controller holds.
pub struct IrqView {
    pub ime: bool,
    pub ie: u8,
    pub if_: u8,
}

impl IrqView {
    /// Only the five low bits of the mask and of the flags are ever set.
    pub open spec fn wf(self) -> bool {
        self.ie < 32 && self.if_ < 32
    }

    /// The sources that are both enabled and pending.
    pub open spec fn pending(self) -> u8 {
        self.ie & self.if_
    }

    /// The most urgent source that is both enabled and pending.
    pub open spec fn highest_pending(self) -> Option<Source> {
        most_urgent(self.pending())
    }

    /// The pending flags at `FF0F`, the enable mask at `FFFF`, `0xFF`
    /// elsewhere.
    pub open spec fn read(self, addr: u16) -> u8 {
        if addr == IF_ADDR {
            self.if_
        } else if addr == IE_ADDR {
            self.ie
        } else {
            0xFF
        }
    }

    /// The five low bits of `val` replace the register that `addr` names.
    pub open spec fn write(self, addr: u16, val: u8) -> IrqView {
        if addr == IF_ADDR {
            IrqView { if_: val % 32, ..self }
        } else if addr == IE_ADDR {
            IrqView { ie: val % 32, ..self }
        } else {
            self
        }
    }

    /// The controller after `source` is marked as pending.
    pub open spec fn request(self, source: Source) -> IrqView {
        IrqView { if_: put_bit(self.if_, source.mask(), true), ..self }
    }

    /// The controller after `source` is marked as no longer pending.
    pub open spec fn ack(self, source: Source) -> IrqView {
        IrqView { if_: put_bit(self.if_, source.mask(), false), ..self }
    }

    /// The controller with the master enable replaced.
    pub open spec fn set_ime(self, ime: bool) -> IrqView {
        IrqView { ime, ..self }
    }
}

/// The interrupt controller.
pub struct Interrupts {
    ime: bool,
    ie: u8,
    if_: u8,
}

impl View for Interrupts {
    type V = IrqView;

    closed spec fn view(&self) -> IrqView {
        IrqView { ime: self.ime, ie: self.ie, if_: self.if_ }
    }
}

impl Interrupts {
    /// The enable mask and the pending flags hold five bits each.
    #[verifier::type_invariant]
    pub closed spec fn well_formed(self) -> bool {
        self.ie < 32 && self.if_ < 32
    }

    /// What a well-formed controller holds is well formed.
    pub proof fn lemma_view_wf(self)
        requires
            self.well_formed(),
        ensures
            self@.wf(),
    {
    }

    /// A controller with interrupts disabled, nothing enabled and nothing
    /// pending.
    pub fn new() -> (r: Self)
        ensures
            r@ == (IrqView { ime: false, ie: 0, if_: 0 }),
    {
        Self { ime: false, ie: 0, if_: 0 }
    }

    /// The master enable.
    pub fn ime(&self) -> (r: bool)
        ensures
            r == self@.ime,
    {
        self.ime
    }

    /// Replaces the master enable.
    pub fn set_ime(&mut self, ime: bool)
        ensures
            final(self)@ == old(self)@.set_ime(ime),
    {
        proof {
            use_type_invariant(&*self);
        }
        self.ime = ime;
    }

    /// The sources that are both enabled and pending, one bit each.
    pub fn get_interrupt(&self) -> (r: u8)
        ensures
            self@.wf(),
            r == self@.pending(),
    {
        proof {
            use_type_invariant(self);
        }
        self.ie & self.if_
    }

    /// The pending flags at `FF0F`, the enable mask at `FFFF`, `0xFF` elsewhere.
    pub fn read(&self, addr: u16) -> (r: u8)
        ensures
            self@.wf(),
            r == self@.read(addr),
    {
        proof {
            use_type_invariant(self);
        }
        if addr == IF_ADDR {
            self.if_
        } else if addr == IE_ADDR {
            self.ie
        } else {
            0xFF
        }
    }

    /// Stores the five low bits of `val` in the register that `addr` names.
    pub fn write(&mut self, addr: u16, val: u8)
        ensures
            final(self)@ == old(self)@.write(addr, val),
            final(self)@.wf(),
    {
        proof {
            use_type_invariant(&*self);
            lemma_low_five(val);
        }
        if addr == IF_ADDR {
            self.if_ = val & 0x1f;
        } else if addr == IE_ADDR {
            self.ie = val & 0x1f;
        }
    }

    /// Marks `source` as pending.
    pub fn request(&mut self, source: Source)
        ensures
            final(self)@ == old(self)@.request(source),
            final(self)@.wf(),
    {
        proof {
            reveal(put_bit);
            use_type_invariant(&*self);
            lemma_low_five(self.if_);
        }
        self.if_ = self.if_ | source.mask();
    }

    /// The most urgent source that is both enabled and pending.
    pub fn highest_pending(&self) -> (r: Option<Source>)
        ensures
            r == self@.highest_pending(),
    {
        let p: u8 = self.ie & self.if_;
        proof {
            lemma_low_five(p);
        }
        if p & 0x01 != 0 {
            Some(Source::VBlank)
        } else if p & 0x02 != 0 {
            Some(Source::LcdStat)
        } else if p & 0x04 != 0 {
            Some(Source::Timer)
        } else if p & 0x08 != 0 {
            Some(Source::Serial)
        } else if p & 0x10 != 0 {
            Some(Source::Joypad)
        } else {
            None
        }
    }

    /// Marks `source` as no longer pending.
    pub fn ack(&mut self, source: Source)
        ensures
            final(self)@ == old(self)@.ack(source),
            final(self)@.wf(),
    {
        proof {
            reveal(put_bit);
            use_type_invariant(&*self);
            lemma_low_five(self.if_);
        }
        self.if_ = self.if_ & !source.mask();
    }
}

/// A request and an acknowledgement set and clear the source's own bit
/// and leave the registers at five bits.
pub proof fn lemma_request_and_ack(irq: IrqView, source: Source)
    requires
        irq.wf(),
    ensures
        irq.request(source).wf(),
        irq.ack(source).wf(),
        has_bit(irq.request(source).if_, source.mask()),
        !has_bit(irq.ack(source).if_, source.mask()),
{
    reveal(put_bit);
    match source {
        Source::VBlank => {
            assert(source.mask() == 0x01);
        },
        Source::LcdStat => {
            assert(source.mask() == 0x02);
        },
        Source::Timer => {
            assert(source.mask() == 0x04);
        },
        Source::Serial => {
            assert(source.mask() == 0x08);
        },
        Source::Joypad => {
            assert(source.mask() == 0x10);
        },
    }
}

} // verus!
