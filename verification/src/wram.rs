//! Work RAM: 8 KiB, reached through any address by its low 13 bits.
use vstd::prelude::*;
use crate::bits::lemma_offset_masks;

verus! {

/// Number of bytes of work RAM.
pub const WRAM_SIZE: usize = 0x2000;

/// The cell of work RAM that `addr` selects.
pub open spec fn wram_offset(addr: u16) -> int {
    addr as int % 0x2000
}

/// The work RAM.
pub struct WRam(Vec<u8>);

impl View for WRam {
    type V = Seq<u8>;

    closed spec fn view(&self) -> Seq<u8> {
        self.0@
    }
}

impl WRam {
    /// The memory has its length.
    #[verifier::type_invariant]
    pub closed spec fn well_formed(self) -> bool {
        self.0@.len() == WRAM_SIZE
    }

    /// A well-formed work RAM holds as many bytes as it should.
    pub proof fn lemma_view_wf(self)
        requires
            self.well_formed(),
        ensures
            self@.len() == WRAM_SIZE,
    {
    }

    /// Work RAM filled with zeroes.
    pub fn new() -> (r: Self)
        ensures
            r@ == Seq::new(WRAM_SIZE as nat, |i: int| 0u8),
    {
        let r = Self(vec![0; WRAM_SIZE]);
        assert(r.0@ =~= Seq::new(WRAM_SIZE as nat, |i: int| 0u8));
        r
    }

    /// The byte in the cell that `addr` selects.
    pub fn read(&self, addr: u16) -> (r: u8)
        ensures
            self@.len() == WRAM_SIZE,
            r == self@[wram_offset(addr)],
    {
        proof {
            use_type_invariant(self);
            lemma_offset_masks(addr);
        }
        self.0[(addr as usize) & 0x1FFF]
    }

    /// Stores `val` in the cell that `addr` selects.
    pub fn write(&mut self, addr: u16, val: u8)
        ensures
            old(self)@.len() == WRAM_SIZE,
            final(self)@ == old(self)@.update(wram_offset(addr), val),
    {
        proof {
            use_type_invariant(&*self);
            lemma_offset_masks(addr);
        }
        self.0[(addr as usize) & 0x1FFF] = val;
    }
}

} // verus!
