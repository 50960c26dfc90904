//! A bus over volatile cells, for the registers of a peripheral.

use crate::dmac::bus::{Access, Bus, BusView, Width};
use vcell::VolatileCell;
use vstd::prelude::*;

verus! {

/// A window of memory-mapped registers, seen as volatile cells of each access
/// width.
///
/// The three slices cover the same bytes: cell `i` of `halves` lies over bytes
/// `2 * i` and `2 * i + 1`, cell `i` of `words` over bytes `4 * i` to
/// `4 * i + 3`. Whoever builds the window answers for that; what the window
/// itself guarantees is that each access goes to the one cell of the right
/// width at the right place.
pub struct Mmio<'a> {
    base: u32,
    bytes: &'a [VolatileCell<u8>],
    halves: &'a [VolatileCell<u16>],
    words: &'a [VolatileCell<u32>],
    log: Ghost<Seq<Access>>,
}

/// The three slices span the same bytes, which start at a multiple of four and
/// end inside the 32-bit address space.
pub open spec fn window_shape(base: u32, bytes: nat, halves: nat, words: nat) -> bool {
    &&& base % 4 == 0
    &&& bytes == 4 * words
    &&& halves == 2 * words
    &&& base + bytes <= 0x1_0000_0000
}

impl<'a> Mmio<'a> {
    #[verifier::type_invariant]
    spec fn well_formed(self) -> bool {
        window_shape(
            self.base,
            self.bytes@.len(),
            self.halves@.len(),
            self.words@.len(),
        )
    }

    /// The window that starts at `base`, with no access recorded. `None` where
    /// the slices do not have the shape of one window.
    pub fn new(
        base: u32,
        bytes: &'a [VolatileCell<u8>],
        halves: &'a [VolatileCell<u16>],
        words: &'a [VolatileCell<u32>],
    ) -> (bus: Option<Mmio<'a>>)
        ensures
            bus is Some <==> window_shape(base, bytes@.len(), halves@.len(), words@.len()),
            bus matches Some(b) ==> b@ == (BusView {
                trace: Seq::empty(),
                base,
                size: bytes@.len(),
                memory: None,
            }),
    {
        let span: usize = bytes.len();
        if base % 4 != 0 || span % 4 != 0 || words.len() != span / 4 || halves.len() != span / 2
            || span as u64 > 0x1_0000_0000u64 - base as u64 {
            return None;
        }
        Some(Mmio { base, bytes, halves, words, log: Ghost(Seq::empty()) })
    }
}

impl<'a> Bus for Mmio<'a> {
    closed spec fn view(&self) -> BusView {
        BusView { trace: self.log@, base: self.base, size: self.bytes@.len(), memory: None }
    }

    fn load(&mut self, address: u32, width: Width) -> (value: u32) {
        proof {
            use_type_invariant(&*self);
        }
        let at: usize = (address - self.base) as usize;
        let value: u32 = match width {
            Width::Byte => self.bytes[at].get() as u32,
            Width::Half => self.halves[at / 2].get() as u32,
            Width::Word => self.words[at / 4].get(),
        };
        self.log = Ghost(self.log@.push(Access::Load { address, width, value }));
        value
    }

    fn store(&mut self, address: u32, width: Width, value: u32) {
        proof {
            use_type_invariant(&*self);
        }
        let at: usize = (address - self.base) as usize;
        match width {
            Width::Byte => self.bytes[at].set(value as u8),
            Width::Half => self.halves[at / 2].set(value as u16),
            Width::Word => self.words[at / 4].set(value),
        }
        self.log = Ghost(self.log@.push(Access::Store { address, width, value }));
    }
}

} // verus!
