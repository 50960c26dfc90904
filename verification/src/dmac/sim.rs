//! A bus over plain memory, for running register code without the hardware.

use crate::dmac::bus::{byte, with_word, Access, Bus, BusView, Width};
use vstd::prelude::*;

verus! {

/// Simulated memory behind a bus: a window of bytes that keeps what is stored
/// in it, together with a record of every access.
pub struct SimBus {
    base: u32,
    cells: Vec<u8>,
    log: Vec<Access>,
}

impl SimBus {
    /// A window of `size` zero bytes that starts at `base`, with no access
    /// recorded.
    pub fn new(base: u32, size: u32) -> (bus: SimBus)
        ensures
            bus@ == (BusView {
                trace: Seq::empty(),
                base,
                size: size as nat,
                memory: Some(Seq::new(size as nat, |i: int| 0u8)),
            }),
    {
        let mut cells: Vec<u8> = Vec::new();
        let mut filled: u32 = 0;
        while filled < size
            invariant
                filled <= size,
                cells.len() == filled,
                forall|i: int| 0 <= i < filled ==> cells[i] == 0u8,
            decreases size - filled,
        {
            cells.push(0);
            filled = filled + 1;
        }
        let bus = SimBus { base, cells, log: Vec::new() };
        assert(bus.cells@ =~= Seq::new(size as nat, |i: int| 0u8));
        bus
    }

    /// The accesses performed so far, oldest first.
    pub fn accesses(&self) -> (log: &Vec<Access>)
        ensures
            log@ == self@.trace,
    {
        &self.log
    }
}

impl Bus for SimBus {
    closed spec fn view(&self) -> BusView {
        BusView {
            trace: self.log@,
            base: self.base,
            size: self.cells.len() as nat,
            memory: Some(self.cells@),
        }
    }

    fn load(&mut self, address: u32, width: Width) -> (value: u32) {
        let at: usize = (address - self.base) as usize;
        let value: u32 = match width {
            Width::Byte => self.cells[at] as u32,
            Width::Half => {
                let b0: u8 = self.cells[at];
                let b1: u8 = self.cells[at + 1];
                assert(b0 as u32 | (b1 as u32) << 8 <= 0xffff) by (bit_vector);
                b0 as u32 | (b1 as u32) << 8
            },
            Width::Word => {
                let b0: u8 = self.cells[at];
                let b1: u8 = self.cells[at + 1];
                let b2: u8 = self.cells[at + 2];
                let b3: u8 = self.cells[at + 3];
                b0 as u32 | (b1 as u32) << 8 | (b2 as u32) << 16 | (b3 as u32) << 24
            },
        };
        self.log.push(Access::Load { address, width, value });
        value
    }

    fn store(&mut self, address: u32, width: Width, value: u32) {
        let at: usize = (address - self.base) as usize;
        self.cells.set(at, byte(value, 0));
        match width {
            Width::Byte => {},
            Width::Half => {
                self.cells.set(at + 1, byte(value, 1));
            },
            Width::Word => {
                self.cells.set(at + 1, byte(value, 1));
                self.cells.set(at + 2, byte(value, 2));
                self.cells.set(at + 3, byte(value, 3));
            },
        }
        self.log.push(Access::Store { address, width, value });
        assert(self.cells@ =~= with_word(old(self).cells@, address - self.base, width, value));
    }
}

} // verus!
