//! DMA controller (DMAC) support
//!
//! Firmware reaches the controller in two ways. It programs the registers in
//! [`register`], over a [`bus`], and it lays out [`Descriptor`]s in memory,
//! which the engine fetches by itself once the address of the first has been
//! written to the base address register. A descriptor belongs to the firmware
//! until then; from then until its channel reports the end of the transfer the
//! engine reads it, and writes it where write-back is on, so the firmware has
//! to leave it alone.

use crate::dmac::bus::{byte, byte_of, lemma_bytes_compose, word_at, Width};
use vstd::prelude::*;

pub mod bus;
pub mod mmio;
pub mod register;
pub mod sim;
pub mod table;

verus! {

/// Number of bytes that a descriptor takes in memory.
pub const DESCRIPTOR_SIZE: u32 = 16;

/// The engine fetches descriptors only from addresses that are multiples of
/// this.
pub const DESCRIPTOR_ALIGNMENT: u32 = 16;

/// The next-descriptor address that ends a chain.
pub const END_OF_CHAIN: u32 = 0;

/// DMAC descriptor registers
///
/// In memory a descriptor takes sixteen bytes at an address that is a multiple
/// of sixteen. [`Descriptor::layout`] gives the bytes, [`table`] the addresses.
#[derive(Copy, Clone, Debug, Eq, PartialEq, Structural)]
pub struct Descriptor {
    /// Block transfer control
    pub btctrl: u16,
    /// Block transfer count
    pub btcnt: u16,
    /// Source address for transfer
    pub srcaddr: u32,
    /// Destination address for transfer
    pub dstaddr: u32,
    /// Address of next descriptor
    pub descaddr: u32,
}

impl Default for Descriptor {
    fn default() -> (descriptor: Descriptor)
        ensures
            descriptor == (Descriptor { btctrl: 0, btcnt: 0, srcaddr: 0, dstaddr: 0, descaddr: 0 }),
    {
        Descriptor { btctrl: 0, btcnt: 0, srcaddr: 0, dstaddr: 0, descaddr: 0 }
    }
}

impl Descriptor {
    /// The sixteen bytes that the engine fetches: the five fields in the
    /// order of their declaration, each with its least significant byte first.
    pub open spec fn layout(self) -> Seq<u8> {
        seq![
            byte_of(self.btctrl as u32, 0),
            byte_of(self.btctrl as u32, 1),
            byte_of(self.btcnt as u32, 0),
            byte_of(self.btcnt as u32, 1),
            byte_of(self.srcaddr, 0),
            byte_of(self.srcaddr, 1),
            byte_of(self.srcaddr, 2),
            byte_of(self.srcaddr, 3),
            byte_of(self.dstaddr, 0),
            byte_of(self.dstaddr, 1),
            byte_of(self.dstaddr, 2),
            byte_of(self.dstaddr, 3),
            byte_of(self.descaddr, 0),
            byte_of(self.descaddr, 1),
            byte_of(self.descaddr, 2),
            byte_of(self.descaddr, 3),
        ]
    }

    /// The descriptor as it lies in memory.
    pub fn to_bytes(&self) -> (bytes: [u8; 16])
        ensures
            bytes@ == self.layout(),
    {
        let bytes: [u8; 16] = [
            byte(self.btctrl as u32, 0),
            byte(self.btctrl as u32, 1),
            byte(self.btcnt as u32, 0),
            byte(self.btcnt as u32, 1),
            byte(self.srcaddr, 0),
            byte(self.srcaddr, 1),
            byte(self.srcaddr, 2),
            byte(self.srcaddr, 3),
            byte(self.dstaddr, 0),
            byte(self.dstaddr, 1),
            byte(self.dstaddr, 2),
            byte(self.dstaddr, 3),
            byte(self.descaddr, 0),
            byte(self.descaddr, 1),
            byte(self.descaddr, 2),
            byte(self.descaddr, 3),
        ];
        assert(bytes@ =~= self.layout());
        bytes
    }

    /// The descriptor that lies in memory as `bytes`.
    pub fn from_bytes(bytes: &[u8; 16]) -> (descriptor: Descriptor)
        ensures
            descriptor.layout() == bytes@,
    {
        let descriptor = Descriptor {
            btctrl: half(bytes[0], bytes[1]),
            btcnt: half(bytes[2], bytes[3]),
            srcaddr: word(bytes[4], bytes[5], bytes[6], bytes[7]),
            dstaddr: word(bytes[8], bytes[9], bytes[10], bytes[11]),
            descaddr: word(bytes[12], bytes[13], bytes[14], bytes[15]),
        };
        assert(descriptor.layout() =~= bytes@);
        descriptor
    }

    /// The descriptor is the last of its chain.
    pub fn is_last(&self) -> (last: bool)
        ensures
            last <==> self.descaddr == END_OF_CHAIN,
    {
        self.descaddr == END_OF_CHAIN
    }

    /// What the engine's loads find in the layout: each field at its offset,
    /// with its width.
    pub proof fn lemma_layout_holds_fields(self)
        ensures
            self.layout().len() == DESCRIPTOR_SIZE,
            word_at(self.layout(), 0, Width::Half) == self.btctrl,
            word_at(self.layout(), 2, Width::Half) == self.btcnt,
            word_at(self.layout(), 4, Width::Word) == self.srcaddr,
            word_at(self.layout(), 8, Width::Word) == self.dstaddr,
            word_at(self.layout(), 12, Width::Word) == self.descaddr,
    {
        lemma_bytes_compose(self.btctrl as u32);
        lemma_bytes_compose(self.btcnt as u32);
        lemma_bytes_compose(self.srcaddr);
        lemma_bytes_compose(self.dstaddr);
        lemma_bytes_compose(self.descaddr);
    }

    /// Two descriptors with the same layout are the same descriptor.
    pub proof fn lemma_layout_is_faithful(self, other: Descriptor)
        requires
            self.layout() == other.layout(),
        ensures
            self == other,
    {
        self.lemma_layout_holds_fields();
        other.lemma_layout_holds_fields();
    }
}

/// The 16-bit value with least significant byte `b0`.
fn half(b0: u8, b1: u8) -> (value: u16)
    ensures
        byte_of(value as u32, 0) == b0,
        byte_of(value as u32, 1) == b1,
{
    let value: u16 = b0 as u16 | (b1 as u16) << 8;
    assert((((b0 as u16 | (b1 as u16) << 8) as u32 >> 0u32) & 0xff) as u8 == b0) by (bit_vector);
    assert((((b0 as u16 | (b1 as u16) << 8) as u32 >> 8u32) & 0xff) as u8 == b1) by (bit_vector);
    value
}

/// The 32-bit value with least significant byte `b0`.
fn word(b0: u8, b1: u8, b2: u8, b3: u8) -> (value: u32)
    ensures
        byte_of(value, 0) == b0,
        byte_of(value, 1) == b1,
        byte_of(value, 2) == b2,
        byte_of(value, 3) == b3,
{
    let value: u32 = b0 as u32 | (b1 as u32) << 8 | (b2 as u32) << 16 | (b3 as u32) << 24;
    assert((((b0 as u32 | (b1 as u32) << 8 | (b2 as u32) << 16 | (b3 as u32) << 24) >> 0u32)
        & 0xff) as u8 == b0) by (bit_vector);
    assert((((b0 as u32 | (b1 as u32) << 8 | (b2 as u32) << 16 | (b3 as u32) << 24) >> 8u32)
        & 0xff) as u8 == b1) by (bit_vector);
    assert((((b0 as u32 | (b1 as u32) << 8 | (b2 as u32) << 16 | (b3 as u32) << 24) >> 16u32)
        & 0xff) as u8 == b2) by (bit_vector);
    assert((((b0 as u32 | (b1 as u32) << 8 | (b2 as u32) << 16 | (b3 as u32) << 24) >> 24u32)
        & 0xff) as u8 == b3) by (bit_vector);
    value
}

} // verus!
