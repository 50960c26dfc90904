//! The bus between the processor and the DMAC's registers.
//!
//! Every register access of this library is one call of [`Bus::load`] or
//! [`Bus::store`]. A bus keeps a ghost trace of the accesses it was asked for,
//! so a contract can say that an operation is exactly one load, or a load
//! followed by a store. What a load returns is a separate matter: plain memory
//! returns what was stored last, a peripheral returns what the hardware
//! pleases. [`BusView::memory`] tells the two apart.

use vstd::prelude::*;

verus! {

/// The width of one bus access.
#[derive(Clone, Copy, Debug, PartialEq, Eq, Structural)]
pub enum Width {
    /// 8 bits
    Byte,
    /// 16 bits
    Half,
    /// 32 bits
    Word,
}

impl Width {
    /// Number of bytes that an access of this width covers.
    pub open spec fn spec_bytes(self) -> u32 {
        match self {
            Width::Byte => 1,
            Width::Half => 2,
            Width::Word => 4,
        }
    }

    /// Number of bytes that an access of this width covers.
    #[verifier::when_used_as_spec(spec_bytes)]
    pub fn bytes(self) -> (n: u32)
        ensures
            n == self.spec_bytes(),
    {
        match self {
            Width::Byte => 1,
            Width::Half => 2,
            Width::Word => 4,
        }
    }

    /// `address` is a multiple of the number of bytes that an access of this
    /// width covers.
    pub open spec fn aligned(self, address: u32) -> bool {
        match self {
            Width::Byte => true,
            Width::Half => address % 2 == 0,
            Width::Word => address % 4 == 0,
        }
    }

    /// The largest value that an access of this width carries.
    pub open spec fn spec_max(self) -> u32 {
        match self {
            Width::Byte => 0xff,
            Width::Half => 0xffff,
            Width::Word => 0xffff_ffff,
        }
    }

    /// The largest value that an access of this width carries.
    #[verifier::when_used_as_spec(spec_max)]
    pub fn max(self) -> (m: u32)
        ensures
            m == self.spec_max(),
    {
        match self {
            Width::Byte => 0xff,
            Width::Half => 0xffff,
            Width::Word => 0xffff_ffff,
        }
    }
}

/// One access that a bus performed.
#[derive(Clone, Copy, Debug, PartialEq, Eq, Structural)]
pub enum Access {
    /// A load of `width` at `address` that returned `value`.
    Load { address: u32, width: Width, value: u32 },
    /// A store of `value`, `width` wide, at `address`.
    Store { address: u32, width: Width, value: u32 },
}

/// Byte `index` of `value`, counted from the least significant.
pub open spec fn byte_of(value: u32, index: u32) -> u8 {
    ((value >> (8 * index) as u32) & 0xff) as u8
}

/// Byte `index` of `value`, counted from the least significant.
pub(crate) fn byte(value: u32, index: u32) -> (b: u8)
    requires
        index < 4,
    ensures
        b == byte_of(value, index),
{
    let shift: u32 = 8 * index;
    let low: u32 = (value >> shift) & 0xff;
    assert(low <= 0xff) by (bit_vector)
        requires
            low == (value >> shift) & 0xff,
    ;
    low as u8
}

/// The value that a little-endian load of `width` reads at `offset` in
/// `memory`.
pub open spec fn word_at(memory: Seq<u8>, offset: int, width: Width) -> u32 {
    match width {
        Width::Byte => memory[offset] as u32,
        Width::Half => memory[offset] as u32 | (memory[offset + 1] as u32) << 8,
        Width::Word => memory[offset] as u32 | (memory[offset + 1] as u32) << 8 | (memory[offset
            + 2] as u32) << 16 | (memory[offset + 3] as u32) << 24,
    }
}

/// `memory` after a little-endian store of `value`, `width` wide, at `offset`.
pub open spec fn with_word(memory: Seq<u8>, offset: int, width: Width, value: u32) -> Seq<u8> {
    match width {
        Width::Byte => memory.update(offset, byte_of(value, 0)),
        Width::Half => memory.update(offset, byte_of(value, 0)).update(
            offset + 1,
            byte_of(value, 1),
        ),
        Width::Word => memory.update(offset, byte_of(value, 0)).update(
            offset + 1,
            byte_of(value, 1),
        ).update(offset + 2, byte_of(value, 2)).update(offset + 3, byte_of(value, 3)),
    }
}

/// What a contract can say of a bus.
pub struct BusView {
    /// Every access performed so far, oldest first.
    pub trace: Seq<Access>,
    /// Address of the first byte that the bus serves.
    pub base: u32,
    /// Number of bytes that the bus serves.
    pub size: nat,
    /// The bytes behind the bus, where it is plain memory that keeps what was
    /// stored; `None` in front of a peripheral, whose registers change by
    /// themselves.
    pub memory: Option<Seq<u8>>,
}

impl BusView {
    /// The bus serves an access of `width` at `address`: the access is
    /// naturally aligned and lies inside the window.
    pub open spec fn maps(self, address: u32, width: Width) -> bool {
        &&& width.aligned(address)
        &&& self.base <= address
        &&& address + width.bytes() <= self.base + self.size
    }

    /// `value` may come back from a load of `width` at `address`.
    pub open spec fn may_load(self, address: u32, width: Width, value: u32) -> bool {
        &&& value <= width.max()
        &&& self.memory matches Some(memory) ==> value == word_at(
            memory,
            address - self.base,
            width,
        )
    }

    /// The bus after a load of `width` at `address` that returned `value`.
    pub open spec fn after_load(self, address: u32, width: Width, value: u32) -> BusView {
        BusView { trace: self.trace.push(Access::Load { address, width, value }), ..self }
    }

    /// The bus after a store of `value`, `width` wide, at `address`.
    pub open spec fn after_store(self, address: u32, width: Width, value: u32) -> BusView {
        BusView {
            trace: self.trace.push(Access::Store { address, width, value }),
            memory: match self.memory {
                Some(memory) => Some(with_word(memory, address - self.base, width, value)),
                None => None,
            },
            ..self
        }
    }

    /// A memory, where there is one, has the size of the window.
    pub open spec fn consistent(self) -> bool {
        self.memory matches Some(memory) ==> memory.len() == self.size
    }

    /// What a register of `width` at `address` holds, where the bus is plain
    /// memory.
    pub open spec fn held(self, address: u32, width: Width) -> u32
        recommends
            self.memory is Some,
    {
        word_at(self.memory->0, address - self.base, width)
    }

    /// What a register holds fits its width.
    pub proof fn lemma_held_fits(self, address: u32, width: Width)
        ensures
            self.held(address, width) <= width.max(),
    {
        let memory = self.memory->0;
        let at = address - self.base;
        let b0 = memory[at];
        let b1 = memory[at + 1];
        assert(b0 as u32 | (b1 as u32) << 8 <= 0xffff) by (bit_vector);
    }

    /// `after` is this bus after a load of `width` at `address` and a store, at
    /// the same place, of what was loaded with the bits of `mask` set.
    pub open spec fn sets_bits(self, after: BusView, address: u32, width: Width, mask: u32) -> bool {
        exists|current: u32|
            self.may_load(address, width, current) && after == #[trigger] self.after_load(
                address,
                width,
                current,
            ).after_store(address, width, current | mask)
    }

    /// `after` is this bus after a load of `width` at `address` and a store, at
    /// the same place, of what was loaded with the bits of `mask` cleared.
    pub open spec fn clears_bits(self, after: BusView, address: u32, width: Width, mask: u32) -> bool {
        exists|current: u32|
            self.may_load(address, width, current) && after == #[trigger] self.after_load(
                address,
                width,
                current,
            ).after_store(address, width, current & !mask)
    }
}

/// A bus that serves loads and stores of one, two and four bytes.
pub trait Bus {
    /// The accesses so far, the window, and the memory where there is one.
    spec fn view(&self) -> BusView;

    /// Performs one load of `width` at `address`.
    fn load(&mut self, address: u32, width: Width) -> (value: u32)
        requires
            old(self)@.maps(address, width),
        ensures
            old(self)@.may_load(address, width, value),
            final(self)@ == old(self)@.after_load(address, width, value),
    ;

    /// Performs one store of `value`, `width` wide, at `address`.
    fn store(&mut self, address: u32, width: Width, value: u32)
        requires
            old(self)@.maps(address, width),
            value <= width.max(),
        ensures
            final(self)@ == old(self)@.after_store(address, width, value),
    ;
}

/// The largest value of a width has all bits of the width set, so joining or
/// masking two values that fit gives a value that fits.
pub proof fn lemma_bits_fit(width: Width, current: u32, mask: u32)
    requires
        current <= width.max(),
    ensures
        mask <= width.max() ==> current | mask <= width.max(),
        current & !mask <= width.max(),
{
    assert(current <= 0xff ==> current & !mask <= 0xff) by (bit_vector);
    assert(current <= 0xffff ==> current & !mask <= 0xffff) by (bit_vector);
    assert(current <= 0xff && mask <= 0xff ==> current | mask <= 0xff) by (bit_vector);
    assert(current <= 0xffff && mask <= 0xffff ==> current | mask <= 0xffff) by (bit_vector);
}

/// The bytes of a value put together again give the value.
pub proof fn lemma_bytes_compose(value: u32)
    ensures
        value <= 0xff ==> byte_of(value, 0) as u32 == value,
        value <= 0xffff ==> byte_of(value, 0) as u32 | (byte_of(value, 1) as u32) << 8 == value,
        byte_of(value, 0) as u32 | (byte_of(value, 1) as u32) << 8 | (byte_of(value, 2) as u32)
            << 16 | (byte_of(value, 3) as u32) << 24 == value,
{
    assert(value <= 0xff ==> ((value >> 0u32) & 0xff) as u8 as u32 == value) by (bit_vector);
    assert(value <= 0xffff ==> ((value >> 0u32) & 0xff) as u8 as u32 | (((value >> 8u32)
        & 0xff) as u8 as u32) << 8 == value) by (bit_vector);
    assert(((value >> 0u32) & 0xff) as u8 as u32 | (((value >> 8u32) & 0xff) as u8 as u32) << 8
        | (((value >> 16u32) & 0xff) as u8 as u32) << 16 | (((value >> 24u32) & 0xff) as u8 as u32)
        << 24 == value) by (bit_vector);
}

/// A load returns what was stored last at the same place with the same width.
pub proof fn lemma_store_then_load(memory: Seq<u8>, offset: int, width: Width, value: u32)
    requires
        0 <= offset,
        offset + width.bytes() <= memory.len(),
        value <= width.max(),
    ensures
        word_at(with_word(memory, offset, width, value), offset, width) == value,
{
    lemma_bytes_compose(value);
}

/// A store leaves the length of the memory and every byte outside its range as
/// they were.
pub proof fn lemma_store_is_local(memory: Seq<u8>, offset: int, width: Width, value: u32)
    requires
        0 <= offset,
        offset + width.bytes() <= memory.len(),
    ensures
        with_word(memory, offset, width, value).len() == memory.len(),
        forall|i: int|
            0 <= i < memory.len() && !(offset <= i < offset + width.bytes()) ==> with_word(
                memory,
                offset,
                width,
                value,
            )[i] == memory[i],
{
}

/// A store does not change what a load reads from a range that it does not
/// touch.
pub proof fn lemma_store_keeps_other(
    memory: Seq<u8>,
    offset: int,
    width: Width,
    value: u32,
    other: int,
    other_width: Width,
)
    requires
        0 <= offset,
        offset + width.bytes() <= memory.len(),
        0 <= other,
        other + other_width.bytes() <= memory.len(),
        other + other_width.bytes() <= offset || offset + width.bytes() <= other,
    ensures
        word_at(with_word(memory, offset, width, value), other, other_width) == word_at(
            memory,
            other,
            other_width,
        ),
{
    lemma_store_is_local(memory, offset, width, value);
}

} // verus!
