//! DMAC registers

pub mod samd21;
pub mod samd51;

use crate::dmac::bus::{
    lemma_bits_fit, lemma_store_is_local, lemma_store_keeps_other, lemma_store_then_load,
    with_word, word_at, Bus, BusView, Width,
};
use vstd::prelude::*;

verus! {

/// ARM Peripheral Bus (APB) base address
pub const APB_BASE_ADDRESS: u32 = 0x4100_a000;

/// An integer that a register holds: `u8`, `u16` or `u32`.
pub trait RegisterValue: Copy + Sized {
    /// The width of an access that carries such a value.
    spec fn spec_width() -> Width;

    /// The value as the bus carries it.
    spec fn spec_word(self) -> u32;

    /// The value that the bus carries as `word`.
    spec fn spec_from_word(word: u32) -> Self;

    /// The width of an access that carries such a value.
    fn width() -> (width: Width)
        ensures
            width == Self::spec_width(),
    ;

    /// The value as the bus carries it.
    fn word(self) -> (word: u32)
        ensures
            word == self.spec_word(),
    ;

    /// The value that the bus carries as `word`.
    fn from_word(word: u32) -> (value: Self)
        requires
            word <= Self::spec_width().max(),
        ensures
            value == Self::spec_from_word(word),
    ;

    /// A value and the word that carries it determine each other.
    proof fn lemma_word_is_faithful(value: Self, word: u32)
        ensures
            value.spec_word() <= Self::spec_width().max(),
            Self::spec_from_word(value.spec_word()) == value,
            word <= Self::spec_width().max() ==> Self::spec_from_word(word).spec_word() == word,
    ;
}

impl RegisterValue for u8 {
    open spec fn spec_width() -> Width {
        Width::Byte
    }

    open spec fn spec_word(self) -> u32 {
        self as u32
    }

    open spec fn spec_from_word(word: u32) -> u8 {
        word as u8
    }

    fn width() -> (width: Width) {
        Width::Byte
    }

    fn word(self) -> (word: u32) {
        self as u32
    }

    fn from_word(word: u32) -> (value: u8) {
        word as u8
    }

    proof fn lemma_word_is_faithful(value: u8, word: u32) {
    }
}

impl RegisterValue for u16 {
    open spec fn spec_width() -> Width {
        Width::Half
    }

    open spec fn spec_word(self) -> u32 {
        self as u32
    }

    open spec fn spec_from_word(word: u32) -> u16 {
        word as u16
    }

    fn width() -> (width: Width) {
        Width::Half
    }

    fn word(self) -> (word: u32) {
        self as u32
    }

    fn from_word(word: u32) -> (value: u16) {
        word as u16
    }

    proof fn lemma_word_is_faithful(value: u16, word: u32) {
    }
}

impl RegisterValue for u32 {
    open spec fn spec_width() -> Width {
        Width::Word
    }

    open spec fn spec_word(self) -> u32 {
        self
    }

    open spec fn spec_from_word(word: u32) -> u32 {
        word
    }

    fn width() -> (width: Width) {
        Width::Word
    }

    fn word(self) -> (word: u32) {
        self
    }

    fn from_word(word: u32) -> (value: u32) {
        word
    }

    proof fn lemma_word_is_faithful(value: u32, word: u32) {
    }
}

/// Readable DMAC registers
pub trait ReadableRegister {
    /// Type of the underlying volatile value
    type Item: RegisterValue;

    /// The address of the register.
    spec fn spec_address(&self) -> u32;

    /// The address of the register.
    fn address(&self) -> (address: u32)
        ensures
            address == self.spec_address(),
    ;

    /// Perform a volatile read of the underlying register value: one load of
    /// the register's width at its address.
    fn read<B: Bus>(&self, bus: &mut B) -> (value: Self::Item)
        requires
            old(bus)@.maps(self.spec_address(), Self::Item::spec_width()),
        ensures
            old(bus)@.may_load(self.spec_address(), Self::Item::spec_width(), value.spec_word()),
            final(bus)@ == old(bus)@.after_load(
                self.spec_address(),
                Self::Item::spec_width(),
                value.spec_word(),
            ),
    {
        let word: u32 = bus.load(self.address(), Self::Item::width());
        proof {
            Self::Item::lemma_word_is_faithful(Self::Item::spec_from_word(word), word);
        }
        Self::Item::from_word(word)
    }
}

/// Writable DMAC registers
pub trait WritableRegister: ReadableRegister {
    /// Perform a volatile write to the underlying register value: one store of
    /// the register's width at its address.
    ///
    /// NOTE: Though volatile, this write is unsynchronized: two contexts that
    /// write the same register have to take turns by their own means.
    fn write<B: Bus>(&self, bus: &mut B, value: Self::Item)
        requires
            old(bus)@.maps(self.spec_address(), Self::Item::spec_width()),
        ensures
            final(bus)@ == old(bus)@.after_store(
                self.spec_address(),
                Self::Item::spec_width(),
                value.spec_word(),
            ),
    {
        proof {
            Self::Item::lemma_word_is_faithful(value, 0);
        }
        bus.store(self.address(), Self::Item::width(), value.word());
    }

    /// Sets the bits of `mask` and leaves the others as they were read: a read
    /// followed by a write, which is not atomic.
    fn set_bits<B: Bus>(&self, bus: &mut B, mask: Self::Item)
        requires
            old(bus)@.maps(self.spec_address(), Self::Item::spec_width()),
        ensures
            old(bus)@.sets_bits(
                final(bus)@,
                self.spec_address(),
                Self::Item::spec_width(),
                mask.spec_word(),
            ),
    {
        let address: u32 = self.address();
        let width: Width = Self::Item::width();
        let current: u32 = bus.load(address, width);
        proof {
            Self::Item::lemma_word_is_faithful(mask, 0);
            lemma_bits_fit(width, current, mask.spec_word());
        }
        bus.store(address, width, current | mask.word());
    }

    /// Clears the bits of `mask` and leaves the others as they were read: a
    /// read followed by a write, which is not atomic.
    fn clear_bits<B: Bus>(&self, bus: &mut B, mask: Self::Item)
        requires
            old(bus)@.maps(self.spec_address(), Self::Item::spec_width()),
        ensures
            old(bus)@.clears_bits(
                final(bus)@,
                self.spec_address(),
                Self::Item::spec_width(),
                mask.spec_word(),
            ),
    {
        let address: u32 = self.address();
        let width: Width = Self::Item::width();
        let current: u32 = bus.load(address, width);
        proof {
            lemma_bits_fit(width, current, mask.spec_word());
        }
        bus.store(address, width, current & !mask.word());
    }
}

/// What is written to a register that lies in plain memory is what the next
/// read of it returns, whatever the register's width.
pub proof fn lemma_write_then_read<R: WritableRegister>(
    register: R,
    before: BusView,
    written: R::Item,
    read: R::Item,
)
    requires
        before.memory is Some,
        before.consistent(),
        before.maps(register.spec_address(), R::Item::spec_width()),
        before.after_store(
            register.spec_address(),
            R::Item::spec_width(),
            written.spec_word(),
        ).may_load(register.spec_address(), R::Item::spec_width(), read.spec_word()),
    ensures
        read == written,
{
    R::Item::lemma_word_is_faithful(written, 0);
    R::Item::lemma_word_is_faithful(read, 0);
    lemma_store_then_load(
        before.memory->0,
        register.spec_address() - before.base,
        R::Item::spec_width(),
        written.spec_word(),
    );
}

/// After `set_bits` on a register that lies in plain memory, a read returns
/// what the register held with the bits of `mask` set: every bit of `mask` is
/// set and every other bit is as it was.
pub proof fn lemma_set_bits_then_read<R: WritableRegister>(
    register: R,
    before: BusView,
    after: BusView,
    mask: R::Item,
    read: R::Item,
)
    requires
        before.memory is Some,
        before.consistent(),
        before.maps(register.spec_address(), R::Item::spec_width()),
        before.sets_bits(after, register.spec_address(), R::Item::spec_width(), mask.spec_word()),
        after.may_load(register.spec_address(), R::Item::spec_width(), read.spec_word()),
    ensures
        read.spec_word() == before.held(register.spec_address(), R::Item::spec_width())
            | mask.spec_word(),
        read.spec_word() & mask.spec_word() == mask.spec_word(),
        read.spec_word() & !mask.spec_word() == before.held(
            register.spec_address(),
            R::Item::spec_width(),
        ) & !mask.spec_word(),
{
    let held = before.held(register.spec_address(), R::Item::spec_width());
    let mask_word = mask.spec_word();
    R::Item::lemma_word_is_faithful(mask, held);
    before.lemma_held_fits(register.spec_address(), R::Item::spec_width());
    lemma_bits_fit(R::Item::spec_width(), held, mask_word);
    lemma_store_then_load(
        before.memory->0,
        register.spec_address() - before.base,
        R::Item::spec_width(),
        held | mask_word,
    );
    assert((held | mask_word) & mask_word == mask_word) by (bit_vector);
    assert((held | mask_word) & !mask_word == held & !mask_word) by (bit_vector);
}

/// After `clear_bits` on a register that lies in plain memory, a read returns
/// what the register held with the bits of `mask` cleared: every bit of `mask`
/// is clear and every other bit is as it was.
pub proof fn lemma_clear_bits_then_read<R: WritableRegister>(
    register: R,
    before: BusView,
    after: BusView,
    mask: R::Item,
    read: R::Item,
)
    requires
        before.memory is Some,
        before.consistent(),
        before.maps(register.spec_address(), R::Item::spec_width()),
        before.clears_bits(after, register.spec_address(), R::Item::spec_width(), mask.spec_word()),
        after.may_load(register.spec_address(), R::Item::spec_width(), read.spec_word()),
    ensures
        read.spec_word() == before.held(register.spec_address(), R::Item::spec_width())
            & !mask.spec_word(),
        read.spec_word() & mask.spec_word() == 0,
        read.spec_word() & !mask.spec_word() == before.held(
            register.spec_address(),
            R::Item::spec_width(),
        ) & !mask.spec_word(),
{
    let held = before.held(register.spec_address(), R::Item::spec_width());
    let mask_word = mask.spec_word();
    before.lemma_held_fits(register.spec_address(), R::Item::spec_width());
    lemma_bits_fit(R::Item::spec_width(), held, mask_word);
    lemma_store_then_load(
        before.memory->0,
        register.spec_address() - before.base,
        R::Item::spec_width(),
        held & !mask_word,
    );
    assert((held & !mask_word) & mask_word == 0) by (bit_vector);
    assert((held & !mask_word) & !mask_word == held & !mask_word) by (bit_vector);
}

/// A write, `set_bits` or `clear_bits` on one register leaves what any
/// register that does not overlap it holds in plain memory.
pub proof fn lemma_other_register_keeps_value<R: WritableRegister, S: ReadableRegister>(
    register: R,
    other: S,
    before: BusView,
    after: BusView,
    word: u32,
)
    requires
        before.memory is Some,
        before.consistent(),
        before.maps(register.spec_address(), R::Item::spec_width()),
        before.maps(other.spec_address(), S::Item::spec_width()),
        other.spec_address() + S::Item::spec_width().bytes() <= register.spec_address()
            || register.spec_address() + R::Item::spec_width().bytes() <= other.spec_address(),
        after == before.after_store(register.spec_address(), R::Item::spec_width(), word)
            || before.sets_bits(after, register.spec_address(), R::Item::spec_width(), word)
            || before.clears_bits(after, register.spec_address(), R::Item::spec_width(), word),
    ensures
        after.memory is Some,
        after.consistent(),
        after.held(other.spec_address(), S::Item::spec_width()) == before.held(
            other.spec_address(),
            S::Item::spec_width(),
        ),
{
    let address = register.spec_address();
    let width = R::Item::spec_width();
    let memory = before.memory->0;
    assert forall|value: u32|
        word_at(
            with_word(memory, address - before.base, width, value),
            other.spec_address() - before.base,
            S::Item::spec_width(),
        ) == word_at(memory, other.spec_address() - before.base, S::Item::spec_width())
        && #[trigger] with_word(memory, address - before.base, width, value).len()
        == memory.len() by {
        lemma_store_keeps_other(
            memory,
            address - before.base,
            width,
            value,
            other.spec_address() - before.base,
            S::Item::spec_width(),
        );
        lemma_store_is_local(memory, address - before.base, width, value);
    }
}

// Registers common to both SAMD21 and SAMD51

/// Control: `u16` at offset `0x00`, read and written.
pub struct Ctrl;

impl ReadableRegister for Ctrl {
    type Item = u16;

    open spec fn spec_address(&self) -> u32 {
        (APB_BASE_ADDRESS + 0x00) as u32
    }

    fn address(&self) -> (address: u32) {
        APB_BASE_ADDRESS + 0x00
    }
}

impl WritableRegister for Ctrl {
}

/// Control
pub const CTRL: Ctrl = Ctrl;

/// CRC control: `u16` at offset `0x02`, read and written.
pub struct CrcCtrl;

impl ReadableRegister for CrcCtrl {
    type Item = u16;

    open spec fn spec_address(&self) -> u32 {
        (APB_BASE_ADDRESS + 0x02) as u32
    }

    fn address(&self) -> (address: u32) {
        APB_BASE_ADDRESS + 0x02
    }
}

impl WritableRegister for CrcCtrl {
}

/// CRC control
pub const CRCCTRL: CrcCtrl = CrcCtrl;

/// CRC data input: `u32` at offset `0x04`, read and written.
pub struct CrcDataIn;

impl ReadableRegister for CrcDataIn {
    type Item = u32;

    open spec fn spec_address(&self) -> u32 {
        (APB_BASE_ADDRESS + 0x04) as u32
    }

    fn address(&self) -> (address: u32) {
        APB_BASE_ADDRESS + 0x04
    }
}

impl WritableRegister for CrcDataIn {
}

/// CRC data input
pub const CRCDATAIN: CrcDataIn = CrcDataIn;

/// CRC checksum: `u32` at offset `0x08`, read and written.
pub struct CrcChecksum;

impl ReadableRegister for CrcChecksum {
    type Item = u32;

    open spec fn spec_address(&self) -> u32 {
        (APB_BASE_ADDRESS + 0x08) as u32
    }

    fn address(&self) -> (address: u32) {
        APB_BASE_ADDRESS + 0x08
    }
}

impl WritableRegister for CrcChecksum {
}

/// CRC checksum
pub const CRCCHKSUM: CrcChecksum = CrcChecksum;

/// CRC status: `u8` at offset `0x0c`, read and written.
pub struct CrcStatus;

impl ReadableRegister for CrcStatus {
    type Item = u8;

    open spec fn spec_address(&self) -> u32 {
        (APB_BASE_ADDRESS + 0x0c) as u32
    }

    fn address(&self) -> (address: u32) {
        APB_BASE_ADDRESS + 0x0c
    }
}

impl WritableRegister for CrcStatus {
}

/// CRC status
pub const CRCSTATUS: CrcStatus = CrcStatus;

/// Debug control: `u8` at offset `0x0d`, read and written.
pub struct DebugCtrl;

impl ReadableRegister for DebugCtrl {
    type Item = u8;

    open spec fn spec_address(&self) -> u32 {
        (APB_BASE_ADDRESS + 0x0d) as u32
    }

    fn address(&self) -> (address: u32) {
        APB_BASE_ADDRESS + 0x0d
    }
}

impl WritableRegister for DebugCtrl {
}

/// Debug control
pub const DBGCTRL: DebugCtrl = DebugCtrl;

/// Software trigger control: `u32` at offset `0x10`, read and written.
pub struct SwTrigCtrl;

impl ReadableRegister for SwTrigCtrl {
    type Item = u32;

    open spec fn spec_address(&self) -> u32 {
        (APB_BASE_ADDRESS + 0x10) as u32
    }

    fn address(&self) -> (address: u32) {
        APB_BASE_ADDRESS + 0x10
    }
}

impl WritableRegister for SwTrigCtrl {
}

/// Software trigger control
pub const SWTRIGCTRL: SwTrigCtrl = SwTrigCtrl;

/// Priority control 0: `u32` at offset `0x14`, read and written.
pub struct PriCtrl0;

impl ReadableRegister for PriCtrl0 {
    type Item = u32;

    open spec fn spec_address(&self) -> u32 {
        (APB_BASE_ADDRESS + 0x14) as u32
    }

    fn address(&self) -> (address: u32) {
        APB_BASE_ADDRESS + 0x14
    }
}

impl WritableRegister for PriCtrl0 {
}

/// Priority control 0
pub const PRICTRL0: PriCtrl0 = PriCtrl0;

/// Interrupt pending: `u16` at offset `0x20`, read and written.
pub struct IntPending;

impl ReadableRegister for IntPending {
    type Item = u16;

    open spec fn spec_address(&self) -> u32 {
        (APB_BASE_ADDRESS + 0x20) as u32
    }

    fn address(&self) -> (address: u32) {
        APB_BASE_ADDRESS + 0x20
    }
}

impl WritableRegister for IntPending {
}

/// Interrupt pending
pub const INTPEND: IntPending = IntPending;

/// Interrupt status: `u32` at offset `0x24`, read only.
pub struct IntStatus;

impl ReadableRegister for IntStatus {
    type Item = u32;

    open spec fn spec_address(&self) -> u32 {
        (APB_BASE_ADDRESS + 0x24) as u32
    }

    fn address(&self) -> (address: u32) {
        APB_BASE_ADDRESS + 0x24
    }
}

/// Interrupt status
pub const INTSTATUS: IntStatus = IntStatus;

/// Busy channels: `u32` at offset `0x28`, read only.
pub struct BusyChannels;

impl ReadableRegister for BusyChannels {
    type Item = u32;

    open spec fn spec_address(&self) -> u32 {
        (APB_BASE_ADDRESS + 0x28) as u32
    }

    fn address(&self) -> (address: u32) {
        APB_BASE_ADDRESS + 0x28
    }
}

/// Busy channels
pub const BUSYCH: BusyChannels = BusyChannels;

/// Pending channels: `u32` at offset `0x2c`, read only.
pub struct PendingChannels;

impl ReadableRegister for PendingChannels {
    type Item = u32;

    open spec fn spec_address(&self) -> u32 {
        (APB_BASE_ADDRESS + 0x2c) as u32
    }

    fn address(&self) -> (address: u32) {
        APB_BASE_ADDRESS + 0x2c
    }
}

/// Pending channels
pub const PENDCH: PendingChannels = PendingChannels;

/// Active channel: `u32` at offset `0x30`, read only.
pub struct ActiveChannel;

impl ReadableRegister for ActiveChannel {
    type Item = u32;

    open spec fn spec_address(&self) -> u32 {
        (APB_BASE_ADDRESS + 0x30) as u32
    }

    fn address(&self) -> (address: u32) {
        APB_BASE_ADDRESS + 0x30
    }
}

/// Active channel
pub const ACTIVE: ActiveChannel = ActiveChannel;

/// Descriptor base address: `u32` at offset `0x34`, read and written.
pub struct BaseAddr;

impl ReadableRegister for BaseAddr {
    type Item = u32;

    open spec fn spec_address(&self) -> u32 {
        (APB_BASE_ADDRESS + 0x34) as u32
    }

    fn address(&self) -> (address: u32) {
        APB_BASE_ADDRESS + 0x34
    }
}

impl WritableRegister for BaseAddr {
}

/// Descriptor base address
pub const BASEADDR: BaseAddr = BaseAddr;

/// Write-back base address: `u32` at offset `0x38`, read and written.
pub struct WriteAddr;

impl ReadableRegister for WriteAddr {
    type Item = u32;

    open spec fn spec_address(&self) -> u32 {
        (APB_BASE_ADDRESS + 0x38) as u32
    }

    fn address(&self) -> (address: u32) {
        APB_BASE_ADDRESS + 0x38
    }
}

impl WritableRegister for WriteAddr {
}

/// Write-back base address
pub const WRITEADDR: WriteAddr = WriteAddr;

} // verus!
