//! SAMD51-specific DMAC registers.
//!
//! This generation has one block of registers for each channel. The blocks lie
//! one after the other, so reaching a channel is arithmetic on its number and
//! needs no selection step.

use crate::dmac::register::{ReadableRegister, RegisterValue, WritableRegister, APB_BASE_ADDRESS};
use core::marker::PhantomData;
use vstd::prelude::*;

verus! {

/// Channel identifier
pub type ChannelId = u8;

/// Number of DMA channels
pub const NUM_CHANNELS: usize = 32;

/// Address of the first channel's block.
pub const CHANNEL_REGISTERS_ADDRESS: u32 = APB_BASE_ADDRESS + 0x40;

/// Number of bytes that one channel's block takes.
pub const CHANNEL_BLOCK_SIZE: u32 = 12;

/// One register of a channel's block: a `T` at an address, read and written.
pub struct ChannelRegister<T> {
    address: u32,
    item: PhantomData<T>,
}

impl<T: RegisterValue> ReadableRegister for ChannelRegister<T> {
    type Item = T;

    closed spec fn spec_address(&self) -> u32 {
        self.address
    }

    fn address(&self) -> (address: u32) {
        self.address
    }
}

impl<T: RegisterValue> WritableRegister for ChannelRegister<T> {
}

/// DMAC channel hardware registers
pub struct ChannelRegisters {
    /// Control (A)
    pub chctrla: ChannelRegister<u32>,
    /// Control (B)
    pub chctrlb: ChannelRegister<u8>,
    /// Priority level
    pub chprilvl: ChannelRegister<u8>,
    /// Event control
    pub chevctrl: ChannelRegister<u8>,
    /// Interrupt enable clear
    pub chintenclr: ChannelRegister<u8>,
    /// Interrupt enable set
    pub chintenset: ChannelRegister<u8>,
    /// Interrupt flag
    pub chintflag: ChannelRegister<u8>,
    /// Status
    pub chstatus: ChannelRegister<u8>,
}

impl ChannelRegisters {
    /// The registers lie in the block that starts at `block`, each at its
    /// offset: control (A) takes the first four bytes, control (B), priority
    /// level and event control the next three, one byte is reserved, and the
    /// last four hold interrupt enable clear, interrupt enable set, interrupt
    /// flag and status.
    pub open spec fn placed_at(&self, block: u32) -> bool {
        &&& self.chctrla.spec_address() == block
        &&& self.chctrlb.spec_address() == block + 4
        &&& self.chprilvl.spec_address() == block + 5
        &&& self.chevctrl.spec_address() == block + 6
        &&& self.chintenclr.spec_address() == block + 8
        &&& self.chintenset.spec_address() == block + 9
        &&& self.chintflag.spec_address() == block + 10
        &&& self.chstatus.spec_address() == block + 11
    }
}

/// Address of the block of channel `id`.
pub open spec fn block_address(id: ChannelId) -> u32 {
    (CHANNEL_REGISTERS_ADDRESS + id * CHANNEL_BLOCK_SIZE) as u32
}

/// The register of type `T` that lies `offset` bytes into the block at
/// `block`.
fn register_at<T>(block: u32, offset: u32) -> (register: ChannelRegister<T>) where T: RegisterValue
    requires
        block + offset <= u32::MAX,
    ensures
        register.spec_address() == block + offset,
{
    ChannelRegister { address: block + offset, item: PhantomData }
}

/// Get DMAC channel registers for a particular channel.
///
/// The `ChannelId` has to be lower than `NUM_CHANNELS` (32);
/// [`try_channel`] takes any.
pub fn channel(id: ChannelId) -> (registers: ChannelRegisters)
    requires
        id < NUM_CHANNELS,
    ensures
        registers.placed_at(block_address(id)),
{
    let block: u32 = CHANNEL_REGISTERS_ADDRESS + id as u32 * CHANNEL_BLOCK_SIZE;
    ChannelRegisters {
        chctrla: register_at(block, 0),
        chctrlb: register_at(block, 4),
        chprilvl: register_at(block, 5),
        chevctrl: register_at(block, 6),
        chintenclr: register_at(block, 8),
        chintenset: register_at(block, 9),
        chintflag: register_at(block, 10),
        chstatus: register_at(block, 11),
    }
}

/// Get DMAC channel registers for a particular channel, or `None` for a
/// `ChannelId` that no channel has.
pub fn try_channel(id: ChannelId) -> (registers: Option<ChannelRegisters>)
    ensures
        registers is Some <==> id < NUM_CHANNELS,
        registers matches Some(r) ==> r.placed_at(block_address(id)),
{
    if (id as usize) < NUM_CHANNELS {
        Some(channel(id))
    } else {
        None
    }
}

/// The block of a channel starts at the first block's address plus the
/// channel's number times the size of a block, at a multiple of four, and the
/// blocks of two different channels share no byte.
pub proof fn lemma_blocks_are_apart(id: ChannelId, other: ChannelId)
    requires
        id < NUM_CHANNELS,
        other < NUM_CHANNELS,
    ensures
        block_address(id) == CHANNEL_REGISTERS_ADDRESS + id * CHANNEL_BLOCK_SIZE,
        block_address(id) % 4 == 0,
        id != other ==> block_address(id) != block_address(other),
        id < other ==> block_address(id) + CHANNEL_BLOCK_SIZE <= block_address(other),
{
}

/// Every register of a channel lies inside the channel's block, so no
/// register of one channel shares a byte with a register of another.
pub proof fn lemma_registers_are_apart(
    id: ChannelId,
    registers: ChannelRegisters,
    other: ChannelId,
    other_registers: ChannelRegisters,
)
    requires
        id < other < NUM_CHANNELS,
        registers.placed_at(block_address(id)),
        other_registers.placed_at(block_address(other)),
    ensures
        registers.chstatus.spec_address() + 1 <= other_registers.chctrla.spec_address(),
        block_address(id) <= registers.chctrla.spec_address(),
        registers.chstatus.spec_address() + 1 == block_address(id) + CHANNEL_BLOCK_SIZE,
{
}

} // verus!
