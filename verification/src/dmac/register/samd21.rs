//! SAMD21-specific DMAC registers.
//!
//! This generation has one set of channel registers. The channel ID register
//! selects the channel that they stand for: write the channel's number to
//! [`CHID`], then operate on the channel registers. The selection is a store
//! like any other, so a context that may be interrupted between the two steps
//! has to mask interrupts around them.

use crate::dmac::register::{ReadableRegister, WritableRegister, APB_BASE_ADDRESS};
use vstd::prelude::*;

verus! {

/// Number of DMA channels
pub const NUM_CHANNELS: usize = 1;

/// QOS control: `u8` at offset `0x0e`, read and written.
pub struct QosCtrl;

impl ReadableRegister for QosCtrl {
    type Item = u8;

    open spec fn spec_address(&self) -> u32 {
        (APB_BASE_ADDRESS + 0x0e) as u32
    }

    fn address(&self) -> (address: u32) {
        APB_BASE_ADDRESS + 0x0e
    }
}

impl WritableRegister for QosCtrl {
}

/// QOS control
pub const QOSCTRL: QosCtrl = QosCtrl;

/// Channel ID: `u8` at offset `0x3f`, read and written.
pub struct ChannelId;

impl ReadableRegister for ChannelId {
    type Item = u8;

    open spec fn spec_address(&self) -> u32 {
        (APB_BASE_ADDRESS + 0x3f) as u32
    }

    fn address(&self) -> (address: u32) {
        APB_BASE_ADDRESS + 0x3f
    }
}

impl WritableRegister for ChannelId {
}

/// Channel ID
pub const CHID: ChannelId = ChannelId;

/// Channel control (A): `u8` at offset `0x40`, read and written.
pub struct ChannelCtrlA;

impl ReadableRegister for ChannelCtrlA {
    type Item = u8;

    open spec fn spec_address(&self) -> u32 {
        (APB_BASE_ADDRESS + 0x40) as u32
    }

    fn address(&self) -> (address: u32) {
        APB_BASE_ADDRESS + 0x40
    }
}

impl WritableRegister for ChannelCtrlA {
}

/// Channel control (A)
pub const CHCTRLA: ChannelCtrlA = ChannelCtrlA;

/// Channel control (B): `u32` at offset `0x44`, read and written.
pub struct ChannelCtrlB;

impl ReadableRegister for ChannelCtrlB {
    type Item = u32;

    open spec fn spec_address(&self) -> u32 {
        (APB_BASE_ADDRESS + 0x44) as u32
    }

    fn address(&self) -> (address: u32) {
        APB_BASE_ADDRESS + 0x44
    }
}

impl WritableRegister for ChannelCtrlB {
}

/// Channel control (B)
pub const CHCTRLB: ChannelCtrlB = ChannelCtrlB;

/// Channel interrupt enable clear: `u8` at offset `0x4c`, read and written.
pub struct ChannelIntEnableClr;

impl ReadableRegister for ChannelIntEnableClr {
    type Item = u8;

    open spec fn spec_address(&self) -> u32 {
        (APB_BASE_ADDRESS + 0x4c) as u32
    }

    fn address(&self) -> (address: u32) {
        APB_BASE_ADDRESS + 0x4c
    }
}

impl WritableRegister for ChannelIntEnableClr {
}

/// Channel interrupt enable clear
pub const CHINTENCLR: ChannelIntEnableClr = ChannelIntEnableClr;

/// Channel interrupt enable set: `u8` at offset `0x4d`, read and written.
pub struct ChannelIntEnableSet;

impl ReadableRegister for ChannelIntEnableSet {
    type Item = u8;

    open spec fn spec_address(&self) -> u32 {
        (APB_BASE_ADDRESS + 0x4d) as u32
    }

    fn address(&self) -> (address: u32) {
        APB_BASE_ADDRESS + 0x4d
    }
}

impl WritableRegister for ChannelIntEnableSet {
}

/// Channel interrupt enable set
pub const CHINTENSET: ChannelIntEnableSet = ChannelIntEnableSet;

/// Channel interrupt flag: `u8` at offset `0x4e`, read and written.
pub struct ChannelIntFlag;

impl ReadableRegister for ChannelIntFlag {
    type Item = u8;

    open spec fn spec_address(&self) -> u32 {
        (APB_BASE_ADDRESS + 0x4e) as u32
    }

    fn address(&self) -> (address: u32) {
        APB_BASE_ADDRESS + 0x4e
    }
}

impl WritableRegister for ChannelIntFlag {
}

/// Channel interrupt flag
pub const CHINTFLAG: ChannelIntFlag = ChannelIntFlag;

/// Channel status: `u8` at offset `0x4f`, read only.
pub struct ChannelStatus;

impl ReadableRegister for ChannelStatus {
    type Item = u8;

    open spec fn spec_address(&self) -> u32 {
        (APB_BASE_ADDRESS + 0x4f) as u32
    }

    fn address(&self) -> (address: u32) {
        APB_BASE_ADDRESS + 0x4f
    }
}

/// Channel status
pub const CHSTATUS: ChannelStatus = ChannelStatus;

} // verus!
