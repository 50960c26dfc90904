//! Normal Interrupt Signal Enable: the value read from the register, the value
//! to write to it, and one bit field for each interrupt signal.

use crate::sdhc0::NISIER;
use vcell::VolatileCell;
use vstd::prelude::*;

verus! {

/// Value read from the register
pub struct R {
    bits: u16,
}

/// Value to write to the register
pub struct W {
    bits: u16,
}

impl View for R {
    type V = u16;

    /// The raw bits.
    closed spec fn view(&self) -> u16 {
        self.bits
    }
}

impl View for W {
    type V = u16;

    /// The raw bits.
    closed spec fn view(&self) -> u16 {
        self.bits
    }
}

/// Bit `offset` of `bits` is set.
pub open spec fn bit_set(bits: u16, offset: u8) -> bool {
    (bits >> offset) & 1 != 0
}

/// `bits` with bit `offset` set where `value` holds, cleared where it does not.
pub open spec fn with_bit(bits: u16, offset: u8, value: bool) -> u16 {
    if value {
        bits | (1u16 << offset)
    } else {
        bits & !(1u16 << offset)
    }
}

/// A bit reads as it was written.
pub proof fn lemma_bit_reads_as_written(bits: u16, offset: u8, value: bool)
    requires
        offset < 16,
    ensures
        bit_set(with_bit(bits, offset, value), offset) == value,
{
    assert(((bits | (1u16 << offset)) >> offset) & 1 != 0) by (bit_vector)
        requires
            offset < 16,
    ;
    assert(((bits & !(1u16 << offset)) >> offset) & 1 == 0) by (bit_vector)
        requires
            offset < 16,
    ;
}

/// Writing one bit leaves every other bit as it was.
pub proof fn lemma_bit_write_is_local(bits: u16, offset: u8, value: bool, other: u8)
    requires
        offset < 16,
        other < 16,
        other != offset,
    ensures
        bit_set(with_bit(bits, offset, value), other) == bit_set(bits, other),
{
    assert(((bits | (1u16 << offset)) >> other) & 1 == (bits >> other) & 1) by (bit_vector)
        requires
            offset < 16,
            other < 16,
            other != offset,
    ;
    assert(((bits & !(1u16 << offset)) >> other) & 1 == (bits >> other) & 1) by (bit_vector)
        requires
            offset < 16,
            other < 16,
            other != offset,
    ;
}

/// Reads bit `offset` of `bits`.
fn read_bit(bits: u16, offset: u8) -> (set: bool)
    requires
        offset < 16,
    ensures
        set == bit_set(bits, offset),
{
    (bits >> offset) & 1 != 0
}

/// Writes `value` to bit `offset` of `w`.
fn write_bit(w: &mut W, offset: u8, value: bool)
    requires
        offset < 16,
    ensures
        final(w)@ == with_bit(old(w)@, offset, value),
{
    let before: u16 = w.bits;
    let cleared: u16 = before & !(1u16 << offset);
    if value {
        assert((before & !(1u16 << offset)) | (1u16 << offset) == before | (1u16 << offset))
            by (bit_vector);
        w.bits = cleared | (1u16 << offset);
    } else {
        w.bits = cleared;
    }
}

impl NISIER {
    /// A register cell that holds `bits`, as a stand-in for the register where
    /// there is no hardware.
    pub fn new(bits: u16) -> (register: NISIER) {
        NISIER { register: VolatileCell::new(bits) }
    }

    /// Modifies the contents of the register: reads it, lets `f` change a
    /// value that starts as what was read, and writes that value back.
    pub fn modify<F>(&self, f: F) where for<'w> F: FnOnce(&R, &'w mut W) -> &'w mut W
        requires
            forall|r: &R, w: &mut W| r@ == w@ ==> f.requires((r, w)),
    {
        let bits: u16 = self.register.get();
        let w = W::modified(bits, f);
        self.register.set(w.bits);
    }

    /// Reads the contents of the register
    pub fn read(&self) -> (r: R) {
        R { bits: self.register.get() }
    }

    /// Writes to the register: lets `f` change a value that starts as the
    /// reset value, and writes that value.
    pub fn write<F>(&self, f: F) where F: FnOnce(&mut W) -> &mut W
        requires
            forall|w: &mut W| w@ == 0 ==> f.requires((w,)),
    {
        let w = W::written(f);
        self.register.set(w.bits);
    }

    /// Writes the reset value to the register
    pub fn reset(&self) {
        self.write(|w: &mut W| -> (out: &mut W) { w })
    }
}

/// Possible values of the field `CMDC`
#[allow(non_camel_case_types)]
#[derive(Clone, Copy, Debug, PartialEq, Eq, Structural)]
pub enum CMDCR {
    /// Masked
    MASKED,
    /// Enabled
    ENABLED,
}

impl CMDCR {
    /// Returns `true` if the bit is clear (0)
    pub fn bit_is_clear(&self) -> (clear: bool)
        ensures
            clear <==> self is MASKED,
    {
        !self.bit()
    }

    /// Returns `true` if the bit is set (1)
    pub fn bit_is_set(&self) -> (set: bool)
        ensures
            set <==> self is ENABLED,
    {
        self.bit()
    }

    /// Value of the field as raw bits
    pub fn bit(&self) -> (bit: bool)
        ensures
            bit <==> self is ENABLED,
    {
        match *self {
            CMDCR::MASKED => false,
            CMDCR::ENABLED => true,
        }
    }

    /// The value of the field that the raw bit `value` stands for.
    pub fn _from(value: bool) -> (field: CMDCR)
        ensures
            field is ENABLED <==> value,
    {
        match value {
            false => CMDCR::MASKED,
            true => CMDCR::ENABLED,
        }
    }

    /// Checks if the value of the field is `MASKED`
    pub fn is_masked(&self) -> (masked: bool)
        ensures
            masked <==> self is MASKED,
    {
        *self == CMDCR::MASKED
    }

    /// Checks if the value of the field is `ENABLED`
    pub fn is_enabled(&self) -> (enabled: bool)
        ensures
            enabled <==> self is ENABLED,
    {
        *self == CMDCR::ENABLED
    }
}

/// Possible values of the field `TRFC`
#[allow(non_camel_case_types)]
#[derive(Clone, Copy, Debug, PartialEq, Eq, Structural)]
pub enum TRFCR {
    /// Masked
    MASKED,
    /// Enabled
    ENABLED,
}

impl TRFCR {
    /// Returns `true` if the bit is clear (0)
    pub fn bit_is_clear(&self) -> (clear: bool)
        ensures
            clear <==> self is MASKED,
    {
        !self.bit()
    }

    /// Returns `true` if the bit is set (1)
    pub fn bit_is_set(&self) -> (set: bool)
        ensures
            set <==> self is ENABLED,
    {
        self.bit()
    }

    /// Value of the field as raw bits
    pub fn bit(&self) -> (bit: bool)
        ensures
            bit <==> self is ENABLED,
    {
        match *self {
            TRFCR::MASKED => false,
            TRFCR::ENABLED => true,
        }
    }

    /// The value of the field that the raw bit `value` stands for.
    pub fn _from(value: bool) -> (field: TRFCR)
        ensures
            field is ENABLED <==> value,
    {
        match value {
            false => TRFCR::MASKED,
            true => TRFCR::ENABLED,
        }
    }

    /// Checks if the value of the field is `MASKED`
    pub fn is_masked(&self) -> (masked: bool)
        ensures
            masked <==> self is MASKED,
    {
        *self == TRFCR::MASKED
    }

    /// Checks if the value of the field is `ENABLED`
    pub fn is_enabled(&self) -> (enabled: bool)
        ensures
            enabled <==> self is ENABLED,
    {
        *self == TRFCR::ENABLED
    }
}

/// Possible values of the field `BLKGE`
#[allow(non_camel_case_types)]
#[derive(Clone, Copy, Debug, PartialEq, Eq, Structural)]
pub enum BLKGER {
    /// Masked
    MASKED,
    /// Enabled
    ENABLED,
}

impl BLKGER {
    /// Returns `true` if the bit is clear (0)
    pub fn bit_is_clear(&self) -> (clear: bool)
        ensures
            clear <==> self is MASKED,
    {
        !self.bit()
    }

    /// Returns `true` if the bit is set (1)
    pub fn bit_is_set(&self) -> (set: bool)
        ensures
            set <==> self is ENABLED,
    {
        self.bit()
    }

    /// Value of the field as raw bits
    pub fn bit(&self) -> (bit: bool)
        ensures
            bit <==> self is ENABLED,
    {
        match *self {
            BLKGER::MASKED => false,
            BLKGER::ENABLED => true,
        }
    }

    /// The value of the field that the raw bit `value` stands for.
    pub fn _from(value: bool) -> (field: BLKGER)
        ensures
            field is ENABLED <==> value,
    {
        match value {
            false => BLKGER::MASKED,
            true => BLKGER::ENABLED,
        }
    }

    /// Checks if the value of the field is `MASKED`
    pub fn is_masked(&self) -> (masked: bool)
        ensures
            masked <==> self is MASKED,
    {
        *self == BLKGER::MASKED
    }

    /// Checks if the value of the field is `ENABLED`
    pub fn is_enabled(&self) -> (enabled: bool)
        ensures
            enabled <==> self is ENABLED,
    {
        *self == BLKGER::ENABLED
    }
}

/// Possible values of the field `DMAINT`
#[allow(non_camel_case_types)]
#[derive(Clone, Copy, Debug, PartialEq, Eq, Structural)]
pub enum DMAINTR {
    /// Masked
    MASKED,
    /// Enabled
    ENABLED,
}

impl DMAINTR {
    /// Returns `true` if the bit is clear (0)
    pub fn bit_is_clear(&self) -> (clear: bool)
        ensures
            clear <==> self is MASKED,
    {
        !self.bit()
    }

    /// Returns `true` if the bit is set (1)
    pub fn bit_is_set(&self) -> (set: bool)
        ensures
            set <==> self is ENABLED,
    {
        self.bit()
    }

    /// Value of the field as raw bits
    pub fn bit(&self) -> (bit: bool)
        ensures
            bit <==> self is ENABLED,
    {
        match *self {
            DMAINTR::MASKED => false,
            DMAINTR::ENABLED => true,
        }
    }

    /// The value of the field that the raw bit `value` stands for.
    pub fn _from(value: bool) -> (field: DMAINTR)
        ensures
            field is ENABLED <==> value,
    {
        match value {
            false => DMAINTR::MASKED,
            true => DMAINTR::ENABLED,
        }
    }

    /// Checks if the value of the field is `MASKED`
    pub fn is_masked(&self) -> (masked: bool)
        ensures
            masked <==> self is MASKED,
    {
        *self == DMAINTR::MASKED
    }

    /// Checks if the value of the field is `ENABLED`
    pub fn is_enabled(&self) -> (enabled: bool)
        ensures
            enabled <==> self is ENABLED,
    {
        *self == DMAINTR::ENABLED
    }
}

/// Possible values of the field `BWRRDY`
#[allow(non_camel_case_types)]
#[derive(Clone, Copy, Debug, PartialEq, Eq, Structural)]
pub enum BWRRDYR {
    /// Masked
    MASKED,
    /// Enabled
    ENABLED,
}

impl BWRRDYR {
    /// Returns `true` if the bit is clear (0)
    pub fn bit_is_clear(&self) -> (clear: bool)
        ensures
            clear <==> self is MASKED,
    {
        !self.bit()
    }

    /// Returns `true` if the bit is set (1)
    pub fn bit_is_set(&self) -> (set: bool)
        ensures
            set <==> self is ENABLED,
    {
        self.bit()
    }

    /// Value of the field as raw bits
    pub fn bit(&self) -> (bit: bool)
        ensures
            bit <==> self is ENABLED,
    {
        match *self {
            BWRRDYR::MASKED => false,
            BWRRDYR::ENABLED => true,
        }
    }

    /// The value of the field that the raw bit `value` stands for.
    pub fn _from(value: bool) -> (field: BWRRDYR)
        ensures
            field is ENABLED <==> value,
    {
        match value {
            false => BWRRDYR::MASKED,
            true => BWRRDYR::ENABLED,
        }
    }

    /// Checks if the value of the field is `MASKED`
    pub fn is_masked(&self) -> (masked: bool)
        ensures
            masked <==> self is MASKED,
    {
        *self == BWRRDYR::MASKED
    }

    /// Checks if the value of the field is `ENABLED`
    pub fn is_enabled(&self) -> (enabled: bool)
        ensures
            enabled <==> self is ENABLED,
    {
        *self == BWRRDYR::ENABLED
    }
}

/// Possible values of the field `BRDRDY`
#[allow(non_camel_case_types)]
#[derive(Clone, Copy, Debug, PartialEq, Eq, Structural)]
pub enum BRDRDYR {
    /// Masked
    MASKED,
    /// Enabled
    ENABLED,
}

impl BRDRDYR {
    /// Returns `true` if the bit is clear (0)
    pub fn bit_is_clear(&self) -> (clear: bool)
        ensures
            clear <==> self is MASKED,
    {
        !self.bit()
    }

    /// Returns `true` if the bit is set (1)
    pub fn bit_is_set(&self) -> (set: bool)
        ensures
            set <==> self is ENABLED,
    {
        self.bit()
    }

    /// Value of the field as raw bits
    pub fn bit(&self) -> (bit: bool)
        ensures
            bit <==> self is ENABLED,
    {
        match *self {
            BRDRDYR::MASKED => false,
            BRDRDYR::ENABLED => true,
        }
    }

    /// The value of the field that the raw bit `value` stands for.
    pub fn _from(value: bool) -> (field: BRDRDYR)
        ensures
            field is ENABLED <==> value,
    {
        match value {
            false => BRDRDYR::MASKED,
            true => BRDRDYR::ENABLED,
        }
    }

    /// Checks if the value of the field is `MASKED`
    pub fn is_masked(&self) -> (masked: bool)
        ensures
            masked <==> self is MASKED,
    {
        *self == BRDRDYR::MASKED
    }

    /// Checks if the value of the field is `ENABLED`
    pub fn is_enabled(&self) -> (enabled: bool)
        ensures
            enabled <==> self is ENABLED,
    {
        *self == BRDRDYR::ENABLED
    }
}

/// Possible values of the field `CINS`
#[allow(non_camel_case_types)]
#[derive(Clone, Copy, Debug, PartialEq, Eq, Structural)]
pub enum CINSR {
    /// Masked
    MASKED,
    /// Enabled
    ENABLED,
}

impl CINSR {
    /// Returns `true` if the bit is clear (0)
    pub fn bit_is_clear(&self) -> (clear: bool)
        ensures
            clear <==> self is MASKED,
    {
        !self.bit()
    }

    /// Returns `true` if the bit is set (1)
    pub fn bit_is_set(&self) -> (set: bool)
        ensures
            set <==> self is ENABLED,
    {
        self.bit()
    }

    /// Value of the field as raw bits
    pub fn bit(&self) -> (bit: bool)
        ensures
            bit <==> self is ENABLED,
    {
        match *self {
            CINSR::MASKED => false,
            CINSR::ENABLED => true,
        }
    }

    /// The value of the field that the raw bit `value` stands for.
    pub fn _from(value: bool) -> (field: CINSR)
        ensures
            field is ENABLED <==> value,
    {
        match value {
            false => CINSR::MASKED,
            true => CINSR::ENABLED,
        }
    }

    /// Checks if the value of the field is `MASKED`
    pub fn is_masked(&self) -> (masked: bool)
        ensures
            masked <==> self is MASKED,
    {
        *self == CINSR::MASKED
    }

    /// Checks if the value of the field is `ENABLED`
    pub fn is_enabled(&self) -> (enabled: bool)
        ensures
            enabled <==> self is ENABLED,
    {
        *self == CINSR::ENABLED
    }
}

/// Possible values of the field `CREM`
#[allow(non_camel_case_types)]
#[derive(Clone, Copy, Debug, PartialEq, Eq, Structural)]
pub enum CREMR {
    /// Masked
    MASKED,
    /// Enabled
    ENABLED,
}

impl CREMR {
    /// Returns `true` if the bit is clear (0)
    pub fn bit_is_clear(&self) -> (clear: bool)
        ensures
            clear <==> self is MASKED,
    {
        !self.bit()
    }

    /// Returns `true` if the bit is set (1)
    pub fn bit_is_set(&self) -> (set: bool)
        ensures
            set <==> self is ENABLED,
    {
        self.bit()
    }

    /// Value of the field as raw bits
    pub fn bit(&self) -> (bit: bool)
        ensures
            bit <==> self is ENABLED,
    {
        match *self {
            CREMR::MASKED => false,
            CREMR::ENABLED => true,
        }
    }

    /// The value of the field that the raw bit `value` stands for.
    pub fn _from(value: bool) -> (field: CREMR)
        ensures
            field is ENABLED <==> value,
    {
        match value {
            false => CREMR::MASKED,
            true => CREMR::ENABLED,
        }
    }

    /// Checks if the value of the field is `MASKED`
    pub fn is_masked(&self) -> (masked: bool)
        ensures
            masked <==> self is MASKED,
    {
        *self == CREMR::MASKED
    }

    /// Checks if the value of the field is `ENABLED`
    pub fn is_enabled(&self) -> (enabled: bool)
        ensures
            enabled <==> self is ENABLED,
    {
        *self == CREMR::ENABLED
    }
}

/// Possible values of the field `CINT`
#[allow(non_camel_case_types)]
#[derive(Clone, Copy, Debug, PartialEq, Eq, Structural)]
pub enum CINTR {
    /// Masked
    MASKED,
    /// Enabled
    ENABLED,
}

impl CINTR {
    /// Returns `true` if the bit is clear (0)
    pub fn bit_is_clear(&self) -> (clear: bool)
        ensures
            clear <==> self is MASKED,
    {
        !self.bit()
    }

    /// Returns `true` if the bit is set (1)
    pub fn bit_is_set(&self) -> (set: bool)
        ensures
            set <==> self is ENABLED,
    {
        self.bit()
    }

    /// Value of the field as raw bits
    pub fn bit(&self) -> (bit: bool)
        ensures
            bit <==> self is ENABLED,
    {
        match *self {
            CINTR::MASKED => false,
            CINTR::ENABLED => true,
        }
    }

    /// The value of the field that the raw bit `value` stands for.
    pub fn _from(value: bool) -> (field: CINTR)
        ensures
            field is ENABLED <==> value,
    {
        match value {
            false => CINTR::MASKED,
            true => CINTR::ENABLED,
        }
    }

    /// Checks if the value of the field is `MASKED`
    pub fn is_masked(&self) -> (masked: bool)
        ensures
            masked <==> self is MASKED,
    {
        *self == CINTR::MASKED
    }

    /// Checks if the value of the field is `ENABLED`
    pub fn is_enabled(&self) -> (enabled: bool)
        ensures
            enabled <==> self is ENABLED,
    {
        *self == CINTR::ENABLED
    }
}

/// Values that can be written to the field `CMDC`
#[allow(non_camel_case_types)]
pub enum CMDCW {
    /// Masked
    MASKED,
    /// Enabled
    ENABLED,
}

impl CMDCW {
    /// The raw bit that stands for the value.
    pub fn _bits(&self) -> (bit: bool)
        ensures
            bit <==> self is ENABLED,
    {
        match *self {
            CMDCW::MASKED => false,
            CMDCW::ENABLED => true,
        }
    }
}

/// Proxy
#[allow(non_camel_case_types)]
pub struct _CMDCW<'a> {
    /// The value that the proxy writes to.
    pub w: &'a mut W,
}

impl<'a> _CMDCW<'a> {
    /// Writes `variant` to the field
    pub fn variant(self, variant: CMDCW) -> (w: &'a mut W)
        ensures
            w@ == with_bit(old(self.w)@, 0, variant is ENABLED),
            *final(w) == *final(self.w),
    {
        self.bit(variant._bits())
    }

    /// Masked
    pub fn masked(self) -> (w: &'a mut W)
        ensures
            w@ == with_bit(old(self.w)@, 0, false),
            *final(w) == *final(self.w),
    {
        self.variant(CMDCW::MASKED)
    }

    /// Enabled
    pub fn enabled(self) -> (w: &'a mut W)
        ensures
            w@ == with_bit(old(self.w)@, 0, true),
            *final(w) == *final(self.w),
    {
        self.variant(CMDCW::ENABLED)
    }

    /// Sets the field bit
    pub fn set_bit(self) -> (w: &'a mut W)
        ensures
            w@ == with_bit(old(self.w)@, 0, true),
            *final(w) == *final(self.w),
    {
        self.bit(true)
    }

    /// Clears the field bit
    pub fn clear_bit(self) -> (w: &'a mut W)
        ensures
            w@ == with_bit(old(self.w)@, 0, false),
            *final(w) == *final(self.w),
    {
        self.bit(false)
    }

    /// Writes raw bits to the field
    pub fn bit(self, value: bool) -> (w: &'a mut W)
        ensures
            w@ == with_bit(old(self.w)@, 0, value),
            *final(w) == *final(self.w),
    {
        let w = self.w;
        write_bit(w, 0, value);
        w
    }
}

/// Values that can be written to the field `TRFC`
#[allow(non_camel_case_types)]
pub enum TRFCW {
    /// Masked
    MASKED,
    /// Enabled
    ENABLED,
}

impl TRFCW {
    /// The raw bit that stands for the value.
    pub fn _bits(&self) -> (bit: bool)
        ensures
            bit <==> self is ENABLED,
    {
        match *self {
            TRFCW::MASKED => false,
            TRFCW::ENABLED => true,
        }
    }
}

/// Proxy
#[allow(non_camel_case_types)]
pub struct _TRFCW<'a> {
    /// The value that the proxy writes to.
    pub w: &'a mut W,
}

impl<'a> _TRFCW<'a> {
    /// Writes `variant` to the field
    pub fn variant(self, variant: TRFCW) -> (w: &'a mut W)
        ensures
            w@ == with_bit(old(self.w)@, 1, variant is ENABLED),
            *final(w) == *final(self.w),
    {
        self.bit(variant._bits())
    }

    /// Masked
    pub fn masked(self) -> (w: &'a mut W)
        ensures
            w@ == with_bit(old(self.w)@, 1, false),
            *final(w) == *final(self.w),
    {
        self.variant(TRFCW::MASKED)
    }

    /// Enabled
    pub fn enabled(self) -> (w: &'a mut W)
        ensures
            w@ == with_bit(old(self.w)@, 1, true),
            *final(w) == *final(self.w),
    {
        self.variant(TRFCW::ENABLED)
    }

    /// Sets the field bit
    pub fn set_bit(self) -> (w: &'a mut W)
        ensures
            w@ == with_bit(old(self.w)@, 1, true),
            *final(w) == *final(self.w),
    {
        self.bit(true)
    }

    /// Clears the field bit
    pub fn clear_bit(self) -> (w: &'a mut W)
        ensures
            w@ == with_bit(old(self.w)@, 1, false),
            *final(w) == *final(self.w),
    {
        self.bit(false)
    }

    /// Writes raw bits to the field
    pub fn bit(self, value: bool) -> (w: &'a mut W)
        ensures
            w@ == with_bit(old(self.w)@, 1, value),
            *final(w) == *final(self.w),
    {
        let w = self.w;
        write_bit(w, 1, value);
        w
    }
}

/// Values that can be written to the field `BLKGE`
#[allow(non_camel_case_types)]
pub enum BLKGEW {
    /// Masked
    MASKED,
    /// Enabled
    ENABLED,
}

impl BLKGEW {
    /// The raw bit that stands for the value.
    pub fn _bits(&self) -> (bit: bool)
        ensures
            bit <==> self is ENABLED,
    {
        match *self {
            BLKGEW::MASKED => false,
            BLKGEW::ENABLED => true,
        }
    }
}

/// Proxy
#[allow(non_camel_case_types)]
pub struct _BLKGEW<'a> {
    /// The value that the proxy writes to.
    pub w: &'a mut W,
}

impl<'a> _BLKGEW<'a> {
    /// Writes `variant` to the field
    pub fn variant(self, variant: BLKGEW) -> (w: &'a mut W)
        ensures
            w@ == with_bit(old(self.w)@, 2, variant is ENABLED),
            *final(w) == *final(self.w),
    {
        self.bit(variant._bits())
    }

    /// Masked
    pub fn masked(self) -> (w: &'a mut W)
        ensures
            w@ == with_bit(old(self.w)@, 2, false),
            *final(w) == *final(self.w),
    {
        self.variant(BLKGEW::MASKED)
    }

    /// Enabled
    pub fn enabled(self) -> (w: &'a mut W)
        ensures
            w@ == with_bit(old(self.w)@, 2, true),
            *final(w) == *final(self.w),
    {
        self.variant(BLKGEW::ENABLED)
    }

    /// Sets the field bit
    pub fn set_bit(self) -> (w: &'a mut W)
        ensures
            w@ == with_bit(old(self.w)@, 2, true),
            *final(w) == *final(self.w),
    {
        self.bit(true)
    }

    /// Clears the field bit
    pub fn clear_bit(self) -> (w: &'a mut W)
        ensures
            w@ == with_bit(old(self.w)@, 2, false),
            *final(w) == *final(self.w),
    {
        self.bit(false)
    }

    /// Writes raw bits to the field
    pub fn bit(self, value: bool) -> (w: &'a mut W)
        ensures
            w@ == with_bit(old(self.w)@, 2, value),
            *final(w) == *final(self.w),
    {
        let w = self.w;
        write_bit(w, 2, value);
        w
    }
}

/// Values that can be written to the field `DMAINT`
#[allow(non_camel_case_types)]
pub enum DMAINTW {
    /// Masked
    MASKED,
    /// Enabled
    ENABLED,
}

impl DMAINTW {
    /// The raw bit that stands for the value.
    pub fn _bits(&self) -> (bit: bool)
        ensures
            bit <==> self is ENABLED,
    {
        match *self {
            DMAINTW::MASKED => false,
            DMAINTW::ENABLED => true,
        }
    }
}

/// Proxy
#[allow(non_camel_case_types)]
pub struct _DMAINTW<'a> {
    /// The value that the proxy writes to.
    pub w: &'a mut W,
}

impl<'a> _DMAINTW<'a> {
    /// Writes `variant` to the field
    pub fn variant(self, variant: DMAINTW) -> (w: &'a mut W)
        ensures
            w@ == with_bit(old(self.w)@, 3, variant is ENABLED),
            *final(w) == *final(self.w),
    {
        self.bit(variant._bits())
    }

    /// Masked
    pub fn masked(self) -> (w: &'a mut W)
        ensures
            w@ == with_bit(old(self.w)@, 3, false),
            *final(w) == *final(self.w),
    {
        self.variant(DMAINTW::MASKED)
    }

    /// Enabled
    pub fn enabled(self) -> (w: &'a mut W)
        ensures
            w@ == with_bit(old(self.w)@, 3, true),
            *final(w) == *final(self.w),
    {
        self.variant(DMAINTW::ENABLED)
    }

    /// Sets the field bit
    pub fn set_bit(self) -> (w: &'a mut W)
        ensures
            w@ == with_bit(old(self.w)@, 3, true),
            *final(w) == *final(self.w),
    {
        self.bit(true)
    }

    /// Clears the field bit
    pub fn clear_bit(self) -> (w: &'a mut W)
        ensures
            w@ == with_bit(old(self.w)@, 3, false),
            *final(w) == *final(self.w),
    {
        self.bit(false)
    }

    /// Writes raw bits to the field
    pub fn bit(self, value: bool) -> (w: &'a mut W)
        ensures
            w@ == with_bit(old(self.w)@, 3, value),
            *final(w) == *final(self.w),
    {
        let w = self.w;
        write_bit(w, 3, value);
        w
    }
}

/// Values that can be written to the field `BWRRDY`
#[allow(non_camel_case_types)]
pub enum BWRRDYW {
    /// Masked
    MASKED,
    /// Enabled
    ENABLED,
}

impl BWRRDYW {
    /// The raw bit that stands for the value.
    pub fn _bits(&self) -> (bit: bool)
        ensures
            bit <==> self is ENABLED,
    {
        match *self {
            BWRRDYW::MASKED => false,
            BWRRDYW::ENABLED => true,
        }
    }
}

/// Proxy
#[allow(non_camel_case_types)]
pub struct _BWRRDYW<'a> {
    /// The value that the proxy writes to.
    pub w: &'a mut W,
}

impl<'a> _BWRRDYW<'a> {
    /// Writes `variant` to the field
    pub fn variant(self, variant: BWRRDYW) -> (w: &'a mut W)
        ensures
            w@ == with_bit(old(self.w)@, 4, variant is ENABLED),
            *final(w) == *final(self.w),
    {
        self.bit(variant._bits())
    }

    /// Masked
    pub fn masked(self) -> (w: &'a mut W)
        ensures
            w@ == with_bit(old(self.w)@, 4, false),
            *final(w) == *final(self.w),
    {
        self.variant(BWRRDYW::MASKED)
    }

    /// Enabled
    pub fn enabled(self) -> (w: &'a mut W)
        ensures
            w@ == with_bit(old(self.w)@, 4, true),
            *final(w) == *final(self.w),
    {
        self.variant(BWRRDYW::ENABLED)
    }

    /// Sets the field bit
    pub fn set_bit(self) -> (w: &'a mut W)
        ensures
            w@ == with_bit(old(self.w)@, 4, true),
            *final(w) == *final(self.w),
    {
        self.bit(true)
    }

    /// Clears the field bit
    pub fn clear_bit(self) -> (w: &'a mut W)
        ensures
            w@ == with_bit(old(self.w)@, 4, false),
            *final(w) == *final(self.w),
    {
        self.bit(false)
    }

    /// Writes raw bits to the field
    pub fn bit(self, value: bool) -> (w: &'a mut W)
        ensures
            w@ == with_bit(old(self.w)@, 4, value),
            *final(w) == *final(self.w),
    {
        let w = self.w;
        write_bit(w, 4, value);
        w
    }
}

/// Values that can be written to the field `BRDRDY`
#[allow(non_camel_case_types)]
pub enum BRDRDYW {
    /// Masked
    MASKED,
    /// Enabled
    ENABLED,
}

impl BRDRDYW {
    /// The raw bit that stands for the value.
    pub fn _bits(&self) -> (bit: bool)
        ensures
            bit <==> self is ENABLED,
    {
        match *self {
            BRDRDYW::MASKED => false,
            BRDRDYW::ENABLED => true,
        }
    }
}

/// Proxy
#[allow(non_camel_case_types)]
pub struct _BRDRDYW<'a> {
    /// The value that the proxy writes to.
    pub w: &'a mut W,
}

impl<'a> _BRDRDYW<'a> {
    /// Writes `variant` to the field
    pub fn variant(self, variant: BRDRDYW) -> (w: &'a mut W)
        ensures
            w@ == with_bit(old(self.w)@, 5, variant is ENABLED),
            *final(w) == *final(self.w),
    {
        self.bit(variant._bits())
    }

    /// Masked
    pub fn masked(self) -> (w: &'a mut W)
        ensures
            w@ == with_bit(old(self.w)@, 5, false),
            *final(w) == *final(self.w),
    {
        self.variant(BRDRDYW::MASKED)
    }

    /// Enabled
    pub fn enabled(self) -> (w: &'a mut W)
        ensures
            w@ == with_bit(old(self.w)@, 5, true),
            *final(w) == *final(self.w),
    {
        self.variant(BRDRDYW::ENABLED)
    }

    /// Sets the field bit
    pub fn set_bit(self) -> (w: &'a mut W)
        ensures
            w@ == with_bit(old(self.w)@, 5, true),
            *final(w) == *final(self.w),
    {
        self.bit(true)
    }

    /// Clears the field bit
    pub fn clear_bit(self) -> (w: &'a mut W)
        ensures
            w@ == with_bit(old(self.w)@, 5, false),
            *final(w) == *final(self.w),
    {
        self.bit(false)
    }

    /// Writes raw bits to the field
    pub fn bit(self, value: bool) -> (w: &'a mut W)
        ensures
            w@ == with_bit(old(self.w)@, 5, value),
            *final(w) == *final(self.w),
    {
        let w = self.w;
        write_bit(w, 5, value);
        w
    }
}

/// Values that can be written to the field `CINS`
#[allow(non_camel_case_types)]
pub enum CINSW {
    /// Masked
    MASKED,
    /// Enabled
    ENABLED,
}

impl CINSW {
    /// The raw bit that stands for the value.
    pub fn _bits(&self) -> (bit: bool)
        ensures
            bit <==> self is ENABLED,
    {
        match *self {
            CINSW::MASKED => false,
            CINSW::ENABLED => true,
        }
    }
}

/// Proxy
#[allow(non_camel_case_types)]
pub struct _CINSW<'a> {
    /// The value that the proxy writes to.
    pub w: &'a mut W,
}

impl<'a> _CINSW<'a> {
    /// Writes `variant` to the field
    pub fn variant(self, variant: CINSW) -> (w: &'a mut W)
        ensures
            w@ == with_bit(old(self.w)@, 6, variant is ENABLED),
            *final(w) == *final(self.w),
    {
        self.bit(variant._bits())
    }

    /// Masked
    pub fn masked(self) -> (w: &'a mut W)
        ensures
            w@ == with_bit(old(self.w)@, 6, false),
            *final(w) == *final(self.w),
    {
        self.variant(CINSW::MASKED)
    }

    /// Enabled
    pub fn enabled(self) -> (w: &'a mut W)
        ensures
            w@ == with_bit(old(self.w)@, 6, true),
            *final(w) == *final(self.w),
    {
        self.variant(CINSW::ENABLED)
    }

    /// Sets the field bit
    pub fn set_bit(self) -> (w: &'a mut W)
        ensures
            w@ == with_bit(old(self.w)@, 6, true),
            *final(w) == *final(self.w),
    {
        self.bit(true)
    }

    /// Clears the field bit
    pub fn clear_bit(self) -> (w: &'a mut W)
        ensures
            w@ == with_bit(old(self.w)@, 6, false),
            *final(w) == *final(self.w),
    {
        self.bit(false)
    }

    /// Writes raw bits to the field
    pub fn bit(self, value: bool) -> (w: &'a mut W)
        ensures
            w@ == with_bit(old(self.w)@, 6, value),
            *final(w) == *final(self.w),
    {
        let w = self.w;
        write_bit(w, 6, value);
        w
    }
}

/// Values that can be written to the field `CREM`
#[allow(non_camel_case_types)]
pub enum CREMW {
    /// Masked
    MASKED,
    /// Enabled
    ENABLED,
}

impl CREMW {
    /// The raw bit that stands for the value.
    pub fn _bits(&self) -> (bit: bool)
        ensures
            bit <==> self is ENABLED,
    {
        match *self {
            CREMW::MASKED => false,
            CREMW::ENABLED => true,
        }
    }
}

/// Proxy
#[allow(non_camel_case_types)]
pub struct _CREMW<'a> {
    /// The value that the proxy writes to.
    pub w: &'a mut W,
}

impl<'a> _CREMW<'a> {
    /// Writes `variant` to the field
    pub fn variant(self, variant: CREMW) -> (w: &'a mut W)
        ensures
            w@ == with_bit(old(self.w)@, 7, variant is ENABLED),
            *final(w) == *final(self.w),
    {
        self.bit(variant._bits())
    }

    /// Masked
    pub fn masked(self) -> (w: &'a mut W)
        ensures
            w@ == with_bit(old(self.w)@, 7, false),
            *final(w) == *final(self.w),
    {
        self.variant(CREMW::MASKED)
    }

    /// Enabled
    pub fn enabled(self) -> (w: &'a mut W)
        ensures
            w@ == with_bit(old(self.w)@, 7, true),
            *final(w) == *final(self.w),
    {
        self.variant(CREMW::ENABLED)
    }

    /// Sets the field bit
    pub fn set_bit(self) -> (w: &'a mut W)
        ensures
            w@ == with_bit(old(self.w)@, 7, true),
            *final(w) == *final(self.w),
    {
        self.bit(true)
    }

    /// Clears the field bit
    pub fn clear_bit(self) -> (w: &'a mut W)
        ensures
            w@ == with_bit(old(self.w)@, 7, false),
            *final(w) == *final(self.w),
    {
        self.bit(false)
    }

    /// Writes raw bits to the field
    pub fn bit(self, value: bool) -> (w: &'a mut W)
        ensures
            w@ == with_bit(old(self.w)@, 7, value),
            *final(w) == *final(self.w),
    {
        let w = self.w;
        write_bit(w, 7, value);
        w
    }
}

/// Values that can be written to the field `CINT`
#[allow(non_camel_case_types)]
pub enum CINTW {
    /// Masked
    MASKED,
    /// Enabled
    ENABLED,
}

impl CINTW {
    /// The raw bit that stands for the value.
    pub fn _bits(&self) -> (bit: bool)
        ensures
            bit <==> self is ENABLED,
    {
        match *self {
            CINTW::MASKED => false,
            CINTW::ENABLED => true,
        }
    }
}

/// Proxy
#[allow(non_camel_case_types)]
pub struct _CINTW<'a> {
    /// The value that the proxy writes to.
    pub w: &'a mut W,
}

impl<'a> _CINTW<'a> {
    /// Writes `variant` to the field
    pub fn variant(self, variant: CINTW) -> (w: &'a mut W)
        ensures
            w@ == with_bit(old(self.w)@, 8, variant is ENABLED),
            *final(w) == *final(self.w),
    {
        self.bit(variant._bits())
    }

    /// Masked
    pub fn masked(self) -> (w: &'a mut W)
        ensures
            w@ == with_bit(old(self.w)@, 8, false),
            *final(w) == *final(self.w),
    {
        self.variant(CINTW::MASKED)
    }

    /// Enabled
    pub fn enabled(self) -> (w: &'a mut W)
        ensures
            w@ == with_bit(old(self.w)@, 8, true),
            *final(w) == *final(self.w),
    {
        self.variant(CINTW::ENABLED)
    }

    /// Sets the field bit
    pub fn set_bit(self) -> (w: &'a mut W)
        ensures
            w@ == with_bit(old(self.w)@, 8, true),
            *final(w) == *final(self.w),
    {
        self.bit(true)
    }

    /// Clears the field bit
    pub fn clear_bit(self) -> (w: &'a mut W)
        ensures
            w@ == with_bit(old(self.w)@, 8, false),
            *final(w) == *final(self.w),
    {
        self.bit(false)
    }

    /// Writes raw bits to the field
    pub fn bit(self, value: bool) -> (w: &'a mut W)
        ensures
            w@ == with_bit(old(self.w)@, 8, value),
            *final(w) == *final(self.w),
    {
        let w = self.w;
        write_bit(w, 8, value);
        w
    }
}

impl R {
    /// Value of the register as raw bits
    pub fn bits(&self) -> (bits: u16)
        ensures
            bits == self@,
    {
        self.bits
    }

    /// Bit 0 - Command Complete Signal Enable
    pub fn cmdc(&self) -> (field: CMDCR)
        ensures
            field is ENABLED <==> bit_set(self@, 0),
    {
        CMDCR::_from(read_bit(self.bits, 0))
    }

    /// Bit 1 - Transfer Complete Signal Enable
    pub fn trfc(&self) -> (field: TRFCR)
        ensures
            field is ENABLED <==> bit_set(self@, 1),
    {
        TRFCR::_from(read_bit(self.bits, 1))
    }

    /// Bit 2 - Block Gap Event Signal Enable
    pub fn blkge(&self) -> (field: BLKGER)
        ensures
            field is ENABLED <==> bit_set(self@, 2),
    {
        BLKGER::_from(read_bit(self.bits, 2))
    }

    /// Bit 3 - DMA Interrupt Signal Enable
    pub fn dmaint(&self) -> (field: DMAINTR)
        ensures
            field is ENABLED <==> bit_set(self@, 3),
    {
        DMAINTR::_from(read_bit(self.bits, 3))
    }

    /// Bit 4 - Buffer Write Ready Signal Enable
    pub fn bwrrdy(&self) -> (field: BWRRDYR)
        ensures
            field is ENABLED <==> bit_set(self@, 4),
    {
        BWRRDYR::_from(read_bit(self.bits, 4))
    }

    /// Bit 5 - Buffer Read Ready Signal Enable
    pub fn brdrdy(&self) -> (field: BRDRDYR)
        ensures
            field is ENABLED <==> bit_set(self@, 5),
    {
        BRDRDYR::_from(read_bit(self.bits, 5))
    }

    /// Bit 6 - Card Insertion Signal Enable
    pub fn cins(&self) -> (field: CINSR)
        ensures
            field is ENABLED <==> bit_set(self@, 6),
    {
        CINSR::_from(read_bit(self.bits, 6))
    }

    /// Bit 7 - Card Removal Signal Enable
    pub fn crem(&self) -> (field: CREMR)
        ensures
            field is ENABLED <==> bit_set(self@, 7),
    {
        CREMR::_from(read_bit(self.bits, 7))
    }

    /// Bit 8 - Card Interrupt Signal Enable
    pub fn cint(&self) -> (field: CINTR)
        ensures
            field is ENABLED <==> bit_set(self@, 8),
    {
        CINTR::_from(read_bit(self.bits, 8))
    }
}

impl W {
    /// Reset value of the register
    pub fn reset_value() -> (w: W)
        ensures
            w@ == 0,
    {
        W { bits: 0 }
    }

    /// The value that `f` makes of the reset value: what [`NISIER::write`]
    /// stores.
    pub fn written<F>(f: F) -> (w: W) where F: FnOnce(&mut W) -> &mut W
        requires
            forall|start: &mut W| start@ == 0 ==> f.requires((start,)),
        ensures
            exists|start: &mut W, out: &mut W|
                start@ == 0 && f.ensures((start,), out) && *final(out) == *out && *final(start)
                    == w,
    {
        let mut w = W::reset_value();
        f(&mut w);
        w
    }

    /// The value that `f` makes of what was read as `bits`: what
    /// [`NISIER::modify`] stores.
    pub fn modified<F>(bits: u16, f: F) -> (w: W) where
        for<'w> F: FnOnce(&R, &'w mut W) -> &'w mut W,
        requires
            forall|r: &R, start: &mut W| r@ == bits && start@ == bits ==> f.requires((r, start)),
        ensures
            exists|r: &R, start: &mut W, out: &mut W|
                r@ == bits && start@ == bits && f.ensures((r, start), out) && *final(out) == *out
                    && *final(start) == w,
    {
        let r = R { bits };
        let mut w = W { bits };
        f(&r, &mut w);
        w
    }

    /// Writes raw bits to the register
    pub fn bits(&mut self, bits: u16) -> (w: &mut Self)
        ensures
            w@ == bits,
            *final(w) == *final(self),
    {
        self.bits = bits;
        self
    }

    /// Bit 0 - Command Complete Signal Enable
    pub fn cmdc(&mut self) -> (field: _CMDCW<'_>)
        ensures
            *field.w == *old(self),
            *final(field.w) == *final(self),
    {
        _CMDCW { w: self }
    }

    /// Bit 1 - Transfer Complete Signal Enable
    pub fn trfc(&mut self) -> (field: _TRFCW<'_>)
        ensures
            *field.w == *old(self),
            *final(field.w) == *final(self),
    {
        _TRFCW { w: self }
    }

    /// Bit 2 - Block Gap Event Signal Enable
    pub fn blkge(&mut self) -> (field: _BLKGEW<'_>)
        ensures
            *field.w == *old(self),
            *final(field.w) == *final(self),
    {
        _BLKGEW { w: self }
    }

    /// Bit 3 - DMA Interrupt Signal Enable
    pub fn dmaint(&mut self) -> (field: _DMAINTW<'_>)
        ensures
            *field.w == *old(self),
            *final(field.w) == *final(self),
    {
        _DMAINTW { w: self }
    }

    /// Bit 4 - Buffer Write Ready Signal Enable
    pub fn bwrrdy(&mut self) -> (field: _BWRRDYW<'_>)
        ensures
            *field.w == *old(self),
            *final(field.w) == *final(self),
    {
        _BWRRDYW { w: self }
    }

    /// Bit 5 - Buffer Read Ready Signal Enable
    pub fn brdrdy(&mut self) -> (field: _BRDRDYW<'_>)
        ensures
            *field.w == *old(self),
            *final(field.w) == *final(self),
    {
        _BRDRDYW { w: self }
    }

    /// Bit 6 - Card Insertion Signal Enable
    pub fn cins(&mut self) -> (field: _CINSW<'_>)
        ensures
            *field.w == *old(self),
            *final(field.w) == *final(self),
    {
        _CINSW { w: self }
    }

    /// Bit 7 - Card Removal Signal Enable
    pub fn crem(&mut self) -> (field: _CREMW<'_>)
        ensures
            *field.w == *old(self),
            *final(field.w) == *final(self),
    {
        _CREMW { w: self }
    }

    /// Bit 8 - Card Interrupt Signal Enable
    pub fn cint(&mut self) -> (field: _CINTW<'_>)
        ensures
            *field.w == *old(self),
            *final(field.w) == *final(self),
    {
        _CINTW { w: self }
    }
}

} // verus!
