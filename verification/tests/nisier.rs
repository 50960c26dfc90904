use atsamd_regs::sdhc0::nisier::{
    BLKGER, BLKGEW, BRDRDYR, BRDRDYW, BWRRDYR, BWRRDYW, CINSR, CINSW, CINTR, CINTW, CMDCR, CMDCW,
    CREMR, CREMW, DMAINTR, DMAINTW, TRFCR, TRFCW, W,
};
use atsamd_regs::sdhc0::NISIER;

#[test]
fn read_returns_what_the_cell_holds() {
    assert_eq!(NISIER::new(0).read().bits(), 0);
    assert_eq!(NISIER::new(0x01ff).read().bits(), 0x01ff);
    assert_eq!(NISIER::new(0xa5a5).read().bits(), 0xa5a5);
}

#[test]
fn each_field_reads_its_own_bit() {
    for bit in 0..9u16 {
        let r = NISIER::new(1 << bit).read();
        assert_eq!(r.cmdc().bit(), bit == 0);
        assert_eq!(r.trfc().bit(), bit == 1);
        assert_eq!(r.blkge().bit(), bit == 2);
        assert_eq!(r.dmaint().bit(), bit == 3);
        assert_eq!(r.bwrrdy().bit(), bit == 4);
        assert_eq!(r.brdrdy().bit(), bit == 5);
        assert_eq!(r.cins().bit(), bit == 6);
        assert_eq!(r.crem().bit(), bit == 7);
        assert_eq!(r.cint().bit(), bit == 8);
    }
}

#[test]
fn fields_of_an_empty_register_are_masked() {
    let r = NISIER::new(0).read();
    assert_eq!(r.cmdc(), CMDCR::MASKED);
    assert_eq!(r.trfc(), TRFCR::MASKED);
    assert_eq!(r.blkge(), BLKGER::MASKED);
    assert_eq!(r.dmaint(), DMAINTR::MASKED);
    assert_eq!(r.bwrrdy(), BWRRDYR::MASKED);
    assert_eq!(r.brdrdy(), BRDRDYR::MASKED);
    assert_eq!(r.cins(), CINSR::MASKED);
    assert_eq!(r.crem(), CREMR::MASKED);
    assert_eq!(r.cint(), CINTR::MASKED);
}

#[test]
fn fields_of_a_full_register_are_enabled() {
    let r = NISIER::new(0x01ff).read();
    assert_eq!(r.cmdc(), CMDCR::ENABLED);
    assert_eq!(r.trfc(), TRFCR::ENABLED);
    assert_eq!(r.blkge(), BLKGER::ENABLED);
    assert_eq!(r.dmaint(), DMAINTR::ENABLED);
    assert_eq!(r.bwrrdy(), BWRRDYR::ENABLED);
    assert_eq!(r.brdrdy(), BRDRDYR::ENABLED);
    assert_eq!(r.cins(), CINSR::ENABLED);
    assert_eq!(r.crem(), CREMR::ENABLED);
    assert_eq!(r.cint(), CINTR::ENABLED);
}

#[test]
fn reserved_bits_belong_to_no_field() {
    let r = NISIER::new(0xfe00).read();
    assert!(r.cmdc().is_masked());
    assert!(r.trfc().is_masked());
    assert!(r.blkge().is_masked());
    assert!(r.dmaint().is_masked());
    assert!(r.bwrrdy().is_masked());
    assert!(r.brdrdy().is_masked());
    assert!(r.cins().is_masked());
    assert!(r.crem().is_masked());
    assert!(r.cint().is_masked());
    assert_eq!(r.bits(), 0xfe00);
}

#[test]
fn a_read_field_answers_for_its_value() {
    for (field, enabled) in [(CMDCR::MASKED, false), (CMDCR::ENABLED, true)] {
        assert_eq!(field.bit(), enabled);
        assert_eq!(field.bit_is_set(), enabled);
        assert_eq!(field.bit_is_clear(), !enabled);
        assert_eq!(field.is_enabled(), enabled);
        assert_eq!(field.is_masked(), !enabled);
    }
    for (field, enabled) in [(CINTR::MASKED, false), (CINTR::ENABLED, true)] {
        assert_eq!(field.bit(), enabled);
        assert_eq!(field.bit_is_set(), enabled);
        assert_eq!(field.bit_is_clear(), !enabled);
        assert_eq!(field.is_enabled(), enabled);
        assert_eq!(field.is_masked(), !enabled);
    }
    for (field, enabled) in [(DMAINTR::MASKED, false), (DMAINTR::ENABLED, true)] {
        assert_eq!(field.bit(), enabled);
        assert_eq!(field.bit_is_set(), enabled);
        assert_eq!(field.bit_is_clear(), !enabled);
        assert_eq!(field.is_enabled(), enabled);
        assert_eq!(field.is_masked(), !enabled);
    }
}

#[test]
fn a_raw_bit_stands_for_a_field_value() {
    assert_eq!(CMDCR::_from(false), CMDCR::MASKED);
    assert_eq!(CMDCR::_from(true), CMDCR::ENABLED);
    assert_eq!(TRFCR::_from(true), TRFCR::ENABLED);
    assert_eq!(BLKGER::_from(false), BLKGER::MASKED);
    assert_eq!(DMAINTR::_from(true), DMAINTR::ENABLED);
    assert_eq!(BWRRDYR::_from(false), BWRRDYR::MASKED);
    assert_eq!(BRDRDYR::_from(true), BRDRDYR::ENABLED);
    assert_eq!(CINSR::_from(false), CINSR::MASKED);
    assert_eq!(CREMR::_from(true), CREMR::ENABLED);
    assert_eq!(CINTR::_from(false), CINTR::MASKED);
}

#[test]
fn a_written_value_stands_for_a_raw_bit() {
    assert!(!CMDCW::MASKED._bits());
    assert!(CMDCW::ENABLED._bits());
    assert!(TRFCW::ENABLED._bits());
    assert!(!BLKGEW::MASKED._bits());
    assert!(DMAINTW::ENABLED._bits());
    assert!(!BWRRDYW::MASKED._bits());
    assert!(BRDRDYW::ENABLED._bits());
    assert!(!CINSW::MASKED._bits());
    assert!(CREMW::ENABLED._bits());
    assert!(!CINTW::MASKED._bits());
}

#[test]
fn reset_value_is_zero() {
    let reg = NISIER::new(0xffff);
    reg.write(|w| w);
    assert_eq!(reg.read().bits(), 0);
}

#[test]
fn write_starts_from_the_reset_value() {
    let reg = NISIER::new(0xffff);
    reg.write(|w| w.cmdc().set_bit());
    assert_eq!(reg.read().bits(), 0x0001);
    reg.write(|w| w.cint().enabled().trfc().enabled());
    assert_eq!(reg.read().bits(), 0x0102);
}

#[test]
fn each_field_writes_its_own_bit() {
    let reg = NISIER::new(0);
    reg.write(|w| w.cmdc().set_bit());
    assert_eq!(reg.read().bits(), 1 << 0);
    reg.write(|w| w.trfc().set_bit());
    assert_eq!(reg.read().bits(), 1 << 1);
    reg.write(|w| w.blkge().set_bit());
    assert_eq!(reg.read().bits(), 1 << 2);
    reg.write(|w| w.dmaint().set_bit());
    assert_eq!(reg.read().bits(), 1 << 3);
    reg.write(|w| w.bwrrdy().set_bit());
    assert_eq!(reg.read().bits(), 1 << 4);
    reg.write(|w| w.brdrdy().set_bit());
    assert_eq!(reg.read().bits(), 1 << 5);
    reg.write(|w| w.cins().set_bit());
    assert_eq!(reg.read().bits(), 1 << 6);
    reg.write(|w| w.crem().set_bit());
    assert_eq!(reg.read().bits(), 1 << 7);
    reg.write(|w| w.cint().set_bit());
    assert_eq!(reg.read().bits(), 1 << 8);
}

#[test]
fn each_field_clears_its_own_bit() {
    let reg = NISIER::new(0);
    let full = |w: &mut W| {
        w.bits(0xffff);
    };
    reg.write(|w| {
        full(w);
        w.cmdc().clear_bit()
    });
    assert_eq!(reg.read().bits(), 0xfffe);
    reg.write(|w| {
        full(w);
        w.trfc().masked()
    });
    assert_eq!(reg.read().bits(), 0xfffd);
    reg.write(|w| {
        full(w);
        w.blkge().bit(false)
    });
    assert_eq!(reg.read().bits(), 0xfffb);
    reg.write(|w| {
        full(w);
        w.dmaint().variant(DMAINTW::MASKED)
    });
    assert_eq!(reg.read().bits(), 0xfff7);
    reg.write(|w| {
        full(w);
        w.bwrrdy().clear_bit()
    });
    assert_eq!(reg.read().bits(), 0xffef);
    reg.write(|w| {
        full(w);
        w.brdrdy().clear_bit()
    });
    assert_eq!(reg.read().bits(), 0xffdf);
    reg.write(|w| {
        full(w);
        w.cins().clear_bit()
    });
    assert_eq!(reg.read().bits(), 0xffbf);
    reg.write(|w| {
        full(w);
        w.crem().clear_bit()
    });
    assert_eq!(reg.read().bits(), 0xff7f);
    reg.write(|w| {
        full(w);
        w.cint().clear_bit()
    });
    assert_eq!(reg.read().bits(), 0xfeff);
}

#[test]
fn the_ways_to_write_a_field_agree() {
    let by_set = NISIER::new(0);
    by_set.write(|w| w.cins().set_bit());
    let by_bit = NISIER::new(0);
    by_bit.write(|w| w.cins().bit(true));
    let by_enabled = NISIER::new(0);
    by_enabled.write(|w| w.cins().enabled());
    let by_variant = NISIER::new(0);
    by_variant.write(|w| w.cins().variant(CINSW::ENABLED));
    assert_eq!(by_set.read().bits(), 0x0040);
    assert_eq!(by_bit.read().bits(), 0x0040);
    assert_eq!(by_enabled.read().bits(), 0x0040);
    assert_eq!(by_variant.read().bits(), 0x0040);
}

#[test]
fn modify_starts_from_what_was_read() {
    let reg = NISIER::new(0x0110);
    reg.modify(|_, w| w.cmdc().set_bit());
    assert_eq!(reg.read().bits(), 0x0111);
    reg.modify(|_, w| w.cint().clear_bit());
    assert_eq!(reg.read().bits(), 0x0011);
    reg.modify(|_, w| w);
    assert_eq!(reg.read().bits(), 0x0011);
}

#[test]
fn modify_hands_the_read_value_to_the_closure() {
    let reg = NISIER::new(0x0002);
    reg.modify(|r, w| {
        let transfer = r.trfc().bit();
        w.crem().bit(transfer).trfc().bit(r.cmdc().bit())
    });
    assert_eq!(reg.read().bits(), 0x0080);
}

#[test]
fn modify_keeps_reserved_bits() {
    let reg = NISIER::new(0xfe00);
    reg.modify(|_, w| w.dmaint().enabled());
    assert_eq!(reg.read().bits(), 0xfe08);
}

#[test]
fn reset_writes_zero() {
    let reg = NISIER::new(0x01ff);
    reg.reset();
    assert_eq!(reg.read().bits(), 0);
}

#[test]
fn raw_bits_replace_the_value() {
    let reg = NISIER::new(0);
    reg.write(|w| w.bits(0x1234));
    assert_eq!(reg.read().bits(), 0x1234);
    reg.write(|w| w.bits(0x1234).bits(0x00ff).cmdc().clear_bit());
    assert_eq!(reg.read().bits(), 0x00fe);
}

#[test]
fn a_value_is_built_outside_a_register_too() {
    let mut w = W::reset_value();
    w.cmdc().set_bit().cint().set_bit().cmdc().clear_bit();
    let built = W::written(|out| out.cint().set_bit().trfc().set_bit());
    let changed = W::modified(0x0003, |r, out| out.cmdc().bit(!r.cmdc().bit()));
    let reg = NISIER::new(0);
    reg.write(move |out| {
        *out = w;
        out
    });
    assert_eq!(reg.read().bits(), 0x0100);
    reg.write(move |out| {
        *out = built;
        out
    });
    assert_eq!(reg.read().bits(), 0x0102);
    reg.write(move |out| {
        *out = changed;
        out
    });
    assert_eq!(reg.read().bits(), 0x0002);
}
