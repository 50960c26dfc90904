use atsamd_regs::dmac::register::samd51::{
    channel, try_channel, ChannelRegisters, CHANNEL_BLOCK_SIZE, CHANNEL_REGISTERS_ADDRESS,
    NUM_CHANNELS,
};
use atsamd_regs::dmac::register::{ReadableRegister, WritableRegister};
use atsamd_regs::dmac::sim::SimBus;

fn addresses(r: &ChannelRegisters) -> [(u32, u32); 8] {
    [
        (r.chctrla.address(), 4),
        (r.chctrlb.address(), 1),
        (r.chprilvl.address(), 1),
        (r.chevctrl.address(), 1),
        (r.chintenclr.address(), 1),
        (r.chintenset.address(), 1),
        (r.chintflag.address(), 1),
        (r.chstatus.address(), 1),
    ]
}

#[test]
fn there_are_thirty_two_channels() {
    assert_eq!(NUM_CHANNELS, 32);
    assert_eq!(CHANNEL_REGISTERS_ADDRESS, 0x4100_a040);
    assert_eq!(CHANNEL_BLOCK_SIZE, 12);
}

#[test]
fn channel_zero_starts_at_the_first_block() {
    let r = channel(0);
    assert_eq!(r.chctrla.address(), 0x4100_a040);
    assert_eq!(r.chctrlb.address(), 0x4100_a044);
    assert_eq!(r.chprilvl.address(), 0x4100_a045);
    assert_eq!(r.chevctrl.address(), 0x4100_a046);
    assert_eq!(r.chintenclr.address(), 0x4100_a048);
    assert_eq!(r.chintenset.address(), 0x4100_a049);
    assert_eq!(r.chintflag.address(), 0x4100_a04a);
    assert_eq!(r.chstatus.address(), 0x4100_a04b);
}

#[test]
fn every_channel_block_lies_at_base_plus_id_times_size() {
    for id in 0..32u8 {
        let r = channel(id);
        assert_eq!(r.chctrla.address(), 0x4100_a040 + id as u32 * 12);
        assert_eq!(r.chstatus.address(), 0x4100_a040 + id as u32 * 12 + 11);
    }
    assert_eq!(channel(31).chctrla.address(), 0x4100_a1b4);
}

#[test]
fn channel_blocks_do_not_overlap() {
    for a in 0..32u8 {
        for b in 0..32u8 {
            if a == b {
                continue;
            }
            for (x, xn) in addresses(&channel(a)) {
                for (y, yn) in addresses(&channel(b)) {
                    assert!(x + xn <= y || y + yn <= x);
                }
            }
        }
    }
}

#[test]
fn registers_of_one_channel_do_not_overlap() {
    let regs = addresses(&channel(7));
    for i in 0..8 {
        for j in 0..8 {
            if i != j {
                let (x, xn) = regs[i];
                let (y, yn) = regs[j];
                assert!(x + xn <= y || y + yn <= x);
            }
        }
    }
}

#[test]
fn no_channel_beyond_the_last() {
    for id in 32..=255u8 {
        assert!(try_channel(id).is_none());
    }
}

#[test]
fn try_channel_agrees_with_channel() {
    for id in 0..32u8 {
        let r = try_channel(id).unwrap();
        assert_eq!(addresses(&r), addresses(&channel(id)));
    }
}

#[test]
fn channels_keep_their_own_values() {
    let mut bus = SimBus::new(0x4100_a000, 0x240);
    for id in 0..32u8 {
        let r = channel(id);
        r.chctrla.write(&mut bus, 0x1000_0000 + id as u32);
        r.chstatus.write(&mut bus, id);
    }
    for id in 0..32u8 {
        let r = channel(id);
        assert_eq!(r.chctrla.read(&mut bus), 0x1000_0000 + id as u32);
        assert_eq!(r.chstatus.read(&mut bus), id);
        assert_eq!(r.chintflag.read(&mut bus), 0);
    }
}

#[test]
fn channel_bits_are_set_and_cleared() {
    let mut bus = SimBus::new(0x4100_a000, 0x240);
    let r = channel(3);
    r.chctrla.write(&mut bus, 0x0000_0100);
    r.chctrla.set_bits(&mut bus, 0x0000_0002);
    assert_eq!(r.chctrla.read(&mut bus), 0x0000_0102);
    r.chctrla.clear_bits(&mut bus, 0x0000_0002);
    assert_eq!(r.chctrla.read(&mut bus), 0x0000_0100);
    r.chintenset.set_bits(&mut bus, 0x07);
    assert_eq!(r.chintenset.read(&mut bus), 0x07);
    assert_eq!(r.chintenclr.read(&mut bus), 0);
}
