use atsamd_regs::dmac::table::DescriptorTable;
use atsamd_regs::dmac::{Descriptor, DESCRIPTOR_ALIGNMENT, DESCRIPTOR_SIZE, END_OF_CHAIN};

fn block(count: u16) -> Descriptor {
    Descriptor { btctrl: 0, btcnt: count, srcaddr: 0, dstaddr: 0, descaddr: 0 }
}

fn table_of(base: u32, n: u16) -> DescriptorTable {
    let mut table = DescriptorTable::new(base).unwrap();
    for i in 0..n {
        table.push(block(i)).unwrap();
    }
    table
}

#[test]
fn descriptor_constants() {
    assert_eq!(DESCRIPTOR_SIZE, 16);
    assert_eq!(DESCRIPTOR_ALIGNMENT, 16);
    assert_eq!(END_OF_CHAIN, 0);
}

#[test]
fn default_descriptor_is_all_zero() {
    let d = Descriptor::default();
    assert_eq!(d, Descriptor { btctrl: 0, btcnt: 0, srcaddr: 0, dstaddr: 0, descaddr: 0 });
    assert_eq!(d.to_bytes(), [0u8; 16]);
    assert!(d.is_last());
}

#[test]
fn programmed_descriptor_matches_its_flat_layout() {
    let mut d = Descriptor::default();
    d.btcnt = 4;
    d.srcaddr = 0x2000_0000;
    d.dstaddr = 0x2000_1000;
    d.descaddr = 0;
    assert_eq!(
        d.to_bytes(),
        [
            0x00, 0x00, // btctrl
            0x04, 0x00, // btcnt
            0x00, 0x00, 0x00, 0x20, // srcaddr
            0x00, 0x10, 0x00, 0x20, // dstaddr
            0x00, 0x00, 0x00, 0x00, // descaddr
        ]
    );
}

#[test]
fn every_field_has_its_place_in_the_layout() {
    let d = Descriptor {
        btctrl: 0x0102,
        btcnt: 0x0304,
        srcaddr: 0x0506_0708,
        dstaddr: 0x090a_0b0c,
        descaddr: 0x0d0e_0f10,
    };
    assert_eq!(
        d.to_bytes(),
        [
            0x02, 0x01, 0x04, 0x03, 0x08, 0x07, 0x06, 0x05, 0x0c, 0x0b, 0x0a, 0x09, 0x10, 0x0f,
            0x0e, 0x0d
        ]
    );
}

#[test]
fn layout_round_trips() {
    let d = Descriptor {
        btctrl: 0xffff,
        btcnt: 0x8001,
        srcaddr: 0xffff_ffff,
        dstaddr: 0x8000_0001,
        descaddr: 0x2000_0010,
    };
    assert_eq!(Descriptor::from_bytes(&d.to_bytes()), d);
    let bytes: [u8; 16] = [1, 2, 3, 4, 5, 6, 7, 8, 9, 10, 11, 12, 13, 14, 15, 16];
    let e = Descriptor::from_bytes(&bytes);
    assert_eq!(e.btctrl, 0x0201);
    assert_eq!(e.btcnt, 0x0403);
    assert_eq!(e.srcaddr, 0x0807_0605);
    assert_eq!(e.dstaddr, 0x0c0b_0a09);
    assert_eq!(e.descaddr, 0x100f_0e0d);
    assert_eq!(e.to_bytes(), bytes);
}

#[test]
fn a_descriptor_with_a_successor_is_not_last() {
    let mut d = block(1);
    assert!(d.is_last());
    d.descaddr = 0x2000_0010;
    assert!(!d.is_last());
}

#[test]
fn a_table_needs_an_aligned_base() {
    assert!(DescriptorTable::new(0x2000_0000).is_some());
    assert!(DescriptorTable::new(0x2000_0010).is_some());
    assert!(DescriptorTable::new(16).is_some());
    assert!(DescriptorTable::new(0x2000_0008).is_none());
    assert!(DescriptorTable::new(0x2000_0001).is_none());
    assert!(DescriptorTable::new(0x2000_000f).is_none());
    assert!(DescriptorTable::new(0).is_none());
}

#[test]
fn a_new_table_is_empty() {
    let table = DescriptorTable::new(0x2000_0000).unwrap();
    assert_eq!(table.len(), 0);
    assert_eq!(table.base(), 0x2000_0000);
    assert_eq!(table.index_of(0x2000_0000), None);
    assert_eq!(table.chain(0x2000_0000, 8), Vec::<usize>::new());
}

#[test]
fn every_descriptor_of_a_table_is_aligned() {
    let mut table = DescriptorTable::new(0x2000_0040).unwrap();
    for i in 0..100u16 {
        let address = table.push(block(i)).unwrap();
        assert_eq!(address % 16, 0);
        assert_eq!(address, 0x2000_0040 + 16 * i as u32);
    }
    assert_eq!(table.len(), 100);
    for i in 0..100usize {
        assert_eq!(table.address_of(i) % 16, 0);
        assert_eq!(table.address_of(i), 0x2000_0040 + 16 * i as u32);
        assert_eq!(table.index_of(table.address_of(i)), Some(i));
        assert_eq!(table.get(i).btcnt, i as u16);
    }
}

#[test]
fn only_descriptor_addresses_have_an_index() {
    let table = table_of(0x2000_0000, 3);
    assert_eq!(table.index_of(0x2000_0000), Some(0));
    assert_eq!(table.index_of(0x2000_0010), Some(1));
    assert_eq!(table.index_of(0x2000_0020), Some(2));
    assert_eq!(table.index_of(0x2000_0030), None);
    assert_eq!(table.index_of(0x2000_0008), None);
    assert_eq!(table.index_of(0x2000_0011), None);
    assert_eq!(table.index_of(0x1fff_fff0), None);
    assert_eq!(table.index_of(0), None);
    assert_eq!(table.index_of(0xffff_fff0), None);
}

#[test]
fn a_table_ends_with_the_address_space() {
    let mut table = DescriptorTable::new(0xffff_ffe0).unwrap();
    assert_eq!(table.push(block(1)), Some(0xffff_ffe0));
    assert_eq!(table.push(block(2)), Some(0xffff_fff0));
    assert_eq!(table.push(block(3)), None);
    assert_eq!(table.len(), 2);
    assert_eq!(table.get(1).btcnt, 2);
}

#[test]
fn set_replaces_one_descriptor() {
    let mut table = table_of(0x2000_0000, 3);
    let d = Descriptor { btctrl: 9, btcnt: 8, srcaddr: 7, dstaddr: 6, descaddr: 0 };
    table.set(1, d);
    assert_eq!(table.get(0), block(0));
    assert_eq!(table.get(1), d);
    assert_eq!(table.get(2), block(2));
    assert_eq!(table.len(), 3);
}

#[test]
fn link_writes_the_address_of_the_successor() {
    let mut table = table_of(0x2000_0000, 3);
    table.link(0, 2);
    assert_eq!(table.get(0).descaddr, 0x2000_0020);
    assert_eq!(table.get(0).btcnt, 0);
    assert_eq!(table.get(1).descaddr, 0);
    assert_eq!(table.get(2).descaddr, 0);
}

#[test]
fn a_chain_of_three_is_visited_once_and_in_order() {
    let mut table = table_of(0x2000_0000, 3);
    table.link(0, 1);
    table.link(1, 2);
    assert_eq!(table.get(2).descaddr, END_OF_CHAIN);
    assert_eq!(table.chain(table.base(), 16), vec![0, 1, 2]);
    assert_eq!(table.chain(table.address_of(1), 16), vec![1, 2]);
    assert_eq!(table.chain(table.address_of(2), 16), vec![2]);
}

#[test]
fn a_chain_follows_the_links_not_the_memory_order() {
    let mut table = table_of(0x2000_0000, 4);
    table.link(2, 0);
    table.link(0, 3);
    table.link(3, 1);
    assert_eq!(table.chain(table.address_of(2), 16), vec![2, 0, 3, 1]);
}

#[test]
fn a_chain_ends_at_the_null_address() {
    let table = table_of(0x2000_0000, 3);
    assert_eq!(table.chain(0, 16), Vec::<usize>::new());
    assert_eq!(table.chain(0x2000_0000, 16), vec![0]);
}

#[test]
fn a_chain_ends_where_the_table_has_no_descriptor() {
    let mut table = table_of(0x2000_0000, 2);
    let mut d = table.get(1);
    d.descaddr = 0x3000_0000;
    table.set(1, d);
    table.link(0, 1);
    assert_eq!(table.chain(0x2000_0000, 16), vec![0, 1]);
    assert_eq!(table.chain(0x2000_0004, 16), Vec::<usize>::new());
}

#[test]
fn a_circular_chain_is_cut_at_the_limit() {
    let mut table = table_of(0x2000_0000, 2);
    table.link(0, 1);
    table.link(1, 0);
    assert_eq!(table.chain(0x2000_0000, 5), vec![0, 1, 0, 1, 0]);
    assert_eq!(table.chain(0x2000_0000, 0), Vec::<usize>::new());
    assert_eq!(table.chain(0x2000_0000, 1), vec![0]);
}
