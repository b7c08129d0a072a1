use tcan455x::mram::{
    MRAMCONFIG_BYTESPERELEMENT_RXFIFO0, MRAMCONFIG_BYTESPERELEMENT_TXBC, RXFIFO0_DATASIZE_CODE,
};
use tcan455x::{
    get_mram_offset_addrs, get_mram_start_addrs, mram_layout, SIDFCONFIG, TCAN455xRequest,
    XIDFCONFIG, FIFODATASIZE,
};

fn one_word_frame(addr: u16, w: u32) -> Vec<u8> {
    let mut f = vec![0x61, (addr >> 8) as u8, addr as u8, 1];
    f.extend_from_slice(&w.to_be_bytes());
    f
}

#[test]
fn configured_offsets() {
    assert_eq!(get_mram_offset_addrs(), [0, 8, 16, 304, 0, 664, 688]);
}

#[test]
fn configured_start_addresses() {
    let starts = get_mram_start_addrs(get_mram_offset_addrs());
    assert_eq!(starts, [0x8000, 0x8008, 0x8010, 0x8130, 0x8000, 0x8298, 0x82B0]);
}

#[test]
fn layout_prefix_sums() {
    let elements = vec![1, 2, 3, 4, 5, 6, 7];
    let sizes = vec![4, 8, 16, 8, 4, 8, 4];
    assert_eq!(mram_layout(&elements, &sizes), vec![0, 4, 20, 68, 100, 120, 168]);
}

#[test]
fn layout_zero_section_quirk() {
    let elements = vec![2, 0, 3, 0, 1, 0, 2];
    let sizes = vec![4, 8, 72, 72, 8, 8, 72];
    let offsets = mram_layout(&elements, &sizes);
    assert_eq!(offsets, vec![0, 0, 8, 0, 224, 0, 232]);
}

#[test]
fn layout_offsets_ordered() {
    let configs: Vec<(Vec<u32>, Vec<u32>)> = vec![
        (vec![2, 1, 4, 5, 0, 3, 10], vec![4, 8, 72, 72, 0, 8, 72]),
        (vec![0, 0, 0, 0, 0, 0, 1], vec![4, 8, 72, 72, 8, 8, 72]),
        (vec![128, 64, 1, 1, 1, 1, 1], vec![4, 8, 16, 16, 16, 8, 16]),
    ];
    for (e, b) in configs {
        let o = mram_layout(&e, &b);
        let mut last = 0u16;
        for i in 0..7 {
            if e[i] == 0 {
                assert_eq!(o[i], 0);
            } else {
                assert!(o[i] >= last);
                last = o[i];
            }
        }
    }
}

#[test]
fn fifo_data_size_table() {
    let sizes = [8, 12, 16, 20, 24, 32, 48, 64];
    for code in 0..8u32 {
        let f = FIFODATASIZE::from_code(code);
        assert_eq!(f.code, code);
        assert_eq!(f.size, sizes[code as usize]);
    }
    assert_eq!(FIFODATASIZE::from_code(RXFIFO0_DATASIZE_CODE).size + 8, MRAMCONFIG_BYTESPERELEMENT_RXFIFO0);
}

#[test]
fn section_configuration_frames() {
    assert_eq!(TCAN455xRequest::set_sidfc(), one_word_frame(0x1084, (2 << 16) | 0));
    assert_eq!(TCAN455xRequest::set_xidfc(), one_word_frame(0x1088, (1 << 16) | 8));
    assert_eq!(TCAN455xRequest::set_rxf0c(), one_word_frame(0x10A0, 0x8000_0000 | (4 << 16) | 16));
    assert_eq!(TCAN455xRequest::set_rxf1c(), one_word_frame(0x10B0, 0x8000_0000 | (5 << 16) | 304));
    assert_eq!(TCAN455xRequest::set_rxbc(), one_word_frame(0x10AC, 0));
    assert_eq!(TCAN455xRequest::set_rxesc(), one_word_frame(0x10BC, 0x77));
    assert_eq!(TCAN455xRequest::set_txefc(), one_word_frame(0x10F0, (2 << 24) | (3 << 16) | 664));
    assert_eq!(TCAN455xRequest::set_txbc(), one_word_frame(0x10C0, (10 << 24) | 688));
    assert_eq!(TCAN455xRequest::set_txesc(), one_word_frame(0x10C8, 7));
}

#[test]
fn filter_tables() {
    let mut a = SIDFCONFIG::new();
    a.sft = 1;
    a.sfec = 1;
    a.sidf1 = 0x123;
    a.sidf2 = 0x7FF;
    let b = SIDFCONFIG::new();
    let frame = TCAN455xRequest::set_sid(&[a, b]);
    let w0: u32 = (1 << 30) | (1 << 27) | (0x123 << 16) | 0x7FF;
    let mut expected = vec![0x61, 0x80, 0x00, 0x02];
    expected.extend_from_slice(&w0.to_be_bytes());
    expected.extend_from_slice(&0u32.to_be_bytes());
    assert_eq!(frame, expected);

    let mut x = XIDFCONFIG::new();
    x.eft = 2;
    x.efec = 1;
    x.eidf1 = 0x1234_5678;
    x.eidf2 = 0x1FFF_FFFF;
    let frame = TCAN455xRequest::set_xid(&[x]);
    let mut expected = vec![0x61, 0x80, 0x08, 0x02];
    expected.extend_from_slice(&((1u32 << 29) | 0x1234_5678).to_be_bytes());
    expected.extend_from_slice(&((2u32 << 30) | 0x1FFF_FFFF).to_be_bytes());
    assert_eq!(frame, expected);
}

#[test]
fn data_addresses() {
    assert_eq!(TCAN455xRequest::get_txdata_start_addr(0), 0x82B0);
    assert_eq!(TCAN455xRequest::get_txdata_start_addr(3), 0x82B0 + 3 * MRAMCONFIG_BYTESPERELEMENT_TXBC as u16);
    assert_eq!(TCAN455xRequest::get_rxdata_start_addr(0, 0), 0x8010);
    assert_eq!(TCAN455xRequest::get_rxdata_start_addr(0, 3), 0x8010 + 3 * 72);
    assert_eq!(TCAN455xRequest::get_rxdata_start_addr(1, 2), 0x81C0);
}
