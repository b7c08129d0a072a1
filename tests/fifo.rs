use tcan455x::fifo::{
    rx_ack_index, rx_read_runs, tx_element_words, tx_fifo_free_level, tx_fifo_put_index,
    ReadRun, RxFifoStatus,
};

#[test]
fn wraparound_read_scenario() {
    let (put, get, depth, unread) = (2u32, 6u32, 8u32, 4u32);
    let runs = rx_read_runs(put, get, unread).unwrap();
    assert_eq!(runs, vec![ReadRun { start: 6, count: 2 }, ReadRun { start: 0, count: 2 }]);
    let total: u32 = runs.iter().map(|r| r.count).sum();
    assert_eq!(total, depth - get + put);
    assert_eq!(rx_ack_index(put, depth), 1);
}

#[test]
fn contiguous_read() {
    assert_eq!(rx_read_runs(5, 2, 3), Some(vec![ReadRun { start: 2, count: 3 }]));
    assert_eq!(rx_read_runs(0, 0, 0), Some(vec![ReadRun { start: 0, count: 0 }]));
    assert_eq!(rx_ack_index(5, 8), 4);
    assert_eq!(rx_ack_index(0, 4), 3);
}

#[test]
fn inconsistent_wrapped_status() {
    assert_eq!(rx_read_runs(3, 6, 2), None);
}

#[test]
fn fifo_status_fields() {
    let s = RxFifoStatus::from_word(0x0002_0604);
    assert_eq!(s, RxFifoStatus { put_index: 2, get_index: 6, fill_level: 4 });
    let s = RxFifoStatus::from_word(0xFFFF_FFFF);
    assert_eq!(s, RxFifoStatus { put_index: 63, get_index: 63, fill_level: 127 });
    assert_eq!(tx_fifo_free_level(0x0003_0005), 5);
    assert_eq!(tx_fifo_put_index(0x0003_0005), 3);
    assert_eq!(tx_fifo_free_level(0xFFFF_FF00), 0);
    assert_eq!(tx_fifo_put_index(0xFFFF_FF00), 31);
}

#[test]
fn tx_element_short() {
    let w = tx_element_words(0x1234_5678, &[1, 2, 3, 4, 5]);
    assert_eq!(
        w,
        vec![
            0x4000_0000 | (0x1234_5678 & 0x1FFF_FFFF),
            0x00B0_0000 | (5 << 16),
            0x0403_0201,
            0x0000_0005,
        ]
    );
}

#[test]
fn tx_element_rounds_up() {
    let data: Vec<u8> = (1..=25).collect();
    let w = tx_element_words(7, &data);
    // 25 bytes take the 32-byte code: 8 payload words, zeros after the data
    assert_eq!(w.len(), 2 + 8);
    assert_eq!(w[1], 0x00B0_0000 | (13 << 16));
    assert_eq!(w[8], 0x0000_0019);
    assert_eq!(w[9], 0);
    let empty = tx_element_words(7, &[]);
    assert_eq!(empty, vec![0x4000_0007, 0x00B0_0000]);
}
