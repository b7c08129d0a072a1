use std::collections::HashMap;
use tcan455x::{DriverError, RxData, RxStatus, SIDConfig, TCAN455xTranceiver, Transport, XIDConfig};

/// A device model: registers answer reads from a table, element reads give
/// a byte pattern, and every frame is recorded.
struct MockTransport {
    registers: HashMap<u16, u32>,
    writes: Vec<Vec<u8>>,
    reads: Vec<(u16, u8)>,
    fail_element_reads: bool,
    fail_reads_of: Option<u16>,
    short_reply_of: Option<u16>,
    fail_writes: bool,
    resets: usize,
}

impl MockTransport {
    fn new() -> Self {
        MockTransport {
            registers: HashMap::new(),
            writes: Vec::new(),
            reads: Vec::new(),
            fail_element_reads: false,
            fail_reads_of: None,
            short_reply_of: None,
            fail_writes: false,
            resets: 0,
        }
    }

    fn write_addrs(&self) -> Vec<u16> {
        self.writes.iter().map(|f| ((f[1] as u16) << 8) | f[2] as u16).collect()
    }
}

fn frame_word(f: &[u8], k: usize) -> u32 {
    u32::from_be_bytes([f[4 + 4 * k], f[5 + 4 * k], f[6 + 4 * k], f[7 + 4 * k]])
}

impl Transport for MockTransport {
    fn write(&mut self, data: &[u8]) -> Result<usize, DriverError> {
        self.writes.push(data.to_vec());
        if self.fail_writes {
            return Err(DriverError::Io);
        }
        Ok(data.len())
    }

    fn transfer(&mut self, data: &[u8], buffer: &mut Vec<u8>) -> Result<usize, DriverError> {
        let mut d = data.to_vec();
        let n = self.transfer_in_place(&mut d)?;
        *buffer = d;
        Ok(n)
    }

    fn transfer_in_place(&mut self, data: &mut Vec<u8>) -> Result<usize, DriverError> {
        let addr = ((data[1] as u16) << 8) | data[2] as u16;
        let count = data[3];
        self.reads.push((addr, count));
        if self.fail_reads_of == Some(addr) {
            return Err(DriverError::TimedOut);
        }
        if self.short_reply_of == Some(addr) {
            data.truncate(6);
            return Ok(6);
        }
        if addr >= 0x8000 {
            if self.fail_element_reads {
                return Err(DriverError::Io);
            }
            for i in 4..data.len() {
                data[i] = (addr as usize + i) as u8;
            }
        } else {
            let v = *self.registers.get(&addr).unwrap_or(&0);
            data[4..8].copy_from_slice(&v.to_be_bytes());
        }
        Ok(data.len())
    }

    fn reset(&mut self) -> Result<(), DriverError> {
        self.resets += 1;
        Ok(())
    }

    fn gpio_out(&mut self, _state: u8) -> Result<(), DriverError> {
        Ok(())
    }

    fn gpio_read(&mut self, channel: usize) -> Result<bool, DriverError> {
        Ok(channel == 1)
    }

    fn gpio_read_all(&mut self) -> Result<u64, DriverError> {
        Ok(0b10)
    }
}

fn filters() -> (Vec<SIDConfig>, Vec<XIDConfig>) {
    (vec![SIDConfig::new(), SIDConfig::new()], vec![XIDConfig::new()])
}

#[test]
fn setup_ends_in_normal_mode() {
    let mut t = TCAN455xTranceiver::new(MockTransport::new());
    let (sid, xid) = filters();
    assert_eq!(t.setup(&sid, &xid), Ok(()));
    let m = t.driver();
    assert_eq!(m.resets, 1);
    let addrs = m.write_addrs();
    let n = addrs.len();
    // the MCAN interrupt register is cleared once, by the last write
    assert_eq!(addrs.iter().filter(|a| **a == 0x1050).count(), 1);
    assert_eq!(addrs[n - 1], 0x1050);
    assert_eq!(frame_word(&m.writes[n - 1], 0), 0xFFFF_FFFF);
    // the last write of the mode register selects normal mode
    let last_mode = addrs.iter().rposition(|a| *a == 0x0800).unwrap();
    assert_eq!(last_mode, n - 2);
    assert_eq!(frame_word(&m.writes[last_mode], 0) & 0xC0, 0x80);
    // reads answer zero, so the normal mode word is the mode field alone
    assert_eq!(frame_word(&m.writes[last_mode], 0), 0x0000_0080);
    // the pins configuration (standby) comes before it
    let pins = m.writes.iter().position(|f| f[1] == 0x08 && f[2] == 0x00 && frame_word(f, 0) == 0xC800_0440).unwrap();
    assert!(pins < last_mode);
    assert_eq!((frame_word(&m.writes[pins], 0) >> 6) & 0b11, 0b01);
}

#[test]
fn setup_order_of_configuration() {
    let mut t = TCAN455xTranceiver::new(MockTransport::new());
    let (sid, xid) = filters();
    t.setup(&sid, &xid).unwrap();
    let addrs = t.driver().write_addrs();
    let pos = |a: u16| addrs.iter().position(|x| *x == a).unwrap();
    // standby first, then the configuration, the message RAM cleared before its layout
    assert_eq!(addrs[0], 0x0800);
    assert_eq!(frame_word(&t.driver().writes[0], 0) & 0xC0, 0x40);
    assert!(pos(0x000C) < pos(0x1018));
    assert!(pos(0x1018) < pos(0x101C));
    assert!(pos(0x8000) < pos(0x1084));
    assert!(pos(0x1084) < pos(0x10C8));
    assert!(pos(0x10C8) < pos(0x1054));
    assert!(pos(0x1054) < pos(0x105C));
    // all of the message RAM is zeroed, 2 KB in 8 frames
    let cleared: usize = t
        .driver()
        .writes
        .iter()
        .filter(|f| f[1] >= 0x80 && f[3] == 64)
        .map(|f| f[3] as usize * 4)
        .sum();
    assert_eq!(cleared, 2048);
    // the loopback test register is left alone where test mode is off
    assert!(!addrs.contains(&0x1010));
    // interrupts are unmasked only after the configuration is locked again
    let cccr_writes: Vec<usize> = addrs.iter().enumerate().filter(|(_, a)| **a == 0x1018).map(|(i, _)| i).collect();
    assert_eq!(cccr_writes.len(), 3);
    assert!(cccr_writes[2] < pos(0x1054));
}

#[test]
fn setup_enables_loopback_when_test_mode_set() {
    let mut m = MockTransport::new();
    m.registers.insert(0x1018, 0x0000_00A0);
    let mut t = TCAN455xTranceiver::new(m);
    let (sid, xid) = filters();
    t.setup(&sid, &xid).unwrap();
    let addrs = t.driver().write_addrs();
    let i = addrs.iter().position(|a| *a == 0x1010).unwrap();
    assert_eq!(frame_word(&t.driver().writes[i], 0), 0x10);
}

#[test]
fn setup_clears_pending_device_interrupts() {
    let mut m = MockTransport::new();
    m.registers.insert(0x0820, 0x0010_0000);
    let mut t = TCAN455xTranceiver::new(m);
    let (sid, xid) = filters();
    t.setup(&sid, &xid).unwrap();
    let addrs = t.driver().write_addrs();
    let i = addrs.iter().position(|a| *a == 0x0820).unwrap();
    assert_eq!(frame_word(&t.driver().writes[i], 0), 0x0010_0000);
}

#[test]
fn setup_stops_at_first_failure() {
    let mut m = MockTransport::new();
    m.fail_reads_of = Some(0x1018);
    let mut t = TCAN455xTranceiver::new(m);
    let (sid, xid) = filters();
    assert_eq!(t.setup(&sid, &xid), Err(DriverError::TimedOut));
    let m = t.driver();
    assert_eq!(m.reads.last(), Some(&(0x1018, 1)));
    assert!(!m.write_addrs().contains(&0x1018));
    assert!(!m.write_addrs().contains(&0x1050));
}

#[test]
fn transmit_without_free_slot() {
    let mut m = MockTransport::new();
    m.registers.insert(0x10C4, 0x0004_0000);
    let mut t = TCAN455xTranceiver::new(m);
    assert_eq!(t.transmit(0x123, &[1, 2, 3], 3), Err(DriverError::Interrupted));
    assert!(t.driver().writes.is_empty());
    assert_eq!(t.driver().reads, vec![(0x10C4, 1)]);
}

#[test]
fn transmit_one_chunk() {
    let mut m = MockTransport::new();
    m.registers.insert(0x10C4, 0x0003_0002);
    let mut t = TCAN455xTranceiver::new(m);
    assert_eq!(t.transmit(0x0ABC_DEF0, &[9, 8, 7, 6, 5, 4, 3, 2, 1, 0], 6), Ok(()));
    let m = t.driver();
    assert_eq!(m.writes.len(), 2);
    let element = &m.writes[0];
    let addr = 0x82B0u16 + 3 * 72;
    assert_eq!(&element[0..4], &[0x61, (addr >> 8) as u8, addr as u8, 4]);
    assert_eq!(frame_word(element, 0), 0x4ABC_DEF0);
    assert_eq!(frame_word(element, 1), 0x00B6_0000);
    assert_eq!(frame_word(element, 2), 0x0607_0809);
    assert_eq!(frame_word(element, 3), 0x0000_0405);
    assert_eq!(m.writes[1], vec![0x61, 0x10, 0xD0, 0x01, 0x00, 0x00, 0x00, 0x08]);
}

#[test]
fn transmit_splits_into_chunks() {
    let mut m = MockTransport::new();
    m.registers.insert(0x10C4, 0x0001_0005);
    let mut t = TCAN455xTranceiver::new(m);
    let data: Vec<u8> = (0..130u32).map(|i| i as u8).collect();
    assert_eq!(t.transmit(5, &data, 130), Ok(()));
    let m = t.driver();
    assert_eq!(m.reads.len(), 3);
    assert_eq!(m.writes.len(), 6);
    // 64, 64 and 2 bytes: codes 15, 15 and 2
    assert_eq!(frame_word(&m.writes[0], 1), 0x00BF_0000);
    assert_eq!(frame_word(&m.writes[2], 1), 0x00BF_0000);
    assert_eq!(frame_word(&m.writes[4], 1), 0x00B2_0000);
    assert_eq!(frame_word(&m.writes[4], 2), 0x0000_8180);
}

#[test]
fn transmit_nothing() {
    let mut t = TCAN455xTranceiver::new(MockTransport::new());
    assert_eq!(t.transmit(5, &[1, 2], 0), Ok(()));
    assert!(t.driver().reads.is_empty());
    assert!(t.driver().writes.is_empty());
}

#[test]
fn receive_without_interrupt() {
    let mut t = TCAN455xTranceiver::new(MockTransport::new());
    let mut rx = RxData::new();
    rx.fifo0.push(1);
    assert_eq!(t.receive(&mut rx), Ok(RxStatus::NoData));
    assert!(rx.fifo0.is_empty() && rx.fifo1.is_empty());
    assert_eq!(t.driver().reads, vec![(0x0820, 1)]);
}

fn receiving_mock() -> MockTransport {
    let mut m = MockTransport::new();
    m.registers.insert(0x0820, 0x0000_0002);
    m.registers.insert(0x1050, 0x0000_0001);
    // RX FIFO 0: put 1, get 3, 2 unread: the tail [3, 4) and the head [0, 1)
    m.registers.insert(0x10A4, 0x0001_0302);
    m
}

#[test]
fn receive_wrapped_fifo() {
    let mut t = TCAN455xTranceiver::new(receiving_mock());
    let mut rx = RxData::new();
    assert_eq!(t.receive(&mut rx), Ok(RxStatus::Received));
    let m = t.driver();
    let tail = 0x8010u16 + 3 * 72;
    assert_eq!(
        m.reads,
        vec![(0x0820, 1), (0x1050, 1), (0x10A4, 1), (tail, 18), (0x8010, 18), (0x000C, 1), (0x0820, 1)]
    );
    assert_eq!(rx.fifo0.len(), 2 * 72);
    assert_eq!(rx.fifo0[0], (tail as usize + 4) as u8);
    assert_eq!(rx.fifo0[72], (0x8010usize + 4) as u8);
    assert!(rx.fifo1.is_empty());
    // acknowledged up to the slot before the put index
    assert_eq!(m.writes, vec![vec![0x61, 0x10, 0xA8, 0x01, 0, 0, 0, 0]]);
}

#[test]
fn receive_element_read_failure_is_lenient() {
    let mut m = receiving_mock();
    m.fail_element_reads = true;
    let mut t = TCAN455xTranceiver::new(m);
    let mut rx = RxData::new();
    assert_eq!(t.receive(&mut rx), Ok(RxStatus::Received));
    assert!(rx.fifo0.is_empty());
    assert_eq!(t.driver().write_addrs(), vec![0x10A8]);
}

#[test]
fn receive_status_read_failure_propagates() {
    let mut m = receiving_mock();
    m.fail_reads_of = Some(0x10A4);
    let mut t = TCAN455xTranceiver::new(m);
    let mut rx = RxData::new();
    assert_eq!(t.receive(&mut rx), Err(DriverError::TimedOut));
    assert!(t.driver().writes.is_empty());
}

#[test]
fn receive_second_channel() {
    let mut m = MockTransport::new();
    m.registers.insert(0x0820, 0x0000_0002);
    m.registers.insert(0x1050, 0x0000_0010);
    m.registers.insert(0x10B4, 0x0003_0102);
    let mut t = TCAN455xTranceiver::new(m);
    let mut rx = RxData::new();
    assert_eq!(t.receive(&mut rx), Ok(RxStatus::Received));
    assert!(rx.fifo0.is_empty());
    assert_eq!(rx.fifo1.len(), 2 * 72);
    assert_eq!(t.driver().writes, vec![vec![0x61, 0x10, 0xB8, 0x01, 0, 0, 0, 2]]);
}

#[test]
fn close_selects_sleep() {
    let mut m = MockTransport::new();
    m.registers.insert(0x0800, 0xC800_0480);
    let mut t = TCAN455xTranceiver::new(m);
    assert_eq!(t.close(), Ok(()));
    assert_eq!(t.driver().writes, vec![vec![0x61, 0x08, 0x00, 0x01, 0xC8, 0x00, 0x04, 0x00]]);
}

#[test]
fn pins_pass_through() {
    let mut t = TCAN455xTranceiver::new(MockTransport::new());
    assert_eq!(t.gpi_read(1), Ok(true));
    assert_eq!(t.gpi_read_all(), Ok(0b10));
    assert_eq!(t.gpio_out(3), Ok(()));
}

#[test]
fn rx_data_reset() {
    let mut rx = RxData::new();
    rx.fifo0.extend_from_slice(&[1, 2, 3]);
    rx.fifo1.push(4);
    rx.reset();
    assert!(rx.fifo0.is_empty() && rx.fifo1.is_empty());
}

#[test]
fn setup_short_reply_is_invalid_data() {
    let mut m = MockTransport::new();
    m.short_reply_of = Some(0x0800);
    let mut t = TCAN455xTranceiver::new(m);
    let (sid, xid) = filters();
    assert_eq!(t.setup(&sid, &xid), Err(DriverError::InvalidData));
    assert_eq!(t.driver().resets, 1);
    assert!(t.driver().writes.is_empty());
}

#[test]
fn transmit_write_failure_propagates() {
    let mut m = MockTransport::new();
    m.registers.insert(0x10C4, 0x0000_0001);
    m.fail_writes = true;
    let mut t = TCAN455xTranceiver::new(m);
    assert_eq!(t.transmit(1, &[1, 2, 3, 4], 4), Err(DriverError::Io));
    // the element write failed, so no transmission was requested
    assert_eq!(t.driver().writes.len(), 1);
    assert_eq!(t.driver().write_addrs(), vec![0x82B0]);
}

#[test]
fn receive_ack_failure_propagates() {
    let mut m = receiving_mock();
    m.fail_writes = true;
    let mut t = TCAN455xTranceiver::new(m);
    let mut rx = RxData::new();
    assert_eq!(t.receive(&mut rx), Err(DriverError::Io));
}

#[test]
fn setup_write_failure_stops_sequence() {
    let mut m = MockTransport::new();
    m.fail_writes = true;
    let mut t = TCAN455xTranceiver::new(m);
    let (sid, xid) = filters();
    assert_eq!(t.setup(&sid, &xid), Err(DriverError::Io));
    // the standby write was the first write, and nothing followed it
    assert_eq!(t.driver().write_addrs(), vec![0x0800]);
    assert_eq!(t.driver().reads, vec![(0x0800, 1)]);
}
