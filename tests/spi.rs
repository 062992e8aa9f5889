use embedded_hal::spi::ErrorKind;
use stm32g4_spi::config::{baud_divisor, cr1_init, fifo_cap, CR2_INIT};
use stm32g4_spi::error::Error;
use stm32g4_spi::pins::{NoMiso, NoMosi, NoSck, Pin, Spi1, Spi2, AF5, PORT_A, PORT_B};
use stm32g4_spi::sim::SimLine;
use stm32g4_spi::spi::{Spi, SpiExt};
use stm32g4_spi::status::{fault, Status};
use stm32g4_spi::{MODE_0, MODE_3};

type Wiring = (Pin<PORT_A, 5, AF5>, Pin<PORT_A, 6, AF5>, Pin<PORT_A, 7, AF5>);

fn wiring() -> Wiring {
    (Pin, Pin, Pin)
}

fn bound(script: Vec<u8>, ftlvl: u8) -> Spi<SimLine<Spi1>, Wiring> {
    let mut line = SimLine::new(script);
    line.set_tx_level(ftlvl);
    Spi::new(line, wiring(), MODE_0, 1_000_000, 16_000_000)
}

fn line_of(spi: Spi<SimLine<Spi1>, Wiring>) -> SimLine<Spi1> {
    spi.release().0
}

#[test]
fn baud_72mhz_to_9mhz_selects_ratio_8() {
    assert_eq!(baud_divisor(72_000_000, 9_000_000), 2);
}

#[test]
fn baud_never_runs_faster_than_target() {
    // 50 / 4 = 12.5 > 10, so ratio 8 is the smallest that is slow enough
    assert_eq!(baud_divisor(50_000_000, 10_000_000), 2);
    assert_eq!(baud_divisor(40_000_000, 10_000_000), 1);
}

#[test]
fn baud_edges() {
    assert_eq!(baud_divisor(8_000_000, 8_000_000), 0);
    assert_eq!(baud_divisor(16_000_000, 8_000_000), 0);
    assert_eq!(baud_divisor(256_000_000, 1_000_000), 7);
    assert_eq!(baud_divisor(u32::MAX, 1), 7);
    assert_eq!(baud_divisor(170_000_000, 1_000_000), 7);
    assert_eq!(baud_divisor(128_000_000, 1_000_000), 6);
}

#[test]
fn cr1_word_layout() {
    assert_eq!(cr1_init(false, false, 2), 0x0354);
    assert_eq!(cr1_init(true, true, 7), 0x037F);
    assert_eq!(cr1_init(false, true, 0), 0x0346);
}

#[test]
fn fifo_room_per_level() {
    assert_eq!(fifo_cap(0), 4);
    assert_eq!(fifo_cap(1), 3);
    assert_eq!(fifo_cap(2), 2);
    assert_eq!(fifo_cap(3), 0);
}

#[test]
fn status_decoding_and_priority() {
    let s = Status::from_bits(0b0001_1000_0111_0011);
    assert!(s.rxne && s.txe && s.crcerr && s.modf && s.ovr);
    assert_eq!(s.ftlvl, 3);
    assert_eq!(fault(&s), Some(Error::Overrun));
    let s = Status::from_bits(0b0011_0000);
    assert_eq!(fault(&s), Some(Error::ModeFault));
    let s = Status::from_bits(0b0001_0000);
    assert_eq!(fault(&s), Some(Error::Crc));
    let s = Status::from_bits(0b0000_1000_0000_0010);
    assert_eq!(fault(&s), None);
    assert_eq!(s.ftlvl, 1);
    assert!(!s.rxne && s.txe);
}

#[test]
fn error_kinds() {
    assert_eq!(Error::Overrun.kind(), ErrorKind::Overrun);
    assert_eq!(Error::ModeFault.kind(), ErrorKind::ModeFault);
    assert_eq!(Error::Crc.kind(), ErrorKind::Other);
}

#[test]
fn binding_configures_controller() {
    let spi = Spi::new(SimLine::<Spi1>::new(vec![]), wiring(), MODE_3, 9_000_000, 72_000_000);
    let line = line_of(spi);
    assert_eq!(line.cr1_value(), 0x0357);
    assert_eq!(line.cr2_value(), CR2_INIT);
    assert!(!line.is_tx_only());
    let spi = SimLine::<Spi2>::new(vec![]).spi((NoSck, NoMiso, NoMosi), MODE_0, 1_000_000, 170_000_000);
    let line = spi.release().0;
    assert_eq!(line.cr1_value(), 0x037C);
}

#[test]
fn absent_pins_bind_any_controller() {
    let spi = Spi::new(
        SimLine::<Spi1>::new(vec![]),
        (Pin::<PORT_B, 3, AF5>, NoMiso, Pin::<PORT_B, 5, AF5>),
        MODE_0,
        1_000_000,
        1_000_000,
    );
    assert_eq!(spi.release().0.cr1_value() & 0x38, 0);
}

#[test]
fn read_moves_n_frames_in_order_for_every_prefill() {
    for lvl in 0u8..4 {
        for n in 0usize..12 {
            let script: Vec<u8> = (0..n as u8).map(|i| 0xA0 + i).collect();
            let mut spi = bound(script.clone(), lvl);
            let mut dst = vec![0x55u8; n];
            assert_eq!(spi.read(&mut dst), Ok(()));
            assert_eq!(dst, script);
            let line = line_of(spi);
            assert_eq!(line.sent_frames(), vec![0u8; n]);
            assert_eq!(line.received_frames(), script);
            assert_eq!(line.rx_level(), 0);
        }
    }
}

#[test]
fn read_empty_touches_nothing() {
    let mut spi = bound(vec![1, 2], 0);
    let mut dst: [u8; 0] = [];
    assert_eq!(spi.read(&mut dst), Ok(()));
    let line = line_of(spi);
    assert!(line.sent_frames().is_empty());
    assert!(line.received_frames().is_empty());
}

#[test]
fn write_then_flush_leaves_fifos_empty() {
    let mut spi = bound(vec![9, 8], 2);
    // a frame exchanged in full duplex leaves a stale received frame
    assert!(spi.nb_write(0x11).is_ok());
    assert_eq!(spi.write(&[1, 2, 3]), Ok(()));
    assert_eq!(spi.flush(), Ok(()));
    let line = line_of(spi);
    assert_eq!(line.sent_frames(), vec![0x11, 1, 2, 3]);
    assert_eq!(line.rx_level(), 0);
    assert_eq!(line.tx_fifo_level(), 0);
    assert!(!line.is_tx_only());
    assert_eq!(line.cr1_value() & 0xC000, 0);
}

#[test]
fn write_receives_nothing() {
    let mut spi = bound(vec![7; 8], 0);
    assert_eq!(spi.write(&[1, 2, 3, 4, 5, 6]), Ok(()));
    let line = line_of(spi);
    assert_eq!(line.rx_level(), 0);
    assert!(line.received_frames().is_empty());
    assert!(!line.is_tx_only());
}

#[test]
fn transfer_of_two_empty_buffers_is_a_no_op() {
    let mut spi = bound(vec![1], 0);
    let mut dst: [u8; 0] = [];
    assert_eq!(spi.transfer(&mut dst, &[]), Ok(()));
    let line = line_of(spi);
    assert!(line.sent_frames().is_empty());
    assert!(line.received_frames().is_empty());
    assert_eq!(line.cr1_value(), 0x035C);
}

#[test]
fn transfer_read_longer_continues_as_read() {
    let script = vec![10, 11, 12, 13, 14];
    let mut spi = bound(script.clone(), 0);
    let mut dst = [0u8; 5];
    assert_eq!(spi.transfer(&mut dst, &[0xC1, 0xC2]), Ok(()));
    assert_eq!(dst.to_vec(), script);
    let line = line_of(spi);
    assert_eq!(line.sent_frames(), vec![0xC1, 0xC2, 0, 0, 0]);
}

#[test]
fn transfer_write_longer_sends_tail_transmit_only() {
    let mut spi = bound(vec![20, 21, 22, 23, 24, 25], 0);
    let mut dst = [0u8; 1];
    assert_eq!(spi.transfer(&mut dst, &[1, 2, 3, 4, 5]), Ok(()));
    assert_eq!(dst, [20]);
    let line = line_of(spi);
    assert_eq!(line.sent_frames(), vec![1, 2, 3, 4, 5]);
    assert_eq!(line.received_frames(), vec![20]);
    assert_eq!(line.rx_level(), 0);
    assert!(!line.is_tx_only());
}

#[test]
fn transfer_short_buffers_below_fifo_capacity() {
    for rl in 1usize..4 {
        for wl in 1usize..4 {
            let mut spi = bound(vec![], 0);
            let src: Vec<u8> = (1..=wl as u8).collect();
            let mut dst = vec![0xFFu8; rl];
            assert_eq!(spi.transfer(&mut dst, &src), Ok(()));
            let mut expect = src.clone();
            expect.resize(rl.max(wl), 0);
            expect.truncate(rl);
            assert_eq!(dst, expect);
        }
    }
}

#[test]
fn transfer_in_place_matches_transfer() {
    for lvl in 0u8..4 {
        let script = vec![3, 1, 4, 1, 5, 9, 2, 6];
        let contents = vec![0x10, 0x20, 0x30, 0x40, 0x50, 0x60, 0x70, 0x80];

        let mut a = bound(script.clone(), lvl);
        let mut buf = contents.clone();
        assert_eq!(a.transfer_in_place(&mut buf), Ok(()));

        let mut b = bound(script.clone(), lvl);
        let mut tmp = contents.clone();
        assert_eq!(b.transfer(&mut tmp, &contents), Ok(()));

        assert_eq!(buf, tmp);
        assert_eq!(buf, script);
        let (la, lb) = (line_of(a), line_of(b));
        assert_eq!(la.sent_frames(), contents);
        assert_eq!(la.sent_frames(), lb.sent_frames());
        assert_eq!(la.received_frames(), lb.received_frames());
    }
}

#[test]
fn transfer_in_place_loopback_keeps_buffer() {
    let mut spi = bound(vec![], 1);
    let mut buf = [5u8, 6, 7, 8, 9, 10, 11];
    assert_eq!(spi.transfer_in_place(&mut buf), Ok(()));
    assert_eq!(buf, [5, 6, 7, 8, 9, 10, 11]);
}

#[test]
fn overrun_mid_read_keeps_frames_before_it() {
    let script: Vec<u8> = (1..=8).collect();
    let mut line = SimLine::<Spi1>::new(script.clone());
    line.inject_fault(Error::Overrun, 3);
    let mut spi = Spi::new(line, wiring(), MODE_0, 1_000_000, 16_000_000);
    let mut dst = [0xEEu8; 8];
    assert_eq!(spi.read(&mut dst), Err(Error::Overrun));
    assert_eq!(&dst[..3], &script[..3]);
    assert_eq!(&dst[3..], &[0xEE; 5]);
}

#[test]
fn fault_kinds_surface_from_each_operation() {
    let mut line = SimLine::<Spi1>::new(vec![]);
    line.inject_fault(Error::ModeFault, 0);
    let mut spi = Spi::new(line, wiring(), MODE_0, 1_000_000, 16_000_000);
    assert_eq!(spi.write(&[1]), Err(Error::ModeFault));
    assert!(matches!(spi.nb_write(1), Err(nb::Error::Other(Error::ModeFault))));
    assert_eq!(spi.flush(), Err(Error::ModeFault));
    let line = line_of(spi);
    assert!(!line.is_tx_only());

    let mut line = SimLine::<Spi1>::new(vec![]);
    line.inject_fault(Error::Crc, 2);
    let mut spi = Spi::new(line, wiring(), MODE_0, 1_000_000, 16_000_000);
    let mut buf = [1u8, 2, 3, 4, 5, 6];
    assert_eq!(spi.transfer_in_place(&mut buf), Err(Error::Crc));
    assert_eq!(&buf[..2], &[1, 2]);
}

#[test]
fn poll_once_operations() {
    let mut spi = bound(vec![0x42], 0);
    assert!(matches!(spi.nb_read(), Err(nb::Error::WouldBlock)));
    assert!(matches!(spi.nb_write(0x99), Ok(())));
    assert!(matches!(spi.nb_read(), Ok(0x42)));
    assert!(matches!(spi.nb_read(), Err(nb::Error::WouldBlock)));
}

#[test]
fn mode_switches_and_dma_enable() {
    let mut spi = bound(vec![], 0);
    spi.set_tx_only();
    spi.set_bidi();
    spi.set_tx_only();
    let spi = spi.enable_tx_dma();
    let line = line_of(spi);
    assert!(line.is_tx_only());
    assert_eq!(line.cr1_value() & 0xC000, 0xC000);
    assert_eq!(line.cr2_value(), CR2_INIT | 2);
}

#[test]
fn fault_at_first_probe_ends_read_before_any_data_access() {
    let mut line = SimLine::<Spi1>::new(vec![1, 2, 3]);
    line.inject_fault(Error::Overrun, 0);
    let mut spi = Spi::new(line, wiring(), MODE_0, 1_000_000, 16_000_000);
    let mut dst = [0x77u8; 4];
    assert_eq!(spi.read(&mut dst), Err(Error::Overrun));
    assert_eq!(dst, [0x77; 4]);
    let line = line_of(spi);
    assert!(line.sent_frames().is_empty());
    assert!(line.received_frames().is_empty());
}

#[test]
fn fault_in_pipeline_stops_before_next_read() {
    // prefill of 4 fillers, then one filler and one read per frame: the
    // fault shows after the first read and must end the call there
    let mut line = SimLine::<Spi1>::new((1..=10).collect());
    line.inject_fault(Error::Crc, 1);
    let mut spi = Spi::new(line, wiring(), MODE_0, 1_000_000, 16_000_000);
    let mut dst = [0u8; 10];
    assert_eq!(spi.read(&mut dst), Err(Error::Crc));
    assert_eq!(dst, [1, 0, 0, 0, 0, 0, 0, 0, 0, 0]);
    let line = line_of(spi);
    assert_eq!(line.received_frames(), vec![1]);
    assert_eq!(line.sent_frames(), vec![0; 5]);
}

#[test]
fn empty_buffers_succeed_even_after_a_fault() {
    let mut line = SimLine::<Spi1>::new(vec![]);
    line.inject_fault(Error::ModeFault, 0);
    let mut spi = Spi::new(line, wiring(), MODE_0, 1_000_000, 16_000_000);
    assert!(matches!(spi.nb_read(), Err(nb::Error::Other(Error::ModeFault))));
    let mut empty: [u8; 0] = [];
    assert_eq!(spi.read(&mut empty), Ok(()));
    assert_eq!(spi.write(&[]), Ok(()));
    assert_eq!(spi.transfer(&mut empty, &[]), Ok(()));
    assert_eq!(spi.transfer_in_place(&mut empty), Ok(()));
}

#[test]
fn write_and_flush_keep_configuration() {
    let mut spi = bound(vec![], 0);
    assert_eq!(spi.write(&[1, 2]), Ok(()));
    assert_eq!(spi.flush(), Ok(()));
    let mut dst = [0u8; 3];
    assert_eq!(spi.transfer(&mut dst, &[4, 5, 6, 7]), Ok(()));
    let line = line_of(spi);
    assert_eq!(line.cr1_value(), 0x035C);
    assert_eq!(line.cr2_value(), CR2_INIT);
}

#[test]
fn equal_lengths_transfer_leaves_mode_bits_alone() {
    let mut spi = bound(vec![], 0);
    let mut dst = [0u8; 3];
    assert_eq!(spi.transfer(&mut dst, &[4, 5, 6]), Ok(()));
    assert_eq!(dst, [4, 5, 6]);
    assert_eq!(line_of(spi).cr1_value(), 0x035C);
}
