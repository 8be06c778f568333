use sigma_racer_sidearm::hw::clock::CAN_PE_CLK_HZ;

#[test]
fn bitrate_math() {
    let tq = 1 + 7 + 6 + 6;
    let prescaler = 2u32;
    let bitrate = CAN_PE_CLK_HZ / (prescaler * tq);
    assert_eq!(bitrate, 1_000_000);
}

use sigma_racer_sidearm::hw::flexcan::{
    tx_addr, DrainPhase, Program, TxPhase, CODE_TX_DATA, configure_rx_mb, configure_tx_mb, init_controller, mb_code, mb_set_code, mux_pad, pack_payload, pinmux_can1, rx_pending,
    rx_release, spin_until, tx_abort, tx_complete, tx_finish, tx_mailbox_idle, unpack_frame,
    FlexCan1, Poll, RxLatch, CODE_RX_EMPTY, CODE_TX_INACTIVE, CTRL1_1MBIT, MB_CS_CODE_MASK,
    RX_MB_ADDR, TX_MB_ADDR, TX_TIMEOUT_SPINS,
};
use sigma_racer_sidearm::hw::reg::{modify, RegOp, FLEXCAN1_BASE, IOMUXC_BASE};

/// A control/status word with the given code and length code.
fn cs(code: u32, dlc: u32) -> u32 {
    (code << 24) | (dlc << 16)
}

#[test]
fn ctrl1_is_the_documented_timing() {
    // Each timing field holds the wanted value minus one.
    let ctrl1 = (1 << 24) | (5 << 19) | (5 << 16) | 6;
    assert_eq!(CTRL1_1MBIT, ctrl1);
    assert_eq!(CTRL1_1MBIT, 0x012D_0006);
    let presdiv = (CTRL1_1MBIT >> 24) + 1;
    let propseg = (CTRL1_1MBIT & 7) + 1;
    let pseg1 = ((CTRL1_1MBIT >> 19) & 7) + 1;
    let pseg2 = ((CTRL1_1MBIT >> 16) & 7) + 1;
    let rjw = ((CTRL1_1MBIT >> 22) & 3) + 1;
    assert_eq!((presdiv, propseg, pseg1, pseg2, rjw), (2, 7, 6, 6, 1));
    let quanta = 1 + propseg + pseg1 + pseg2;
    assert_eq!(quanta, 20);
    assert_eq!(CAN_PE_CLK_HZ / (presdiv * quanta), 1_000_000);
}

#[test]
fn received_frames_are_classic_standard_frames() {
    // A length code above 8 still delivers 8 bytes.
    let f = unpack_frame(cs(0x2, 15), 0x123 << 18, 0x0102_0304, 0x0506_0708);
    assert_eq!(f.len, 8);
    assert_eq!(f.data, [1, 2, 3, 4, 5, 6, 7, 8]);
    // Bits above the 11-bit identifier are not part of it.
    let g = unpack_frame(cs(0x2, 1), (0x7u32 << 29) | (0x7FF << 18) | 0x3_FFFF, 0xAA00_0000, 0);
    assert_eq!(g.id, 0x7FF);
    assert_eq!(g.len, 1);
}

#[test]
fn mailboxes_are_configured_at_any_controller_base() {
    let base = 0x3000_0000usize;
    assert_eq!(
        configure_rx_mb(base),
        vec![
            RegOp::Write { addr: base + 0x84, value: 0 },
            RegOp::Modify { addr: base + 0x80, mask: MB_CS_CODE_MASK, value: CODE_RX_EMPTY << 24 },
        ]
    );
    assert_eq!(
        configure_tx_mb(base),
        vec![RegOp::Modify { addr: base + 0x90, mask: MB_CS_CODE_MASK, value: CODE_TX_INACTIVE << 24 }]
    );
}

#[test]
fn lost_count_is_overruns_plus_full_queue_refusals() {
    let (mut can, _) = FlexCan1::new();
    // Two overruns reported by the receive buffer.
    can.drain_hw(cs(0x6, 1));
    can.drain_hw(cs(0x6, 1));
    // Eight frames offered to the queue: seven fit, one is refused.
    for i in 0..8u32 {
        can.store_frame(cs(0x2, 1), i << 18, 0, 0);
    }
    assert_eq!(can.dropped(), 3);
    // Reading the count changes nothing.
    assert_eq!(can.dropped(), 3);
    // The seven accepted frames come out in the order they went in.
    let ids: Vec<u32> = (0..7).map(|_| can.pop().unwrap().id).collect();
    assert_eq!(ids, vec![0, 1, 2, 3, 4, 5, 6]);
    assert!(can.pop().is_none());
    assert_eq!(can.dropped(), 3);
}

#[test]
fn init_controller_sequence() {
    let ops = init_controller();
    assert_eq!(ops.len(), 10);
    assert_eq!(ops[0], RegOp::Write { addr: FLEXCAN1_BASE, value: 1 << 31 });
    assert_eq!(ops[2], RegOp::Write { addr: FLEXCAN1_BASE + 0x04, value: CTRL1_1MBIT });
    assert_eq!(ops[7], RegOp::Write { addr: FLEXCAN1_BASE + 0x44, value: 3 });
    assert_eq!(ops[9], RegOp::WaitClear { addr: FLEXCAN1_BASE, mask: 1 << 29 });
}

#[test]
fn pinmux_routes_spdif_pads() {
    assert_eq!(
        pinmux_can1(),
        vec![
            RegOp::Write { addr: IOMUXC_BASE + 0x0A4, value: 2 },
            RegOp::Write { addr: IOMUXC_BASE + 0x314, value: 0x154 },
            RegOp::Write { addr: IOMUXC_BASE + 0x0A0, value: 2 },
            RegOp::Write { addr: IOMUXC_BASE + 0x310, value: 0x154 },
        ]
    );
    assert_eq!(mux_pad(1, 2, 3, 4).len(), 2);
}

#[test]
fn mailbox_code_update() {
    let word = 0xFFFF_FFFF;
    assert_eq!(mb_code(word), 0xF);
    let op = mb_set_code(RX_MB_ADDR, CODE_RX_EMPTY);
    if let RegOp::Modify { addr, mask, value } = op {
        assert_eq!(addr, RX_MB_ADDR);
        let after = modify(word, mask, value);
        assert_eq!(mb_code(after), CODE_RX_EMPTY);
        assert_eq!(after & !MB_CS_CODE_MASK, word & !MB_CS_CODE_MASK);
    } else {
        panic!("expected a read-modify-write");
    }
}

#[test]
fn unpack_reads_big_endian_words() {
    let f = unpack_frame(cs(0x2, 5), 0x123 << 18, 0x0102_0304, 0x0506_0708);
    assert_eq!(f.id, 0x123);
    assert_eq!(f.len, 5);
    assert_eq!(f.data, [1, 2, 3, 4, 5, 0, 0, 0]);
}

#[test]
fn transmit_layout_reads_back() {
    let (can, _) = FlexCan1::new();
    let payload = [0xDE, 0xAD, 0xBE, 0xEF, 0x42];
    let ops = can.tx_load(0x080, &payload);
    let words = pack_payload(&payload);
    assert_eq!(words, [0xDEAD_BEEF, 0x4200_0000]);
    assert_eq!(
        ops,
        [
            RegOp::Write { addr: TX_MB_ADDR + 0x04, value: 0x080 << 18 },
            RegOp::Write { addr: TX_MB_ADDR + 0x08, value: 0xDEAD_BEEF },
            RegOp::Write { addr: TX_MB_ADDR + 0x0C, value: 0x4200_0000 },
            RegOp::Write { addr: TX_MB_ADDR, value: (0xC << 24) | (5 << 16) },
        ]
    );
    // The receive-side layout reads the same frame back.
    let f = unpack_frame((0x2 << 24) | (5 << 16), 0x080 << 18, words[0], words[1]);
    assert_eq!(f.id, 0x080);
    assert_eq!(&f.data[..f.len], &payload);
}

#[test]
fn transmit_truncates_to_eight_bytes() {
    let (can, _) = FlexCan1::new();
    let ops = can.tx_load(1, &[1, 2, 3, 4, 5, 6, 7, 8, 9, 10]);
    assert_eq!(ops[3], RegOp::Write { addr: TX_MB_ADDR, value: (0xC << 24) | (8 << 16) });
    assert_eq!(ops[2], RegOp::Write { addr: TX_MB_ADDR + 0x0C, value: 0x0506_0708 });
}

#[test]
fn receive_queue_is_fifo_and_drops_newest_when_full() {
    let (mut can, _) = FlexCan1::new();
    assert!(can.pop().is_none());
    for i in 0..7u32 {
        assert_eq!(can.drain_hw(cs(0x2, 1)), RxLatch::ReadFrame);
        can.store_frame(cs(0x2, 1), i << 18, i << 24, 0);
    }
    assert_eq!(can.dropped(), 0);
    // The queue holds seven frames; the eighth is lost.
    can.store_frame(cs(0x2, 1), 99 << 18, 0, 0);
    assert_eq!(can.dropped(), 1);
    for i in 0..7u32 {
        let f = can.pop().unwrap();
        assert_eq!(f.id, i);
        assert_eq!(f.data[0], i as u8);
    }
    assert!(can.pop().is_none());
    // Space again after draining; the ring wraps around.
    for round in 0..20u32 {
        can.store_frame(cs(0x2, 0), round << 18, 0, 0);
        assert_eq!(can.pop().unwrap().id, round);
    }
}

#[test]
fn drain_classifies_the_mailbox() {
    let (mut can, _) = FlexCan1::new();
    assert_eq!(can.drain_hw(cs(CODE_RX_EMPTY, 8)), RxLatch::Release);
    assert_eq!(can.dropped(), 0);
    // Overrun: the newest frame is read and one loss is counted.
    assert_eq!(can.drain_hw(cs(0x6, 8)), RxLatch::ReadFrame);
    assert_eq!(can.dropped(), 1);
    // Extended-ID frames are released, not read.
    assert_eq!(can.drain_hw(cs(0x2, 8) | (1 << 21)), RxLatch::Release);
    assert!(rx_pending(1));
    assert!(!rx_pending(2));
    assert_eq!(rx_release().len(), 2);
}

#[test]
fn transmit_completion_helpers() {
    assert!(tx_mailbox_idle(CODE_TX_INACTIVE << 24));
    assert!(!tx_mailbox_idle(0xC << 24));
    assert!(tx_complete(2));
    assert!(!tx_complete(1));
    assert_eq!(tx_finish().len(), 2);
    assert_eq!(
        tx_abort(),
        RegOp::Modify { addr: TX_MB_ADDR, mask: MB_CS_CODE_MASK, value: CODE_TX_INACTIVE << 24 }
    );
}

#[test]
fn spin_is_bounded() {
    assert_eq!(spin_until(0, true), Poll::Holds);
    assert_eq!(spin_until(0, false), Poll::Retry);
    assert_eq!(spin_until(TX_TIMEOUT_SPINS - 1, false), Poll::TimedOut);
    assert_eq!(spin_until(TX_TIMEOUT_SPINS - 1, true), Poll::Holds);
}

#[test]
fn modify_keeps_bits_outside_the_mask() {
    assert_eq!(modify(0xFFFF_0000, 0x00FF_0000, 0x0012_3456), 0xFF12_0000);
    assert_eq!(modify(0x1234_5678, 0, 0xFFFF_FFFF), 0x1234_5678);
}

#[test]
fn new_brings_up_the_controller() {
    let (can, ops) = FlexCan1::new();
    let mut expected = pinmux_can1();
    expected.extend(init_controller());
    assert_eq!(ops, expected);
    assert_eq!(ops.len(), 4 + init_controller().len());
    assert_eq!(can.dropped(), 0);
}

#[test]
fn transmit_gives_up_on_a_wedged_buffer_and_aborts_an_unacknowledged_frame() {
    let (mut can, _) = FlexCan1::new();
    // The transmit buffer never reads idle: the last allowed poll ends the
    // transmission with no write at all.
    let last = TX_TIMEOUT_SPINS - 1;
    let (p, next) = can.transmit(0x080, &[1], TxPhase::WaitIdle(last), CODE_TX_DATA << 24);
    assert_eq!((p, next), (Program::Empty, None));
    // The frame went out but was never acknowledged: it is aborted.
    let (p, next) = can.transmit(0x080, &[1], TxPhase::WaitDone(last), 0);
    assert_eq!((p, next), (Program::One(tx_abort()), None));
    // Before the bound, the machine keeps polling.
    let (p, next) = can.transmit(0x080, &[1], TxPhase::WaitDone(3), 0);
    assert_eq!((p, next), (Program::Empty, Some(TxPhase::WaitDone(4))));
}

#[test]
fn transmit_drains_the_receive_buffer_first() {
    let (mut can, _) = FlexCan1::new();
    let start = TxPhase::Drain(DrainPhase::Flag);
    assert_eq!(tx_addr(start), FLEXCAN1_BASE + 0x48);
    let (_, next) = can.transmit(0x080, &[1], start, 1);
    assert_eq!(next, Some(TxPhase::Drain(DrainPhase::Latch)));
    assert_eq!(tx_addr(next.unwrap()), RX_MB_ADDR);
    // An empty receive buffer is re-armed, then the transmit buffer is polled.
    let (p, next) = can.transmit(0x080, &[1], next.unwrap(), CODE_RX_EMPTY << 24);
    assert_eq!(p, Program::Pair(rx_release()));
    assert_eq!(next, Some(TxPhase::WaitIdle(0)));
    assert_eq!(tx_addr(next.unwrap()), TX_MB_ADDR);
    // An overrun frame read during the drain is queued and counted.
    let cs = cs(0x6, 1);
    let mut phase = TxPhase::Drain(DrainPhase::Flag);
    for value in [1, cs, 0x055 << 18, 0x7700_0000, 0] {
        phase = can.transmit(0x080, &[1], phase, value).1.unwrap();
    }
    assert_eq!(phase, TxPhase::WaitIdle(0));
    assert_eq!(can.dropped(), 1);
    assert_eq!(can.pop().unwrap().id, 0x055);
}
