use sigma_racer_sidearm::hw::flexcan::{rx_release, tx_finish, PollNext, DrainPhase, Program, TxPhase, TX_MB_ADDR};
use sigma_racer_sidearm::message::M7_HEARTBEAT;
use sigma_racer_sidearm::hw::reg::RegOp;
use sigma_racer_sidearm::hw::rpmsg::{frame_op, POOL_BASE};
use sigma_racer_sidearm::sidearm::supervisor::{boot, Supervisor};
use sigma_racer_sidearm::sidearm::{
    loop_count, millis_since_kick, service, Frame, Heartbeat, RpmsgLink, SafetyBus,
};
use sigma_racer_sidearm::signals::M7Signals;
use sigma_racer_sidearm::wire::encode;

#[test]
fn frame_truncates_to_eight_bytes() {
    let f = Frame::new(0x0A0, &[1, 2, 3]);
    assert_eq!(f.id, 0x0A0);
    assert_eq!(f.payload(), &[1, 2, 3]);
    let g = Frame::new(0x0C0, &[5; 12]);
    assert_eq!(g.payload(), &[5; 8]);
    assert_eq!(Frame::new(1, &[]).payload(), &[] as &[u8]);
}

#[test]
fn safety_bus_delivers_frames_in_order() {
    let (mut bus, _) = SafetyBus::new();
    assert!(bus.pop().is_none());
    bus.store_frame((0x2 << 24) | (2 << 16), 0x0A0 << 18, 0x1122_0000, 0);
    bus.store_frame((0x2 << 24) | (1 << 16), 0x0C0 << 18, 0x3300_0000, 0);
    let a = bus.pop().unwrap();
    assert_eq!((a.id, a.payload()), (0x0A0, &[0x11, 0x22][..]));
    let b = bus.pop().unwrap();
    assert_eq!((b.id, b.payload()), (0x0C0, &[0x33][..]));
    assert!(bus.pop().is_none());
    assert_eq!(bus.dropped(), 0);
}

#[test]
fn safety_bus_keeps_eight_bytes_of_a_long_length_code() {
    let (mut bus, _) = SafetyBus::new();
    bus.store_frame((0x2 << 24) | (15 << 16), 7 << 18, 0x0102_0304, 0x0506_0708);
    let f = bus.pop().unwrap();
    assert_eq!(f.payload(), &[1, 2, 3, 4, 5, 6, 7, 8]);
}

#[test]
fn heartbeat_every_fourth_tick() {
    let mut hb = Heartbeat::new();
    let mut sent = Vec::new();
    for _ in 0..12 {
        sent.push(hb.tick());
    }
    let emitted: Vec<usize> = (0..12).filter(|i| sent[*i].is_some()).collect();
    assert_eq!(emitted, vec![3, 7, 11]);
    // The third heartbeat carries sequence number 3 in its first byte.
    assert_eq!(sent[11], Some([3, 0, 0, 0, 0, 0, 0, 0]));
}

#[test]
fn heartbeat_goes_out_through_the_bus_transmit_machine() {
    let (mut bus, _) = SafetyBus::new();
    let mut hb = Heartbeat::new();
    for _ in 0..3 {
        assert!(hb.tick().is_none());
    }
    let payload = hb.tick().unwrap();
    // No frame pending in the receive buffer: the drain ends at once.
    let (p, next) = bus.transmit(M7_HEARTBEAT, &payload, TxPhase::Drain(DrainPhase::Flag), 0);
    assert_eq!(p, Program::Empty);
    assert_eq!(next, Some(TxPhase::WaitIdle(0)));
    // The transmit buffer reads busy, then idle: the frame is loaded.
    let (p, next) = bus.transmit(M7_HEARTBEAT, &payload, TxPhase::WaitIdle(0), 0x0C << 24);
    assert_eq!((p, next), (Program::Empty, Some(TxPhase::WaitIdle(1))));
    let (p, next) = bus.transmit(M7_HEARTBEAT, &payload, TxPhase::WaitIdle(1), 0x08 << 24);
    assert_eq!(next, Some(TxPhase::WaitDone(0)));
    match p {
        Program::Quad(ops) => {
            assert_eq!(ops[0], RegOp::Write { addr: TX_MB_ADDR + 0x04, value: 0x080 << 18 });
            assert_eq!(ops[1], RegOp::Write { addr: TX_MB_ADDR + 0x08, value: 0x0100_0000 });
            assert_eq!(ops[3], RegOp::Write { addr: TX_MB_ADDR, value: (0xC << 24) | (8 << 16) });
        }
        other => panic!("expected the frame load, got {:?}", other),
    }
    // Completion flagged: the flag is acknowledged and the buffer idled.
    let (p, next) = bus.transmit(M7_HEARTBEAT, &payload, TxPhase::WaitDone(0), 2);
    assert_eq!(next, None);
    assert_eq!(p, Program::Pair(tx_finish()));
}

#[test]
fn heartbeat_cadence_survives_counter_wrap() {
    let mut hb = Heartbeat::new();
    let mut count = 0;
    for _ in 0..1024 {
        if hb.tick().is_some() {
            count += 1;
        }
    }
    assert_eq!(count, 256);
}

#[test]
fn link_publishes_the_wire_packet() {
    let (mut down, started) = RpmsgLink::new(0xFFFF_FFFF, 0xFFFF_FFFF);
    assert!(!started);
    assert_eq!(down.publish(0xFFFF_FFFF, 0xFFFF_FFFF, &M7Signals::default()), (false, None));
    // Publishing retries bring-up once the host has assigned the vrings.
    let (started, datagram) = down.publish(0x5500_0000, 0x5500_8000, &M7Signals::default());
    assert!(started);
    assert!(datagram.is_some());
    assert!(!down.init(0x5500_0000, 0x5500_8000));

    let (mut link, started) = RpmsgLink::new(0x5500_0000, 0x5500_8000);
    assert!(started);
    let mut s = M7Signals::default();
    s.dtc_count = 4;
    let (base, sent_packet) = link.publish(0x5500_0000, 0x5500_8000, &s).1.unwrap();
    assert_eq!(base, POOL_BASE);
    let ops: Vec<RegOp> = (0..65).map(|k| frame_op(base, &sent_packet, k)).collect();
    let mut packet = [0u8; 60];
    encode(0, &s, &mut packet).unwrap();
    assert_eq!(ops.len(), 5 + 60);
    assert_eq!(ops[3], RegOp::Write { addr: POOL_BASE as usize + 12, value: 60 });
    for (i, b) in packet.iter().enumerate() {
        assert_eq!(ops[5 + i], RegOp::Write { addr: POOL_BASE as usize + 16 + i, value: *b as u32 });
    }
    link.delivered();
    // The next snapshot goes to the next slot with the next sequence number.
    let (base, sent_packet) = link.publish(0x5500_0000, 0x5500_8000, &s).1.unwrap();
    let ops: Vec<RegOp> = (0..65).map(|k| frame_op(base, &sent_packet, k)).collect();
    assert_eq!(ops[0], RegOp::Write { addr: POOL_BASE as usize + 512, value: 0x4000_0001 });
    assert_eq!(ops[5 + 6], RegOp::Write { addr: POOL_BASE as usize + 512 + 22, value: 1 });
}

#[test]
fn supervisor_bookkeeping() {
    let mut s: Supervisor = boot();
    assert_eq!(loop_count(&s), 0);
    service(&mut s, 1_000);
    service(&mut s, 1_005);
    assert_eq!(loop_count(&s), 2);
    assert_eq!(millis_since_kick(&s, 1_025), 20);
    assert_eq!(millis_since_kick(&s, 1_000), 0);
    // The millisecond clock is kept to 32 bits.
    service(&mut s, (1u64 << 32) + 7);
    assert_eq!(s.last_kick_ms, 7);
    let mut wrap = Supervisor { loop_count: u32::MAX, last_kick_ms: 0 };
    service(&mut wrap, 0);
    assert_eq!(loop_count(&wrap), 0);
}

#[test]
fn loop_count_after_many_services() {
    let mut s: Supervisor = boot();
    for k in 0..1000u64 {
        service(&mut s, 5 * k);
    }
    assert_eq!(loop_count(&s), 1000);
    assert_eq!(loop_count(&s), 1000);
    assert_eq!(s.last_kick_ms, 4995);
}

#[test]
fn heartbeat_sequence_over_many_ticks() {
    let mut hb = Heartbeat::new();
    let mut sent = 0u32;
    for n in 1..=2000u32 {
        if let Some(payload) = hb.tick() {
            sent += 1;
            assert_eq!(n % 4, 0);
            // The k-th heartbeat carries k mod 256 in its first byte.
            assert_eq!(payload, [(sent % 256) as u8, 0, 0, 0, 0, 0, 0, 0]);
        }
    }
    assert_eq!(sent, 500);
}

#[test]
fn safety_bus_poll_drains_then_hands_out_the_frame() {
    let (mut bus, _) = SafetyBus::new();
    // IFLAG1 flags the receive buffer; it holds a 2-byte standard frame.
    let (p, next) = bus.poll(DrainPhase::Flag, 1);
    assert_eq!(p, Program::Empty);
    assert_eq!(read_phase(next), DrainPhase::Latch);
    let cs = (0x2 << 24) | (2 << 16);
    let (_, next) = bus.poll(DrainPhase::Latch, cs);
    assert_eq!(read_phase(next), DrainPhase::IdWord(cs));
    let (_, next) = bus.poll(DrainPhase::IdWord(cs), 0x0A0 << 18);
    assert_eq!(read_phase(next), DrainPhase::Word0(cs, 0x0A0 << 18));
    let (_, next) = bus.poll(DrainPhase::Word0(cs, 0x0A0 << 18), 0x1122_0000);
    assert_eq!(read_phase(next), DrainPhase::Word1(cs, 0x0A0 << 18, 0x1122_0000));
    let (p, next) = bus.poll(DrainPhase::Word1(cs, 0x0A0 << 18, 0x1122_0000), 0);
    assert_eq!(p, Program::Pair(rx_release()));
    match next {
        PollNext::Done(Some(f)) => assert_eq!((f.id, f.payload()), (0x0A0, &[0x11, 0x22][..])),
        other => panic!("expected a frame, got {:?}", other),
    }
    // Nothing flagged and nothing queued: no frame.
    let (p, next) = bus.poll(DrainPhase::Flag, 0);
    assert_eq!(p, Program::Empty);
    assert!(matches!(next, PollNext::Done(None)));
}

fn read_phase(next: PollNext<Frame>) -> DrainPhase {
    match next {
        PollNext::Read(phase) => phase,
        PollNext::Done(_) => panic!("the drain ended early"),
    }
}
