use sigma_racer_sidearm::hw::mu::{doorbell, kick_host, Kick, KICK_TIMEOUT_SPINS, MU_CSR_TE, MU_TR0};
use sigma_racer_sidearm::hw::reg::RegOp;
use sigma_racer_sidearm::hw::rpmsg::{announce_endpoint, frame_op, write_rpmsg_frame, RpmsgTx, POOL_BASE};
use sigma_racer_sidearm::hw::rsc_table::{vring0_da, vring1_da, ADDR_ANY, TABLE_LEN};
use sigma_racer_sidearm::hw::ENDPOINT_NAME;

#[test]
fn frame_layout() {
    let ops = write_rpmsg_frame(0x1000, &[0xAB, 0xCD]);
    assert_eq!(
        ops,
        vec![
            RegOp::Write { addr: 0x1000, value: 0x4000_0001 },
            RegOp::Write { addr: 0x1004, value: 0x400 },
            RegOp::Write { addr: 0x1008, value: 0 },
            RegOp::Write { addr: 0x100C, value: 2 },
            RegOp::Write { addr: 0x100E, value: 0 },
            RegOp::Write { addr: 0x1010, value: 0xAB },
            RegOp::Write { addr: 0x1011, value: 0xCD },
        ]
    );
}

#[test]
fn announce_uses_last_slot_and_nul_terminated_name() {
    let ops = announce_endpoint();
    let base = (POOL_BASE + 512 * 7) as usize;
    assert_eq!(ops.len(), 5 + ENDPOINT_NAME.len() + 1);
    assert_eq!(ops[0], RegOp::Write { addr: base, value: 0x4000_0001 });
    assert_eq!(ops[3], RegOp::Write { addr: base + 12, value: 17 });
    for (i, b) in ENDPOINT_NAME.bytes().enumerate() {
        assert_eq!(ops[5 + i], RegOp::Write { addr: base + 16 + i, value: b as u32 });
    }
    assert_eq!(ops[5 + 16], RegOp::Write { addr: base + 32, value: 0 });
}

#[test]
fn transport_comes_up_only_with_assigned_vrings() {
    let mut tx = RpmsgTx::new();
    assert!(!tx.ready());
    assert_eq!(tx.send(ADDR_ANY, ADDR_ANY, &[1, 2, 3]), (false, None));
    assert!(!tx.ready());
    assert!(!tx.init(ADDR_ANY, 0x5500_0000));
    assert!(!tx.init(0x5500_0000, ADDR_ANY));
    assert!(!tx.ready());
    assert!(tx.init(0x5500_0000, 0x5500_8000));
    assert!(tx.ready());
    // Bring-up happens once.
    assert!(!tx.init(0x5500_0000, 0x5500_8000));
}

#[test]
fn send_uses_slots_in_turn_and_counts() {
    let mut tx = RpmsgTx::new();
    tx.init(1, 2);
    assert_eq!(tx.sequence(), 0);
    for k in 0..10u32 {
        let (started, base) = tx.send(1, 2, &[7]);
        assert!(!started);
        let base = base.unwrap();
        let slot = k % 8;
        assert_eq!(base, POOL_BASE + slot * 512);
        assert_eq!(frame_op(base, &[7], 0), RegOp::Write { addr: (POOL_BASE + slot * 512) as usize, value: 0x4000_0001 });
        tx.delivered();
    }
    assert_eq!(tx.sequence(), 10);
    // A datagram must fit a 512-byte slot with its 16-byte header.
    assert!(tx.send(1, 2, &[0u8; 496]).1.is_some());
    assert!(tx.send(1, 2, &[0u8; 497]).1.is_none());
    assert!(tx.slot() < 8);
}

#[test]
fn kick_waits_a_bounded_number_of_polls() {
    assert_eq!(kick_host(0, MU_CSR_TE), Kick::Ring);
    assert_eq!(kick_host(0, 0), Kick::Wait(1));
    assert_eq!(kick_host(KICK_TIMEOUT_SPINS - 2, 0), Kick::Wait(KICK_TIMEOUT_SPINS - 1));
    assert_eq!(kick_host(KICK_TIMEOUT_SPINS - 1, 0), Kick::GiveUp);
    assert_eq!(doorbell(), RegOp::Write { addr: MU_TR0, value: 0 });
}

#[test]
fn vring_addresses_are_read_little_endian() {
    let mut table = [0u8; TABLE_LEN as usize];
    table[72..76].copy_from_slice(&0x5500_0000u32.to_le_bytes());
    table[92..96].copy_from_slice(&ADDR_ANY.to_le_bytes());
    assert_eq!(vring0_da(&table), 0x5500_0000);
    assert_eq!(vring1_da(&table), ADDR_ANY);
}

#[test]
fn sequence_wraps_after_many_deliveries() {
    let mut tx = RpmsgTx::new();
    tx.init(1, 2);
    for _ in 0..70_000u32 {
        tx.delivered();
    }
    assert_eq!(tx.sequence(), (70_000u32 % 65_536) as u16);
    // The next datagram goes to slot 70000 mod 8.
    let base = tx.send(1, 2, &[1]).1.unwrap();
    let ops: Vec<RegOp> = (0..6).map(|k| frame_op(base, &[1], k)).collect();
    assert_eq!(ops[0], RegOp::Write { addr: (POOL_BASE + (70_000 % 8) * 512) as usize, value: 0x4000_0001 });
}

#[test]
fn send_retries_bring_up_first() {
    let mut tx = RpmsgTx::new();
    // The host has not assigned the vrings yet: nothing is sent.
    assert_eq!(tx.send(ADDR_ANY, 0x5500_8000, &[9]), (false, None));
    // Once it has, the first send brings the transport up and sends.
    let (started, ops) = tx.send(0x5500_0000, 0x5500_8000, &[9]);
    assert!(started);
    assert!(tx.ready());
    assert_eq!(ops, Some(POOL_BASE));
    // Bring-up happens once.
    assert!(!tx.send(0x5500_0000, 0x5500_8000, &[9]).0);
    assert_eq!(tx.slot(), 0);
}

#[test]
fn frame_ops_one_at_a_time_match_the_whole_frame() {
    let payload = [0xAB, 0xCD, 0xEF];
    let whole = write_rpmsg_frame(0x1000, &payload);
    let one_by_one: Vec<RegOp> = (0..5 + payload.len()).map(|k| frame_op(0x1000, &payload, k)).collect();
    assert_eq!(whole, one_by_one);
}
