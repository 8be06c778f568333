//! RPMsg wire format for [`M7Signals`] snapshots (M7 → Linux).
//!
//! Fixed little-endian layout, versioned, allocation-free encode/decode.

use vstd::prelude::*;

use crate::performance_mode::{spec_mode_from_raw, spec_mode_raw, PerformanceMode};
use crate::signals::M7Signals;

verus! {

/// Magic `b"M7SG"`.
pub const MAGIC: u32 = 0x4D37_5347;

/// Current wire revision.
pub const VERSION: u16 = 1;

/// Header size in bytes: MAGIC (4) + VERSION (2) + seq (2).
pub const HEADER_LEN: usize = 8;

/// Total wire packet length: [`HEADER_LEN`] header + fixed signal body.
///
/// A single constant used by both [`encode`] and [`decode`] so their length
/// contracts can never drift.
pub const PACKET_LEN: usize = 60;

/// Little-endian bytes of a `u16`.
pub open spec fn le16(x: u16) -> Seq<u8> {
    seq![x as u8, (x >> 8u16) as u8]
}

/// Little-endian bytes of a `u32`.
pub open spec fn le32(x: u32) -> Seq<u8> {
    seq![x as u8, (x >> 8u32) as u8, (x >> 16u32) as u8, (x >> 24u32) as u8]
}

/// The wire byte of a flag.
pub open spec fn flag_byte(b: bool) -> u8 {
    if b {
        1
    } else {
        0
    }
}

/// The little-endian `u16` starting at byte `i` of `b`.
pub open spec fn get_u16(b: Seq<u8>, i: int) -> u16 {
    (b[i] as u16) | ((b[i + 1] as u16) << 8u16)
}

/// The little-endian `u32` starting at byte `i` of `b`.
pub open spec fn get_u32(b: Seq<u8>, i: int) -> u32 {
    (b[i] as u32) | ((b[i + 1] as u32) << 8u32) | ((b[i + 2] as u32) << 16u32) | ((b[i + 3] as u32)
        << 24u32)
}

/// The 60-byte packet that carries `s` with sequence number `seq`.
pub open spec fn packet_bytes(seq: u16, s: M7Signals) -> Seq<u8> {
    le32(MAGIC) + le16(VERSION) + le16(seq) + le32(s.engine_rpm) + le16(s.coolant_c as u16) + le16(
        s.oil_c as u16,
    ) + seq![flag_byte(s.redline)] + le32(s.throttle_pct) + seq![
        s.gear as u8,
        spec_mode_raw(s.performance_mode),
        flag_byte(s.side_stand),
    ] + le32(s.ground_speed) + le32(s.lean_angle) + le32(s.long_accel) + le32(s.fuel_pct) + le32(
        s.battery_v,
    ) + seq![s.can_load, flag_byte(s.abs_active), flag_byte(s.tc_active), s.dtc_count] + le32(
        s.odometer,
    ) + le32(s.trip1) + le32(s.trip2)
}

/// Whether `b` holds a whole packet with the expected magic and version.
pub open spec fn packet_accepted(b: Seq<u8>) -> bool {
    &&& b.len() >= PACKET_LEN
    &&& get_u32(b, 0) == MAGIC
    &&& get_u16(b, 4) == VERSION
}

/// The sequence number a packet carries.
pub open spec fn packet_seq(b: Seq<u8>) -> u16 {
    get_u16(b, 6)
}

/// The snapshot a packet carries.
pub open spec fn packet_signals(b: Seq<u8>) -> M7Signals {
    M7Signals {
        engine_rpm: get_u32(b, 8),
        coolant_c: get_u16(b, 12) as i16,
        oil_c: get_u16(b, 14) as i16,
        redline: b[16] != 0,
        throttle_pct: get_u32(b, 17),
        gear: b[21] as i8,
        performance_mode: spec_mode_from_raw(b[22]),
        side_stand: b[23] != 0,
        ground_speed: get_u32(b, 24),
        lean_angle: get_u32(b, 28),
        long_accel: get_u32(b, 32),
        fuel_pct: get_u32(b, 36),
        battery_v: get_u32(b, 40),
        can_load: b[44],
        abs_active: b[45] != 0,
        tc_active: b[46] != 0,
        dtc_count: b[47],
        odometer: get_u32(b, 48),
        trip1: get_u32(b, 52),
        trip2: get_u32(b, 56),
    }
}

/// The packet spelled out byte by byte.
spec fn packet_flat(seq: u16, s: M7Signals) -> Seq<u8> {
    let m = le32(MAGIC);
    let v = le16(VERSION);
    let q = le16(seq);
    let rpm = le32(s.engine_rpm);
    let cool = le16(s.coolant_c as u16);
    let oil = le16(s.oil_c as u16);
    let thr = le32(s.throttle_pct);
    let gs = le32(s.ground_speed);
    let lean = le32(s.lean_angle);
    let acc = le32(s.long_accel);
    let fuel = le32(s.fuel_pct);
    let bat = le32(s.battery_v);
    let odo = le32(s.odometer);
    let t1 = le32(s.trip1);
    let t2 = le32(s.trip2);
    seq![
        m[0], m[1], m[2], m[3], v[0], v[1], q[0], q[1], rpm[0], rpm[1], rpm[2], rpm[3],
        cool[0], cool[1], oil[0], oil[1], flag_byte(s.redline), thr[0], thr[1], thr[2], thr[3],
        s.gear as u8, spec_mode_raw(s.performance_mode), flag_byte(s.side_stand),
        gs[0], gs[1], gs[2], gs[3], lean[0], lean[1], lean[2], lean[3],
        acc[0], acc[1], acc[2], acc[3], fuel[0], fuel[1], fuel[2], fuel[3],
        bat[0], bat[1], bat[2], bat[3], s.can_load, flag_byte(s.abs_active),
        flag_byte(s.tc_active), s.dtc_count, odo[0], odo[1], odo[2], odo[3],
        t1[0], t1[1], t1[2], t1[3], t2[0], t2[1], t2[2], t2[3],
    ]
}

proof fn lemma_packet_flat(seq: u16, s: M7Signals)
    ensures
        packet_bytes(seq, s) == packet_flat(seq, s),
{
    assert(packet_bytes(seq, s) =~= packet_flat(seq, s));
}

proof fn lemma_get_u16(b: Seq<u8>, i: int, x: u16)
    requires
        0 <= i,
        i + 2 <= b.len(),
        b[i] == x as u8,
        b[i + 1] == (x >> 8u16) as u8,
    ensures
        get_u16(b, i) == x,
{
    let b0 = b[i];
    let b1 = b[i + 1];
    assert(b0 == x as u8 && b1 == (x >> 8u16) as u8 ==> ((b0 as u16) | ((b1 as u16) << 8u16))
        == x) by (bit_vector);
}

proof fn lemma_get_u32(b: Seq<u8>, i: int, x: u32)
    requires
        0 <= i,
        i + 4 <= b.len(),
        b[i] == x as u8,
        b[i + 1] == (x >> 8u32) as u8,
        b[i + 2] == (x >> 16u32) as u8,
        b[i + 3] == (x >> 24u32) as u8,
    ensures
        get_u32(b, i) == x,
{
    let b0 = b[i];
    let b1 = b[i + 1];
    let b2 = b[i + 2];
    let b3 = b[i + 3];
    assert(b0 == x as u8 && b1 == (x >> 8u32) as u8 && b2 == (x >> 16u32) as u8 && b3 == (x
        >> 24u32) as u8 ==> ((b0 as u32) | ((b1 as u32) << 8u32) | ((b2 as u32) << 16u32) | ((
    b3 as u32) << 24u32)) == x) by (bit_vector);
}

proof fn lemma_i16_bits(x: i16)
    ensures
        (x as u16) as i16 == x,
{
    assert((x as u16) as i16 == x) by (bit_vector);
}

proof fn lemma_i8_bits(x: i8)
    ensures
        (x as u8) as i8 == x,
{
    assert((x as u8) as i8 == x) by (bit_vector);
}

/// A packet is exactly [`PACKET_LEN`] bytes long.
pub proof fn law_packet_len(seq: u16, s: M7Signals)
    ensures
        packet_bytes(seq, s).len() == PACKET_LEN,
{
}

/// Decoding gives back exactly what encoding wrote: the snapshot, bit for bit,
/// and the sequence number, whatever bytes follow the packet in the buffer.
pub proof fn law_wire_round_trip(seq: u16, s: M7Signals, rest: Seq<u8>)
    ensures
        packet_accepted(packet_bytes(seq, s) + rest),
        packet_seq(packet_bytes(seq, s) + rest) == seq,
        packet_signals(packet_bytes(seq, s) + rest) == s,
{
    let p = packet_bytes(seq, s);
    let b = p + rest;
    lemma_packet_flat(seq, s);
    assert forall|i: int| 0 <= i < PACKET_LEN implies b[i] == p[i] by {}
    assert(b.len() >= PACKET_LEN);
    lemma_get_u32(b, 0, MAGIC);
    lemma_get_u16(b, 4, VERSION);
    lemma_get_u16(b, 6, seq);
    lemma_get_u32(b, 8, s.engine_rpm);
    lemma_get_u16(b, 12, s.coolant_c as u16);
    lemma_get_u16(b, 14, s.oil_c as u16);
    lemma_i16_bits(s.coolant_c);
    lemma_i16_bits(s.oil_c);
    lemma_get_u32(b, 17, s.throttle_pct);
    lemma_i8_bits(s.gear);
    lemma_get_u32(b, 24, s.ground_speed);
    lemma_get_u32(b, 28, s.lean_angle);
    lemma_get_u32(b, 32, s.long_accel);
    lemma_get_u32(b, 36, s.fuel_pct);
    lemma_get_u32(b, 40, s.battery_v);
    lemma_get_u32(b, 48, s.odometer);
    lemma_get_u32(b, 52, s.trip1);
    lemma_get_u32(b, 56, s.trip2);
    assert(packet_signals(b) == s);
}

/// Multi-byte fields are read little-endian: the byte at the lowest offset is
/// the least significant.
pub proof fn law_le_reads(b: Seq<u8>, i: int)
    requires
        0 <= i,
        i + 4 <= b.len(),
    ensures
        get_u16(b, i) == b[i] + 256 * b[i + 1],
        get_u32(b, i) == b[i] + 256 * b[i + 1] + 65536 * b[i + 2] + 16777216 * b[i + 3],
{
    let b0 = b[i];
    let b1 = b[i + 1];
    let b2 = b[i + 2];
    let b3 = b[i + 3];
    assert(((b0 as u16) | ((b1 as u16) << 8u16)) == b0 + 256 * b1) by (bit_vector);
    assert(((b0 as u32) | ((b1 as u32) << 8u32) | ((b2 as u32) << 16u32) | ((b3 as u32) << 24u32))
        == b0 + 256 * b1 + 65536 * b2 + 16777216 * b3) by (bit_vector);
}

/// The documented packet layout: every field sits at its fixed byte offset.
/// Bytes 0..4 hold the magic (`47 53 37 4D`), 4..6 the version, 6..8 the
/// sequence number, 8..12 the engine speed, 12..14 the coolant and 14..16 the
/// oil temperature, 16 the redline flag, 17..21 the throttle, 21 the gear, 22
/// the ride mode's raw value, 23 the side-stand flag, 24..28 ground speed,
/// 28..32 lean angle, 32..36 longitudinal acceleration, 36..40 fuel level,
/// 40..44 battery voltage, 44 bus load, 45 and 46 the ABS and TC flags, 47 the
/// trouble-code count, and 48..52, 52..56, 56..60 the odometer and trip meters.
pub proof fn law_packet_layout(seq: u16, s: M7Signals)
    ensures
        ({
            let p = packet_bytes(seq, s);
            &&& p.len() == 60
            &&& p[0] == 0x47 && p[1] == 0x53 && p[2] == 0x37 && p[3] == 0x4D
            &&& p[4] == 1 && p[5] == 0
            &&& get_u16(p, 6) == seq
            &&& get_u32(p, 8) == s.engine_rpm
            &&& get_u16(p, 12) == s.coolant_c as u16
            &&& get_u16(p, 14) == s.oil_c as u16
            &&& p[16] == (if s.redline { 1u8 } else { 0u8 })
            &&& get_u32(p, 17) == s.throttle_pct
            &&& p[21] == s.gear as u8
            &&& p[22] == spec_mode_raw(s.performance_mode)
            &&& p[23] == (if s.side_stand { 1u8 } else { 0u8 })
            &&& get_u32(p, 24) == s.ground_speed
            &&& get_u32(p, 28) == s.lean_angle
            &&& get_u32(p, 32) == s.long_accel
            &&& get_u32(p, 36) == s.fuel_pct
            &&& get_u32(p, 40) == s.battery_v
            &&& p[44] == s.can_load
            &&& p[45] == (if s.abs_active { 1u8 } else { 0u8 })
            &&& p[46] == (if s.tc_active { 1u8 } else { 0u8 })
            &&& p[47] == s.dtc_count
            &&& get_u32(p, 48) == s.odometer
            &&& get_u32(p, 52) == s.trip1
            &&& get_u32(p, 56) == s.trip2
        }),
{
    lemma_packet_flat(seq, s);
    lemma_layout_head(seq, s);
    lemma_layout_tail(seq, s);
}

proof fn lemma_layout_head(seq: u16, s: M7Signals)
    ensures
        ({
            let p = packet_flat(seq, s);
            &&& p.len() == 60
            &&& p[0] == 0x47 && p[1] == 0x53 && p[2] == 0x37 && p[3] == 0x4D
            &&& p[4] == 1 && p[5] == 0
            &&& get_u16(p, 6) == seq
            &&& get_u32(p, 8) == s.engine_rpm
            &&& get_u16(p, 12) == s.coolant_c as u16
            &&& get_u16(p, 14) == s.oil_c as u16
            &&& p[16] == (if s.redline { 1u8 } else { 0u8 })
            &&& get_u32(p, 17) == s.throttle_pct
            &&& p[21] == s.gear as u8
            &&& p[22] == spec_mode_raw(s.performance_mode)
            &&& p[23] == (if s.side_stand { 1u8 } else { 0u8 })
        }),
{
    let p = packet_flat(seq, s);
    let m = MAGIC;
    assert(m as u8 == 0x47 && (m >> 8u32) as u8 == 0x53 && (m >> 16u32) as u8 == 0x37 && (m
        >> 24u32) as u8 == 0x4D) by (bit_vector)
        requires
            m == 0x4D37_5347u32,
    ;
    let v = VERSION;
    assert(v as u8 == 1 && (v >> 8u16) as u8 == 0) by (bit_vector)
        requires
            v == 1u16,
    ;
    lemma_get_u16(p, 6, seq);
    lemma_get_u32(p, 8, s.engine_rpm);
    lemma_get_u16(p, 12, s.coolant_c as u16);
    lemma_get_u16(p, 14, s.oil_c as u16);
    lemma_get_u32(p, 17, s.throttle_pct);
}

proof fn lemma_layout_tail(seq: u16, s: M7Signals)
    ensures
        ({
            let p = packet_flat(seq, s);
            &&& get_u32(p, 24) == s.ground_speed
            &&& get_u32(p, 28) == s.lean_angle
            &&& get_u32(p, 32) == s.long_accel
            &&& get_u32(p, 36) == s.fuel_pct
            &&& get_u32(p, 40) == s.battery_v
            &&& p[44] == s.can_load
            &&& p[45] == (if s.abs_active { 1u8 } else { 0u8 })
            &&& p[46] == (if s.tc_active { 1u8 } else { 0u8 })
            &&& p[47] == s.dtc_count
            &&& get_u32(p, 48) == s.odometer
            &&& get_u32(p, 52) == s.trip1
            &&& get_u32(p, 56) == s.trip2
        }),
{
    let p = packet_flat(seq, s);
    lemma_get_u32(p, 24, s.ground_speed);
    lemma_get_u32(p, 28, s.lean_angle);
    lemma_get_u32(p, 32, s.long_accel);
    lemma_get_u32(p, 36, s.fuel_pct);
    lemma_get_u32(p, 40, s.battery_v);
    lemma_get_u32(p, 48, s.odometer);
    lemma_get_u32(p, 52, s.trip1);
    lemma_get_u32(p, 56, s.trip2);
}

/// Decoding reads every field from its fixed byte offset (see
/// [`law_packet_layout`]): the coolant temperature from bytes 12..14, the oil
/// temperature from 14..16, and so on; flags are set by any nonzero byte.
pub proof fn law_decode_layout(b: Seq<u8>)
    requires
        b.len() >= 60,
    ensures
        ({
            let s = packet_signals(b);
            &&& packet_accepted(b) == (get_u32(b, 0) == 0x4D37_5347 && get_u16(b, 4) == 1)
            &&& packet_seq(b) == get_u16(b, 6)
            &&& s.engine_rpm == get_u32(b, 8)
            &&& s.coolant_c == get_u16(b, 12) as i16
            &&& s.oil_c == get_u16(b, 14) as i16
            &&& s.redline == (b[16] != 0)
            &&& s.throttle_pct == get_u32(b, 17)
            &&& s.gear == b[21] as i8
            &&& s.performance_mode == spec_mode_from_raw(b[22])
            &&& s.side_stand == (b[23] != 0)
            &&& s.ground_speed == get_u32(b, 24)
            &&& s.lean_angle == get_u32(b, 28)
            &&& s.long_accel == get_u32(b, 32)
            &&& s.fuel_pct == get_u32(b, 36)
            &&& s.battery_v == get_u32(b, 40)
            &&& s.can_load == b[44]
            &&& s.abs_active == (b[45] != 0)
            &&& s.tc_active == (b[46] != 0)
            &&& s.dtc_count == b[47]
            &&& s.odometer == get_u32(b, 48)
            &&& s.trip1 == get_u32(b, 52)
            &&& s.trip2 == get_u32(b, 56)
        }),
{
}

/// A buffer shorter than a packet is never accepted.
pub proof fn law_short_buffer_rejected(b: Seq<u8>)
    requires
        b.len() < PACKET_LEN,
    ensures
        !packet_accepted(b),
{
}

fn le16_bytes(x: u16) -> (r: [u8; 2])
    ensures
        r@ == le16(x),
{
    let r = [x as u8, (x >> 8u16) as u8];
    assert(r@ =~= le16(x));
    r
}

fn le32_bytes(x: u32) -> (r: [u8; 4])
    ensures
        r@ == le32(x),
{
    let r = [x as u8, (x >> 8u32) as u8, (x >> 16u32) as u8, (x >> 24u32) as u8];
    assert(r@ =~= le32(x));
    r
}

fn flag(b: bool) -> (r: u8)
    ensures
        r == flag_byte(b),
{
    if b {
        1
    } else {
        0
    }
}

fn read_u16(buf: &[u8], at: usize) -> (r: u16)
    requires
        at + 2 <= buf@.len(),
    ensures
        r == get_u16(buf@, at as int),
{
    (buf[at] as u16) | ((buf[at + 1] as u16) << 8u16)
}

fn read_u32(buf: &[u8], at: usize) -> (r: u32)
    requires
        at + 4 <= buf@.len(),
    ensures
        r == get_u32(buf@, at as int),
{
    (buf[at] as u32) | ((buf[at + 1] as u32) << 8u32) | ((buf[at + 2] as u32) << 16u32) | ((buf[at
        + 3] as u32) << 24u32)
}

/// Serialize `state` into `buf`. Returns bytes written or `None` if `buf` is too small.
pub fn encode(seq: u16, state: &M7Signals, buf: &mut [u8]) -> (r: Option<usize>)
    ensures
        final(buf)@.len() == old(buf)@.len(),
        old(buf)@.len() < PACKET_LEN ==> r is None && final(buf)@ == old(buf)@,
        old(buf)@.len() >= PACKET_LEN ==> r == Some(PACKET_LEN) && final(buf)@ == packet_bytes(
            seq,
            *state,
        ) + old(buf)@.skip(PACKET_LEN as int),
{
    if buf.len() < PACKET_LEN {
        return None;
    }
    let m = le32_bytes(MAGIC);
    let v = le16_bytes(VERSION);
    let q = le16_bytes(seq);
    let rpm = le32_bytes(state.engine_rpm);
    let cool = le16_bytes(state.coolant_c as u16);
    let oil = le16_bytes(state.oil_c as u16);
    let thr = le32_bytes(state.throttle_pct);
    let gs = le32_bytes(state.ground_speed);
    let lean = le32_bytes(state.lean_angle);
    let acc = le32_bytes(state.long_accel);
    let fuel = le32_bytes(state.fuel_pct);
    let bat = le32_bytes(state.battery_v);
    let odo = le32_bytes(state.odometer);
    let t1 = le32_bytes(state.trip1);
    let t2 = le32_bytes(state.trip2);
    let packet: [u8; PACKET_LEN] = [
        m[0],
        m[1],
        m[2],
        m[3],
        v[0],
        v[1],
        q[0],
        q[1],
        rpm[0],
        rpm[1],
        rpm[2],
        rpm[3],
        cool[0],
        cool[1],
        oil[0],
        oil[1],
        flag(state.redline),
        thr[0],
        thr[1],
        thr[2],
        thr[3],
        state.gear as u8,
        state.performance_mode.to_raw(),
        flag(state.side_stand),
        gs[0],
        gs[1],
        gs[2],
        gs[3],
        lean[0],
        lean[1],
        lean[2],
        lean[3],
        acc[0],
        acc[1],
        acc[2],
        acc[3],
        fuel[0],
        fuel[1],
        fuel[2],
        fuel[3],
        bat[0],
        bat[1],
        bat[2],
        bat[3],
        state.can_load,
        flag(state.abs_active),
        flag(state.tc_active),
        state.dtc_count,
        odo[0],
        odo[1],
        odo[2],
        odo[3],
        t1[0],
        t1[1],
        t1[2],
        t1[3],
        t2[0],
        t2[1],
        t2[2],
        t2[3],
    ];
    assert(packet@ =~= packet_bytes(seq, *state));
    let mut i: usize = 0;
    while i < PACKET_LEN
        invariant
            i <= PACKET_LEN,
            buf@.len() == old(buf)@.len(),
            old(buf)@.len() >= PACKET_LEN,
            packet@ == packet_bytes(seq, *state),
            forall|j: int| 0 <= j < i ==> buf@[j] == packet@[j],
            forall|j: int| i <= j < buf@.len() ==> buf@[j] == old(buf)@[j],
        decreases PACKET_LEN - i,
    {
        buf[i] = packet[i];
        i = i + 1;
    }
    assert(buf@ =~= packet_bytes(seq, *state) + old(buf)@.skip(PACKET_LEN as int));
    Some(PACKET_LEN)
}

/// Decode a wire packet into `out`. Returns `None` on bad magic/version/length.
pub fn decode(buf: &[u8], out: &mut M7Signals) -> (r: Option<u16>)
    ensures
        packet_accepted(buf@) ==> r == Some(packet_seq(buf@)) && *final(out) == packet_signals(
            buf@,
        ),
        !packet_accepted(buf@) ==> r is None && *final(out) == *old(out),
{
    if buf.len() < PACKET_LEN {
        return None;
    }
    let magic = read_u32(buf, 0);
    if magic != MAGIC {
        return None;
    }
    let version = read_u16(buf, 4);
    if version != VERSION {
        return None;
    }
    let seq = read_u16(buf, 6);
    out.engine_rpm = read_u32(buf, 8);
    out.coolant_c = read_u16(buf, 12) as i16;
    out.oil_c = read_u16(buf, 14) as i16;
    out.redline = buf[16] != 0;
    out.throttle_pct = read_u32(buf, 17);
    out.gear = buf[21] as i8;
    out.performance_mode = PerformanceMode::from_raw(buf[22]);
    out.side_stand = buf[23] != 0;
    out.ground_speed = read_u32(buf, 24);
    out.lean_angle = read_u32(buf, 28);
    out.long_accel = read_u32(buf, 32);
    out.fuel_pct = read_u32(buf, 36);
    out.battery_v = read_u32(buf, 40);
    out.can_load = buf[44];
    out.abs_active = buf[45] != 0;
    out.tc_active = buf[46] != 0;
    out.dtc_count = buf[47];
    out.odometer = read_u32(buf, 48);
    out.trip1 = read_u32(buf, 52);
    out.trip2 = read_u32(buf, 56);
    Some(seq)
}

} // verus!
