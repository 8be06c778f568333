//! Minimal virtio RPMsg TX path for imx8mp remoteproc.
//!
//! Enough to announce the `sigma-m7-signals` endpoint and push fixed-size
//! datagrams to Linux. RX / name-service replies are not required for the
//! one-way M7 → vehicle snapshot stream.

use vstd::prelude::*;
use vstd::string::StringSliceAdditionalSpecFns;

use super::reg::RegOp;
use super::rsc_table::ADDR_ANY;

verus! {

/// RPMsg header prefix on every datagram.
pub const RPMSG_HDR_LEN: usize = 16;

/// Endpoint name announced to Linux `rpmsg_ns`.
pub const ENDPOINT_NAME: &'static str = "sigma-m7-signals";

/// Longest endpoint name the name-service message carries.
pub const ENDPOINT_NAME_MAX: usize = 32;

/// Address Linux assigns after NS bind (typical first dynamic endpoint).
pub const ENDPOINT_ADDR: u32 = 0x400;

/// Source address stamped on every datagram.
pub const SOURCE_ADDR: u32 = 0x4000_0001;

/// Shared buffer pool carved from the vdevbuffer DDR region.
pub const POOL_BASE: u32 = 0x5540_0000;

/// Size of one pool slot.
pub const POOL_SLOT: usize = 512;

/// Number of pool slots.
pub const POOL_SLOTS: usize = 8;

/// The write of one value at `base + off` (every field is stored as one
/// 32-bit register write).
pub open spec fn field_write(base: u32, off: int, value: u32) -> RegOp {
    RegOp::Write { addr: (base + off) as usize, value: value }
}

/// The RPMsg header of a datagram of `len` bytes, written at `base`.
pub open spec fn spec_header_ops(base: u32, len: nat) -> Seq<RegOp> {
    seq![
        field_write(base, 0, SOURCE_ADDR),
        field_write(base, 4, ENDPOINT_ADDR),
        field_write(base, 8, 0),
        field_write(base, 12, (len as u16) as u32),
        field_write(base, 14, 0),
    ]
}

/// The writes that lay out a datagram carrying `payload` in the slot at `base`:
/// the header, then each payload byte after it.
pub open spec fn spec_frame_ops(base: u32, payload: Seq<u8>) -> Seq<RegOp> {
    spec_header_ops(base, payload.len()) + Seq::new(
        payload.len(),
        |i: int| field_write(base, RPMSG_HDR_LEN + i, payload[i] as u32),
    )
}

/// Base address of pool slot `slot`.
pub open spec fn slot_base(slot: int) -> u32 {
    (POOL_BASE + slot * POOL_SLOT) as u32
}

/// The name-service payload: the endpoint name (at most 32 bytes) and a NUL.
pub open spec fn announce_payload(name: Seq<u8>) -> Seq<u8> {
    if name.len() <= ENDPOINT_NAME_MAX {
        name + seq![0u8]
    } else {
        name.take(ENDPOINT_NAME_MAX as int) + seq![0u8]
    }
}

fn write_u8(base: u32, off: usize, v: u8) -> (r: RegOp)
    requires
        base + off <= usize::MAX,
    ensures
        r == field_write(base, off as int, v as u32),
{
    RegOp::Write { addr: base as usize + off, value: v as u32 }
}

fn write_u16(base: u32, off: usize, v: u16) -> (r: RegOp)
    requires
        base + off <= usize::MAX,
    ensures
        r == field_write(base, off as int, v as u32),
{
    RegOp::Write { addr: base as usize + off, value: v as u32 }
}

fn write_u32(base: u32, off: usize, v: u32) -> (r: RegOp)
    requires
        base + off <= usize::MAX,
    ensures
        r == field_write(base, off as int, v),
{
    RegOp::Write { addr: base as usize + off, value: v }
}

/// Lay out a datagram carrying `payload` in the slot at `base`.
pub fn write_rpmsg_frame(base: u32, payload: &[u8]) -> (r: Vec<RegOp>)
    requires
        base + RPMSG_HDR_LEN + payload@.len() <= usize::MAX,
    ensures
        r@ == spec_frame_ops(base, payload@),
{
    let mut r = vec![
        write_u32(base, 0, SOURCE_ADDR),
        write_u32(base, 4, ENDPOINT_ADDR),
        write_u32(base, 8, 0),
        write_u16(base, 12, payload.len() as u16),
        write_u16(base, 14, 0),
    ];
    assert(r@ =~= spec_header_ops(base, payload@.len()));
    let mut i: usize = 0;
    while i < payload.len()
        invariant
            i <= payload@.len(),
            base + RPMSG_HDR_LEN + payload@.len() <= usize::MAX,
            r@ == spec_header_ops(base, payload@.len()) + Seq::new(
                i as nat,
                |j: int| field_write(base, RPMSG_HDR_LEN + j, payload@[j] as u32),
            ),
        decreases payload@.len() - i,
    {
        r.push(write_u8(base, RPMSG_HDR_LEN + i, payload[i]));
        i = i + 1;
        assert(r@ =~= spec_header_ops(base, payload@.len()) + Seq::new(
            i as nat,
            |j: int| field_write(base, RPMSG_HDR_LEN + j, payload@[j] as u32),
        ));
    }
    assert(r@ =~= spec_frame_ops(base, payload@));
    r
}

/// Write `k` of the datagram carrying `payload` in the slot at `base` (see
/// [`spec_frame_ops`]): the five header fields, then one write per payload
/// byte. Performing `k = 0, 1, ..., 5 + payload.len() - 1` in turn lays the
/// datagram out without building the whole program.
pub fn frame_op(base: u32, payload: &[u8], k: usize) -> (r: RegOp)
    requires
        base + RPMSG_HDR_LEN + payload@.len() <= usize::MAX,
        k < 5 + payload@.len(),
    ensures
        r == spec_frame_ops(base, payload@)[k as int],
{
    if k == 0 {
        write_u32(base, 0, SOURCE_ADDR)
    } else if k == 1 {
        write_u32(base, 4, ENDPOINT_ADDR)
    } else if k == 2 {
        write_u32(base, 8, 0)
    } else if k == 3 {
        write_u16(base, 12, payload.len() as u16)
    } else if k == 4 {
        write_u16(base, 14, 0)
    } else {
        write_u8(base, RPMSG_HDR_LEN + (k - 5), payload[k - 5])
    }
}

/// Announce the endpoint to Linux `rpmsg_ns`: its name, NUL-terminated, laid
/// out in the last pool slot. The host is then kicked (best effort).
pub fn announce_endpoint() -> (r: Vec<RegOp>)
    ensures
        r@ == spec_frame_ops(slot_base(POOL_SLOTS - 1), announce_payload(ENDPOINT_NAME.spec_bytes())),
{
    let name = ENDPOINT_NAME.as_bytes();
    let name_len = if name.len() < ENDPOINT_NAME_MAX {
        name.len()
    } else {
        ENDPOINT_NAME_MAX
    };
    let mut frame: Vec<u8> = Vec::new();
    let mut i: usize = 0;
    while i < name_len
        invariant
            name_len <= name@.len(),
            name_len <= ENDPOINT_NAME_MAX,
            i <= name_len,
            frame@ == name@.take(i as int),
        decreases name_len - i,
    {
        frame.push(name[i]);
        i = i + 1;
        assert(frame@ =~= name@.take(i as int));
    }
    frame.push(0u8);
    proof {
        if name@.len() <= ENDPOINT_NAME_MAX {
            assert(name@.take(name_len as int) =~= name@);
        }
        assert(frame@ =~= announce_payload(ENDPOINT_NAME.spec_bytes()));
    }
    let base = POOL_BASE + (POOL_SLOT as u32) * (POOL_SLOTS as u32 - 1);
    write_rpmsg_frame(base, frame.as_slice())
}

/// A change of a publisher's state.
#[derive(Debug, Clone, Copy, PartialEq, Eq, Structural)]
pub enum TxEvent {
    /// A bring-up attempt with the vring addresses read from the resource table.
    Init(u32, u32),
    /// A datagram the host was notified of.
    Delivered,
}

/// A publisher's state after `e`, from `state` (ready, sent count, next slot).
pub open spec fn tx_step(state: (bool, u16, int), e: TxEvent) -> (bool, u16, int) {
    match e {
        TxEvent::Init(v0, v1) => (state.0 || (v0 != ADDR_ANY && v1 != ADDR_ANY), state.1, state.2),
        TxEvent::Delivered => (state.0, state.1.wrapping_add(1), (state.2 + 1) % (POOL_SLOTS as int)),
    }
}

/// A publisher's state after the events of `h`, in order, from `state`.
pub open spec fn tx_run(state: (bool, u16, int), h: Seq<TxEvent>) -> (bool, u16, int)
    decreases h.len(),
{
    if h.len() == 0 {
        state
    } else {
        tx_step(tx_run(state, h.drop_last()), h.last())
    }
}

/// How many datagrams of `h` the host was notified of.
pub open spec fn delivered_count(h: Seq<TxEvent>) -> nat
    decreases h.len(),
{
    if h.len() == 0 {
        0
    } else {
        delivered_count(h.drop_last()) + if h.last() == TxEvent::Delivered {
            1nat
        } else {
            0nat
        }
    }
}

/// Whether some bring-up attempt of `h` found both vrings assigned.
pub open spec fn brought_up(h: Seq<TxEvent>) -> bool
    decreases h.len(),
{
    if h.len() == 0 {
        false
    } else {
        brought_up(h.drop_last()) || (h.last() matches TxEvent::Init(v0, v1) && v0 != ADDR_ANY
            && v1 != ADDR_ANY)
    }
}

/// One-way RPMsg publisher to Linux.
pub struct RpmsgTx {
    ready: bool,
    seq: u16,
    slot: usize,
}

impl RpmsgTx {
    #[verifier::type_invariant]
    spec fn inv(self) -> bool {
        self.slot < POOL_SLOTS
    }

    /// Whether the virtio transport has been brought up.
    pub closed spec fn is_ready(self) -> bool {
        self.ready
    }

    /// Count of datagrams sent (wraps).
    pub closed spec fn sent(self) -> u16 {
        self.seq
    }

    /// The pool slot the next datagram goes to.
    pub closed spec fn next_slot(self) -> int {
        self.slot as int
    }

    /// The publisher's state: whether it is ready, the sent count, the next slot.
    pub open spec fn model(self) -> (bool, u16, int) {
        (self.is_ready(), self.sent(), self.next_slot())
    }

    /// Idle transport; [`RpmsgTx::init`] completes bring-up.
    pub fn new() -> (r: Self)
        ensures
            !r.is_ready(),
            r.sent() == 0,
            r.next_slot() == 0,
    {
        RpmsgTx { ready: false, seq: 0, slot: 0 }
    }

    /// Whether the virtio transport has been brought up.
    pub fn ready(&self) -> (r: bool)
        ensures
            r == self.is_ready(),
    {
        self.ready
    }

    /// Complete virtio bring-up once Linux has patched the vring addresses
    /// (`vring0`, `vring1` read from the resource table). Returns whether
    /// bring-up happens now: then the status byte is to be set to DRIVER_OK
    /// and the endpoint announced ([`announce_endpoint`]).
    pub fn init(&mut self, vring0: u32, vring1: u32) -> (start: bool)
        ensures
            final(self).model() == tx_step(old(self).model(), TxEvent::Init(vring0, vring1)),
            start == (!old(self).is_ready() && vring0 != ADDR_ANY && vring1 != ADDR_ANY),
            final(self).is_ready() == (old(self).is_ready() || start),
            final(self).sent() == old(self).sent(),
            final(self).next_slot() == old(self).next_slot(),
    {
        proof {
            use_type_invariant(&*self);
        }
        if self.ready {
            return false;
        }
        if vring0 == ADDR_ANY || vring1 == ADDR_ANY {
            return false;
        }
        self.ready = true;
        true
    }

    /// Send `payload` to Linux: first retry bring-up if the transport is not
    /// up yet (`vring0`, `vring1` read from the resource table; see
    /// [`RpmsgTx::init`]), then pick the slot for the next datagram. Returns
    /// whether bring-up happened now (then the status byte is to be set to
    /// DRIVER_OK and the endpoint announced, before the datagram), and the
    /// base of the slot to lay the datagram out in with [`frame_op`]: `None` if
    /// the transport is still not ready or the datagram does not fit a pool
    /// slot. After the writes the host is kicked and, if the kick went
    /// through, [`RpmsgTx::delivered`] is called.
    pub fn send(&mut self, vring0: u32, vring1: u32, payload: &[u8]) -> (r: (bool, Option<u32>))
        ensures
            final(self).model() == tx_step(old(self).model(), TxEvent::Init(vring0, vring1)),
            r.0 == (!old(self).is_ready() && vring0 != ADDR_ANY && vring1 != ADDR_ANY),
            0 <= final(self).next_slot() < POOL_SLOTS,
            !final(self).is_ready() || payload@.len() + RPMSG_HDR_LEN > POOL_SLOT ==> r.1 is None,
            final(self).is_ready() && payload@.len() + RPMSG_HDR_LEN <= POOL_SLOT ==> r.1 == Some(
                slot_base(final(self).next_slot()),
            ),
            r.1 matches Some(base) ==> base + RPMSG_HDR_LEN + payload@.len() <= POOL_BASE
                + POOL_SLOTS * POOL_SLOT,
    {
        let start = self.init(vring0, vring1);
        proof {
            use_type_invariant(&*self);
        }
        if !self.ready || payload.len() > POOL_SLOT - RPMSG_HDR_LEN {
            return (start, None);
        }
        let slot = self.slot as u32;
        assert(slot * 512 <= 7 * 512) by (nonlinear_arith)
            requires
                slot < 8,
        ;
        (start, Some(POOL_BASE + slot * (POOL_SLOT as u32)))
    }

    /// Record a datagram the host was notified of: advance to the next pool
    /// slot and count it.
    pub fn delivered(&mut self)
        ensures
            final(self).model() == tx_step(old(self).model(), TxEvent::Delivered),
            final(self).is_ready() == old(self).is_ready(),
            final(self).next_slot() == (old(self).next_slot() + 1) % (POOL_SLOTS as int),
            final(self).sent() == old(self).sent().wrapping_add(1),
    {
        proof {
            use_type_invariant(&*self);
        }
        self.slot = (self.slot + 1) % POOL_SLOTS;
        self.seq = self.seq.wrapping_add(1);
    }

    /// Count of datagrams sent (wraps).
    pub fn sequence(&self) -> (r: u16)
        ensures
            r == self.sent(),
    {
        self.seq
    }

    /// The pool slot the next datagram goes to: always one of the pool's slots.
    pub fn slot(&self) -> (r: usize)
        ensures
            r == self.next_slot(),
            r < POOL_SLOTS,
    {
        proof {
            use_type_invariant(self);
        }
        self.slot
    }
}

/// Every datagram slot lies inside the pool, and a slot's datagram (header and
/// at most a slot's worth of payload) never reaches into the next slot.
pub proof fn law_slots_disjoint(slot: int, len: nat)
    requires
        0 <= slot < POOL_SLOTS,
        len + RPMSG_HDR_LEN <= POOL_SLOT,
    ensures
        POOL_BASE <= slot_base(slot),
        slot_base(slot) + RPMSG_HDR_LEN + len <= slot_base(slot) + POOL_SLOT,
        slot_base(slot) + POOL_SLOT <= POOL_BASE + POOL_SLOTS * POOL_SLOT,
{
}

/// Over any history from a fresh publisher ([`RpmsgTx::new`]): the sequence
/// count is the number of datagrams the host was notified of, wrapping at
/// 2^16; datagrams go to the pool slots in turn; and the transport is ready
/// exactly when some bring-up attempt found both vrings assigned.
pub proof fn law_sequence_history(h: Seq<TxEvent>)
    ensures
        tx_run((false, 0, 0), h).1 == (delivered_count(h) % 0x1_0000) as u16,
        tx_run((false, 0, 0), h).2 == (delivered_count(h) as int) % (POOL_SLOTS as int),
        tx_run((false, 0, 0), h).0 == brought_up(h),
    decreases h.len(),
{
    if h.len() > 0 {
        law_sequence_history(h.drop_last());
        if h.last() == TxEvent::Delivered {
            lemma_count_step(delivered_count(h) as int);
        }
    }
}

proof fn lemma_count_step(k: int)
    requires
        k >= 1,
    ensures
        (k - 1) % 0x1_0000 + 1 > u16::MAX ==> k % 0x1_0000 == 0,
        (k - 1) % 0x1_0000 + 1 <= u16::MAX ==> k % 0x1_0000 == (k - 1) % 0x1_0000 + 1,
        ((k - 1) % 8 + 1) % 8 == k % 8,
{
}

/// The RPMsg datagram layout in a pool slot at `base`: source address
/// `0x4000_0001` at offset 0, destination endpoint `0x400` at 4, reserved
/// zero at 8, the payload length at 12, zero flags at 14, then payload byte
/// `i` at offset `16 + i`, in that order.
pub proof fn law_datagram_layout(base: u32, p: Seq<u8>)
    requires
        p.len() + RPMSG_HDR_LEN <= POOL_SLOT,
    ensures
        ({
            let ops = spec_frame_ops(base, p);
            &&& ops.len() == 5 + p.len()
            &&& ops[0] == RegOp::Write { addr: (base + 0) as usize, value: 0x4000_0001 }
            &&& ops[1] == RegOp::Write { addr: (base + 4) as usize, value: 0x400 }
            &&& ops[2] == RegOp::Write { addr: (base + 8) as usize, value: 0 }
            &&& ops[3] == RegOp::Write { addr: (base + 12) as usize, value: p.len() as u32 }
            &&& ops[4] == RegOp::Write { addr: (base + 14) as usize, value: 0 }
            &&& forall|i: int|
                0 <= i < p.len() ==> #[trigger] ops[5 + i] == RegOp::Write {
                    addr: (base + 16 + i) as usize,
                    value: p[i] as u32,
                }
        }),
{
    assert((p.len() as u16) as u32 == p.len() as u32);
}

} // verus!
