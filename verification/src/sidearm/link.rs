//! **RPMsg / OpenAMP** gateway to the A53 Linux side.
//!
//! Publishes [`M7Signals`] snapshots on the `sigma-m7-signals` virtio endpoint
//! for `sigma-racer-vehicle` to consume.

use vstd::prelude::*;

use crate::hw::rpmsg::{slot_base, POOL_SLOTS};
use crate::hw::RpmsgTx;
use crate::signals::M7Signals;
use crate::wire::{encode as encode_wire, packet_bytes};

verus! {

/// RPMsg endpoint publishing state to the Linux cluster.
pub struct RpmsgLink {
    tx: RpmsgTx,
}

impl RpmsgLink {
    /// Whether the transport to Linux is up.
    pub closed spec fn is_ready(self) -> bool {
        self.tx.is_ready()
    }

    /// Snapshots handed to Linux so far (wrapping): the next one's sequence number.
    pub closed spec fn sent(self) -> u16 {
        self.tx.sent()
    }

    /// The pool slot the next snapshot goes to.
    pub closed spec fn next_slot(self) -> int {
        self.tx.next_slot()
    }

    /// The link, with the transport brought up if Linux has already assigned
    /// the vrings (`vring0`, `vring1` read from the resource table). Returns
    /// whether bring-up happened (see [`RpmsgTx::init`]).
    pub fn new(vring0: u32, vring1: u32) -> (r: (Self, bool))
        ensures
            r.1 == (vring0 != crate::hw::rsc_table::ADDR_ANY && vring1
                != crate::hw::rsc_table::ADDR_ANY),
            r.0.is_ready() == r.1,
            r.0.sent() == 0,
            r.0.next_slot() == 0,
    {
        let mut tx = RpmsgTx::new();
        let start = tx.init(vring0, vring1);
        (RpmsgLink { tx }, start)
    }

    /// Retry bring-up of the transport (see [`RpmsgTx::init`]).
    pub fn init(&mut self, vring0: u32, vring1: u32) -> (start: bool)
        ensures
            start == (!old(self).is_ready() && vring0 != crate::hw::rsc_table::ADDR_ANY && vring1
                != crate::hw::rsc_table::ADDR_ANY),
            final(self).is_ready() == (old(self).is_ready() || start),
            final(self).sent() == old(self).sent(),
            final(self).next_slot() == old(self).next_slot(),
    {
        self.tx.init(vring0, vring1)
    }

    /// Publish the latest vehicle state to Linux: retry bring-up of the
    /// transport if it is not up yet (`vring0`, `vring1` read from the
    /// resource table), then encode the wire packet of `state`, numbered with
    /// the transport's sequence count. Returns whether bring-up happened now
    /// and, while the transport is up, the slot base and the packet to lay out
    /// there with [`crate::hw::rpmsg::frame_op`]; see [`RpmsgTx::send`].
    pub fn publish(&mut self, vring0: u32, vring1: u32, state: &M7Signals) -> (r: (
        bool,
        Option<(u32, [u8; 60])>,
    ))
        ensures
            r.0 == (!old(self).is_ready() && vring0 != crate::hw::rsc_table::ADDR_ANY && vring1
                != crate::hw::rsc_table::ADDR_ANY),
            final(self).is_ready() == (old(self).is_ready() || r.0),
            final(self).sent() == old(self).sent(),
            final(self).next_slot() == old(self).next_slot(),
            0 <= final(self).next_slot() < POOL_SLOTS,
            !final(self).is_ready() ==> r.1 is None,
            final(self).is_ready() ==> (r.1 matches Some((base, packet)) && base == slot_base(
                old(self).next_slot(),
            ) && packet@ == packet_bytes(old(self).sent(), *state)),
    {
        let seq = self.tx.sequence();
        let mut packet = [0u8; 60];
        let _ = encode_wire(seq, state, &mut packet);
        proof {
            crate::wire::law_packet_len(seq, *state);
        }
        assert(packet@ =~= packet_bytes(seq, *state));
        let (start, base) = self.tx.send(vring0, vring1, packet.as_slice());
        match base {
            Some(b) => (start, Some((b, packet))),
            None => (start, None),
        }
    }

    /// The pool slot the next snapshot goes to: always one of the pool's slots.
    pub fn slot(&self) -> (r: usize)
        ensures
            r == self.next_slot(),
            r < POOL_SLOTS,
    {
        self.tx.slot()
    }

    /// Record that the host was notified of the last published snapshot.
    pub fn delivered(&mut self)
        ensures
            final(self).is_ready() == old(self).is_ready(),
            final(self).next_slot() == (old(self).next_slot() + 1) % 8,
            final(self).sent() == old(self).sent().wrapping_add(1),
    {
        self.tx.delivered()
    }
}

} // verus!
