//! Fail-operational **heartbeat** to the ECU.
//!
//! 50 Hz liveness frame on `M7_HEARTBEAT` (0x080) so the ECU knows the safety
//! core is alive while Linux reboots or crashes.

use vstd::prelude::*;


verus! {

/// Heartbeat rate: once every N service ticks (200 Hz / 4 = 50 Hz).
pub const TICK_DIVISOR: u8 = 4;

/// The heartbeat payload: the sequence number, then seven zero bytes.
pub open spec fn heartbeat_payload(sequence: u8) -> Seq<u8> {
    seq![sequence, 0u8, 0u8, 0u8, 0u8, 0u8, 0u8, 0u8]
}

/// Periodic ECU heartbeat emitter.
pub struct Heartbeat {
    sequence: u8,
    tick: u8,
}

impl Heartbeat {
    /// Sequence number of the last heartbeat sent.
    pub closed spec fn sequence(self) -> u8 {
        self.sequence
    }

    /// Service ticks counted (wrapping).
    pub closed spec fn ticks(self) -> u8 {
        self.tick
    }

    /// Heartbeat state starting at sequence 0.
    pub fn new() -> (r: Self)
        ensures
            r.sequence() == 0,
            r.ticks() == 0,
    {
        Heartbeat { sequence: 0, tick: 0 }
    }

    /// Count one service tick; on every fourth, advance the sequence number and
    /// return the heartbeat frame's payload, to be sent on [`crate::message::M7_HEARTBEAT`]
    /// with [`super::SafetyBus::transmit`].
    pub fn tick(&mut self) -> (r: Option<[u8; 8]>)
        ensures
            (final(self).sequence(), final(self).ticks()) == tick_step((old(self).sequence(), old(self).ticks())),
            final(self).ticks() == old(self).ticks().wrapping_add(1),
            final(self).ticks() % TICK_DIVISOR != 0 ==> r is None && final(self).sequence() == old(self).sequence(),
            final(self).ticks() % TICK_DIVISOR == 0 ==> final(self).sequence() == old(self).sequence().wrapping_add(1) && (r matches Some(p) && p@ == heartbeat_payload(final(self).sequence())),
    {
        self.tick = self.tick.wrapping_add(1);
        if self.tick % TICK_DIVISOR != 0 {
            return None;
        }
        self.sequence = self.sequence.wrapping_add(1);
        let payload = [self.sequence, 0, 0, 0, 0, 0, 0, 0];
        assert(payload@ =~= heartbeat_payload(self.sequence));
        Some(payload)
    }
}

/// The heartbeat state (sequence number, tick count) after one service tick
/// from `state`: the tick count advances, and on every fourth tick the
/// sequence number too (both wrapping).
pub open spec fn tick_step(state: (u8, u8)) -> (u8, u8) {
    let t = state.1.wrapping_add(1);
    (
        if t % TICK_DIVISOR == 0 {
            state.0.wrapping_add(1)
        } else {
            state.0
        },
        t,
    )
}

/// The heartbeat state after `n` service ticks from [`Heartbeat::new`].
pub open spec fn ticks_from_new(n: nat) -> (u8, u8)
    decreases n,
{
    if n == 0 {
        (0, 0)
    } else {
        tick_step(ticks_from_new((n - 1) as nat))
    }
}

/// Heartbeats sent during the first `n` service ticks from [`Heartbeat::new`].
pub open spec fn heartbeats_sent(n: nat) -> nat
    decreases n,
{
    if n == 0 {
        0
    } else {
        heartbeats_sent((n - 1) as nat) + if ticks_from_new(n).1 % TICK_DIVISOR == 0 {
            1nat
        } else {
            0nat
        }
    }
}

proof fn lemma_tick_arith(n: int)
    requires
        n >= 1,
    ensures
        (n - 1) % 256 + 1 > 255 ==> n % 256 == 0,
        (n - 1) % 256 + 1 <= 255 ==> n % 256 == (n - 1) % 256 + 1,
        (n % 256) % 4 == n % 4,
        n % 4 == 0 ==> n / 4 == (n - 1) / 4 + 1,
        n % 4 != 0 ==> n / 4 == (n - 1) / 4,
        ((n - 1) / 4) % 256 + 1 > 255 ==> ((n - 1) / 4 + 1) % 256 == 0,
        ((n - 1) / 4) % 256 + 1 <= 255 ==> ((n - 1) / 4 + 1) % 256 == ((n - 1) / 4) % 256 + 1,
{
}

/// Over any number of service ticks from a fresh heartbeat: after `n` ticks
/// the tick count is `n` and the sequence number `n / 4` (both wrapping), the
/// heartbeat went out exactly `n / 4` times, on the ticks that are multiples of
/// four, so the `k`-th heartbeat (sent on tick `4k`) carries `k mod 256` in
/// the first byte of its payload and zero in the other seven.
pub proof fn law_heartbeat_history(n: nat)
    ensures
        ticks_from_new(n) == (((n / 4) % 256) as u8, (n % 256) as u8),
        heartbeats_sent(n) == n / 4,
        n > 0 ==> (ticks_from_new(n).1 % TICK_DIVISOR == 0) == (n % 4 == 0),
        heartbeat_payload(ticks_from_new(n).0).len() == 8,
        heartbeat_payload(ticks_from_new(n).0)[0] == (n / 4) % 256,
        forall|i: int| 1 <= i < 8 ==> #[trigger] heartbeat_payload(ticks_from_new(n).0)[i] == 0,
    decreases n,
{
    if n > 0 {
        law_heartbeat_history((n - 1) as nat);
        lemma_tick_arith(n as int);
    }
}

/// Whether a heartbeat goes out on the tick that brings the counter to `t`.
pub open spec fn emits(t: u8) -> int {
    if t % TICK_DIVISOR == 0 {
        1
    } else {
        0
    }
}

/// The heartbeat goes out exactly once in every four consecutive service ticks,
/// also across the wrap-around of the tick counter (256 is a multiple of 4).
pub proof fn law_heartbeat_cadence(t: u8)
    ensures
        emits(t.wrapping_add(1)) + emits(t.wrapping_add(1).wrapping_add(1)) + emits(
            t.wrapping_add(1).wrapping_add(1).wrapping_add(1),
        ) + emits(t.wrapping_add(1).wrapping_add(1).wrapping_add(1).wrapping_add(1)) == 1,
{
}

} // verus!
