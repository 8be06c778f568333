//! Fail-operational **supervisor**: watchdog and load-shed anchor.

use vstd::prelude::*;

verus! {

/// Supervisor bookkeeping: control-loop iterations since boot and the
/// `embassy-time` millis (truncated to 32 bits) at the last kick.
#[derive(Debug, Clone, Copy, PartialEq, Eq, Structural)]
pub struct Supervisor {
    pub loop_count: u32,
    pub last_kick_ms: u32,
}

/// A supervisor that has not run yet.
pub fn boot() -> (r: Supervisor)
    ensures
        r == (Supervisor { loop_count: 0, last_kick_ms: 0 }),
{
    Supervisor { loop_count: 0, last_kick_ms: 0 }
}

/// The supervisor after one service at time `now_ms`.
pub open spec fn spec_service(state: Supervisor, now_ms: u64) -> Supervisor {
    Supervisor { loop_count: state.loop_count.wrapping_add(1), last_kick_ms: now_ms as u32 }
}

/// The supervisor after one service at each of `times`, in order.
pub open spec fn services(state: Supervisor, times: Seq<u64>) -> Supervisor
    decreases times.len(),
{
    if times.len() == 0 {
        state
    } else {
        spec_service(services(state, times.drop_last()), times.last())
    }
}

/// Periodic supervisor service, called once per control-loop iteration (5 ms)
/// at time `now_ms`: count the iteration and record the kick.
pub fn service(state: &mut Supervisor, now_ms: u64)
    ensures
        *final(state) == spec_service(*old(state), now_ms),
        final(state).loop_count == old(state).loop_count.wrapping_add(1),
        final(state).last_kick_ms == now_ms as u32,
{
    state.loop_count = state.loop_count.wrapping_add(1);
    state.last_kick_ms = now_ms as u32;
}

/// Milliseconds since the last successful supervisor kick, at time `now_ms`
/// (zero if the 32-bit clock reads earlier than the kick).
pub fn millis_since_kick(state: &Supervisor, now_ms: u64) -> (r: u32)
    ensures
        r == (if (now_ms as u32) >= state.last_kick_ms {
            ((now_ms as u32) - state.last_kick_ms) as u32
        } else {
            0
        }),
{
    let now = now_ms as u32;
    if now >= state.last_kick_ms {
        now - state.last_kick_ms
    } else {
        0
    }
}

/// Control-loop iterations since boot (diagnostic).
pub fn loop_count(state: &Supervisor) -> (r: u32)
    ensures
        r == state.loop_count,
{
    state.loop_count
}

/// Right after a kick, no time has passed since it.
pub proof fn law_kick_resets_elapsed(now_ms: u64)
    ensures
        ({
            let s = Supervisor { loop_count: 0, last_kick_ms: now_ms as u32 };
            (if (now_ms as u32) >= s.last_kick_ms {
                ((now_ms as u32) - s.last_kick_ms) as u32
            } else {
                0
            }) == 0
        }),
{
}

/// Over any run of services: the loop count grows by one per service
/// (wrapping at 2^32), and the last kick is the time of the last service.
pub proof fn law_loop_count_history(state: Supervisor, times: Seq<u64>)
    ensures
        services(state, times).loop_count == ((state.loop_count + times.len()) % 0x1_0000_0000) as u32,
        times.len() > 0 ==> services(state, times).last_kick_ms == times.last() as u32,
        times.len() == 0 ==> services(state, times) == state,
    decreases times.len(),
{
    if times.len() > 0 {
        law_loop_count_history(state, times.drop_last());
        let k = times.len() as int;
        let c = state.loop_count as int;
        assert(((c + k - 1) % 0x1_0000_0000) + 1 > u32::MAX ==> (c + k) % 0x1_0000_0000 == 0);
        assert(((c + k - 1) % 0x1_0000_0000) + 1 <= u32::MAX ==> (c + k) % 0x1_0000_0000 == (c + k
            - 1) % 0x1_0000_0000 + 1);
    }
}

} // verus!
