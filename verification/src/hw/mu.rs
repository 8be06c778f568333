//! MU1 mailbox doorbell for virtio RPMsg kicks (A53 ↔ M7).

use vstd::prelude::*;

use super::reg::{RegOp, MU1_BASE};

verus! {

/// MU transmit register for channel 0 (M7 → A53 kick).
pub const MU_TR0: usize = MU1_BASE + 0x20;

/// MU control/status register for channel 0.
pub const MU_CSR0: usize = MU1_BASE + 0x10;

/// Transmit empty flag in CSR.
pub const MU_CSR_TE: u32 = 1 << 23;

/// Bounded polls of the MU TX register before giving up. Prevents a stalled or
/// absent A53 from hanging the caller forever — critical on the safety loop,
/// whose heartbeat must keep running exactly when Linux is down.
pub const KICK_TIMEOUT_SPINS: u32 = 100_000;

/// What to do after reading the MU control/status register once.
#[derive(Debug, Clone, Copy, PartialEq, Eq, Structural)]
pub enum Kick {
    /// The transmit register is empty: write the doorbell ([`doorbell`]) and report success.
    Ring,
    /// Still busy: read the status register again; this many polls have failed so far.
    Wait(u32),
    /// The mailbox never drained (host stalled/down): drop the notification.
    GiveUp,
}

/// The decision `kick_host` takes on one read of `MU_CSR0`, after `spins`
/// earlier reads found the transmit register full.
pub open spec fn spec_kick(spins: u32, csr0: u32) -> Kick {
    if csr0 & MU_CSR_TE != 0 {
        Kick::Ring
    } else if spins + 1 >= KICK_TIMEOUT_SPINS {
        Kick::GiveUp
    } else {
        Kick::Wait((spins + 1) as u32)
    }
}

/// Notify the A53 that the TX virtio vring has a new buffer: one step of the
/// bounded wait for the MU transmit register to drain.
pub fn kick_host(spins: u32, csr0: u32) -> (r: Kick)
    requires
        spins < KICK_TIMEOUT_SPINS,
    ensures
        r == spec_kick(spins, csr0),
{
    if csr0 & MU_CSR_TE != 0 {
        Kick::Ring
    } else if spins + 1 >= KICK_TIMEOUT_SPINS {
        Kick::GiveUp
    } else {
        Kick::Wait(spins + 1)
    }
}

/// The doorbell write that signals the host.
pub fn doorbell() -> (r: RegOp)
    ensures
        r == (RegOp::Write { addr: MU_TR0, value: 0 }),
{
    RegOp::Write { addr: MU_TR0, value: 0 }
}

/// The wait is bounded: after [`KICK_TIMEOUT_SPINS`] reads of a full transmit
/// register the kick gives up, and it never asks for a read past that bound.
pub proof fn law_kick_bounded(spins: u32, csr0: u32)
    requires
        spins < KICK_TIMEOUT_SPINS,
    ensures
        spec_kick(spins, csr0) matches Kick::Wait(n) ==> n == spins + 1 && n < KICK_TIMEOUT_SPINS,
        spins + 1 == KICK_TIMEOUT_SPINS && csr0 & MU_CSR_TE == 0 ==> spec_kick(spins, csr0)
            == Kick::GiveUp,
{
}

} // verus!
