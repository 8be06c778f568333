//! CAN-FD **safety bus** endpoint to the ECU (`sigma-racer-efi`).
//!
//! The M7 owns FLEXCAN1 on Verdin SODIMM 20/22. Linux `flexcan1` must be
//! disabled in the HMP overlay so only the M7 touches the transceiver.

use vstd::prelude::*;

use crate::hw::flexcan::{
    program_ops, rx_step, spec_drain_model, spec_drain_next, spec_drain_prog,
    spec_init_controller, spec_mb_code, spec_pinmux_can1, spec_rx_frame_ok, spec_tx_next,
    spec_tx_prog, tx_phase_ok, DrainPhase, PollNext, Program, RxEvent, RxLatch, TxPhase,
    CODE_RX_OVERRUN, STD_ID_MASK,
};
use crate::hw::{FlexCan1, RegOp, RxFrame};

use super::frame::Frame;

verus! {

/// Owns the M7's safety-bus CAN-FD controller.
pub struct SafetyBus {
    can: FlexCan1,
}

/// `f` is the safety-bus view of received frame `rx`: its identifier and its
/// valid payload bytes.
pub open spec fn frame_of(rx: RxFrame, f: Frame) -> bool {
    &&& f.wf()
    &&& f.frame_id() == rx.id
    &&& f.bytes() == rx.data@.take(rx.len as int)
}

impl SafetyBus {
    /// Frames received from the controller and not yet polled, oldest first.
    pub closed spec fn queued(self) -> Seq<RxFrame> {
        self.can.queued()
    }

    /// Frames the controller lost (wrapping count).
    pub closed spec fn lost(self) -> u32 {
        self.can.lost()
    }

    /// Bring up FLEXCAN1 and the decode state: an empty receive queue, and the
    /// controller's bring-up program to perform (see [`FlexCan1::new`]).
    pub fn new() -> (r: (Self, Vec<RegOp>))
        ensures
            r.0.queued() == Seq::<RxFrame>::empty(),
            r.0.lost() == 0,
            r.1@ == spec_pinmux_can1() + spec_init_controller(),
    {
        let (can, ops) = FlexCan1::new();
        (SafetyBus { can }, ops)
    }

    /// The receive side's state: the queued frames and the lost count.
    pub open spec fn rx_model(self) -> (Seq<RxFrame>, u32) {
        (self.queued(), self.lost())
    }

    /// Take the next queued frame, if any, with its standard identifier and its
    /// (at most 8) payload bytes: the last step of [`SafetyBus::poll`].
    pub fn pop(&mut self) -> (r: Option<Frame>)
        ensures
            old(self).queued().len() == 0 ==> r is None,
            old(self).queued().len() > 0 ==> (r matches Some(f) && frame_of(old(self).queued()[0], f)),
            final(self).rx_model() == rx_step(old(self).rx_model(), RxEvent::Poll),
            r matches Some(f) ==> f.frame_id() <= STD_ID_MASK && f.bytes().len() <= 8,
    {
        match self.can.pop() {
            None => None,
            Some(rx) => {
                let data = vstd::slice::slice_subrange(rx.data.as_slice(), 0, rx.len);
                Some(Frame::new(rx.id, data))
            },
        }
    }

    /// One step of a non-blocking receive: drain the controller's receive
    /// buffer, given `value` read from [`crate::hw::flexcan::drain_addr`]`(phase)` (see
    /// [`FlexCan1::drain_step`]), then hand out the next queued frame. A
    /// receive starts in [`DrainPhase::Flag`].
    pub fn poll(&mut self, phase: DrainPhase, value: u32) -> (r: (Program, PollNext<Frame>))
        ensures
            program_ops(r.0) == spec_drain_prog(phase, value),
            spec_drain_next(phase, value) matches Some(p) ==> r.1 == PollNext::<Frame>::Read(p)
                && spec_drain_model(old(self).rx_model(), final(self).rx_model(), phase, value),
            spec_drain_next(phase, value) is None ==> exists|mid: (Seq<RxFrame>, u32)|
                spec_drain_model(old(self).rx_model(), mid, phase, value) && final(self).rx_model()
                    == rx_step(mid, RxEvent::Poll) && (mid.0.len() == 0 ==> r.1
                    == PollNext::<Frame>::Done(None)) && (mid.0.len() > 0 ==> (r.1 matches PollNext::Done(Some(f)) && frame_of(
                    mid.0[0],
                    f,
                ))),
    {
        let (prog, next) = self.can.drain_step(phase, value);
        match next {
            Some(p) => (prog, PollNext::Read(p)),
            None => {
                let f = self.pop();
                (prog, PollNext::Done(f))
            },
        }
    }

    /// One step of sending a frame on the safety bus, given `value` read from
    /// [`crate::hw::flexcan::tx_addr`]`(phase)` (see [`FlexCan1::transmit`]). A transmission starts
    /// in `TxPhase::Drain(DrainPhase::Flag)`.
    pub fn transmit(&mut self, id: u32, payload: &[u8], phase: TxPhase, value: u32) -> (r: (
        Program,
        Option<TxPhase>,
    ))
        requires
            tx_phase_ok(phase),
        ensures
            program_ops(r.0) == spec_tx_prog(id, payload@, phase, value),
            r.1 == spec_tx_next(phase, value),
            r.1 matches Some(p) ==> tx_phase_ok(p),
            phase matches TxPhase::Drain(d) ==> spec_drain_model(
                old(self).rx_model(),
                final(self).rx_model(),
                d,
                value,
            ),
            !(phase is Drain) ==> final(self).rx_model() == old(self).rx_model(),
    {
        self.can.transmit(id, payload, phase, value)
    }

    /// Account for the receive buffer's control/status word (see [`FlexCan1::drain_hw`]).
    pub fn drain_hw(&mut self, cs: u32) -> (r: RxLatch)
        ensures
            final(self).queued() == old(self).queued(),
            final(self).lost() == (if spec_mb_code(cs) == CODE_RX_OVERRUN {
                old(self).lost().wrapping_add(1)
            } else {
                old(self).lost()
            }),
            r == (if (spec_mb_code(cs) == crate::hw::flexcan::CODE_RX_FULL || spec_mb_code(cs)
                == CODE_RX_OVERRUN) && cs & crate::hw::flexcan::MB_CS_IDE == 0 {
                RxLatch::ReadFrame
            } else {
                RxLatch::Release
            }),
    {
        self.can.drain_hw(cs)
    }

    /// Queue the frame read from the receive buffer (see [`FlexCan1::store_frame`]).
    pub fn store_frame(&mut self, cs: u32, id_word: u32, w0: u32, w1: u32)
        ensures
            old(self).queued().len() < 7 ==> final(self).lost() == old(self).lost() && final(self).queued().len() == old(self).queued().len() + 1 && final(self).queued().drop_last()
                == old(self).queued() && spec_rx_frame_ok(
                cs,
                id_word,
                w0,
                w1,
                final(self).queued().last(),
            ),
            old(self).queued().len() >= 7 ==> final(self).queued() == old(self).queued() && final(self).lost() == old(self).lost().wrapping_add(1),
    {
        self.can.store_frame(cs, id_word, w0, w1)
    }

    /// Count of RX frames lost to controller overruns or a full software queue.
    pub fn dropped(&self) -> (r: u32)
        ensures
            r == self.lost(),
    {
        self.can.dropped()
    }
}

} // verus!
