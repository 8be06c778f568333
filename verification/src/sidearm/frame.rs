//! A received safety-bus CAN frame.

use vstd::prelude::*;

verus! {

/// A received classic/FD CAN frame (up to 8 bytes of the payload used here).
#[derive(Clone, Copy, Debug)]
pub struct Frame {
    pub id: u32,
    data: [u8; 8],
    len: usize,
}

/// The first `min(len, 8)` bytes of `data`: what a frame built from them keeps.
pub open spec fn truncated(data: Seq<u8>) -> Seq<u8> {
    if data.len() <= 8 {
        data
    } else {
        data.take(8)
    }
}

impl Frame {
    /// Frames are only built by [`Frame::new`], which keeps at most 8 bytes.
    pub closed spec fn wf(&self) -> bool {
        self.len <= 8
    }

    /// The frame's identifier.
    pub closed spec fn frame_id(&self) -> u32 {
        self.id
    }

    /// The valid payload bytes of this frame.
    pub closed spec fn bytes(&self) -> Seq<u8> {
        self.data@.take(self.len as int)
    }

    /// Frame from raw id + payload (truncated to 8 bytes).
    pub fn new(id: u32, data: &[u8]) -> (r: Self)
        ensures
            r.wf(),
            r.frame_id() == id,
            r.bytes() == truncated(data@),
    {
        let mut buf = [0u8; 8];
        let len = if data.len() < 8 {
            data.len()
        } else {
            8
        };
        let mut i: usize = 0;
        while i < len
            invariant
                len <= 8,
                len <= data@.len(),
                i <= len,
                forall|j: int| 0 <= j < i ==> #[trigger] buf@[j] == data@[j],
            decreases len - i,
        {
            buf[i] = data[i];
            i = i + 1;
        }
        let r = Frame { id, data: buf, len };
        assert(r.bytes() =~= truncated(data@));
        r
    }

    /// The valid payload bytes for this frame.
    pub fn payload(&self) -> (r: &[u8])
        requires
            self.wf(),
        ensures
            r@ == self.bytes(),
    {
        vstd::slice::slice_subrange(self.data.as_slice(), 0, self.len)
    }
}

} // verus!
