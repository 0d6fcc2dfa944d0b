//! Frame sink: the format commitment of one kernel video-output binding and
//! the exact-copy discipline of its buffer writes. The device hands out
//! worst-case-sized buffers; a frame write must fill exactly the payload's
//! bytes at the start of the slot and report that length, and must leave the
//! rest of the slot alone, or the consumer's view of the frame is corrupted.

use crate::format::SinkFormat;
use crate::media::Codec;
use vstd::pervasive::VecAdditionalExecFns;
use vstd::prelude::*;

verus! {

/// The per-slot record the consumer reads the true frame boundary from.
#[derive(Clone, Copy, Debug, PartialEq, Eq, Structural)]
pub struct SlotMeta {
    /// How many bytes of the slot hold valid image data.
    pub bytesused: u32,
    /// The field marker; this bridge always writes progressive frames.
    pub field: u32,
}

/// Copy `payload` to the start of a writable buffer slot and report its
/// exact length. The remainder of the oversized slot is left untouched.
pub fn fill_slot(slot: &mut Vec<u8>, payload: &Vec<u8>) -> (meta: SlotMeta)
    requires
        payload@.len() <= old(slot)@.len(),
        payload@.len() <= u32::MAX,
    ensures
        final(slot)@.len() == old(slot)@.len(),
        final(slot)@.subrange(0, payload@.len() as int) == payload@,
        final(slot)@.skip(payload@.len() as int) == old(slot)@.skip(payload@.len() as int),
        meta.bytesused == payload@.len(),
        meta.field == 0,
{
    let n: usize = payload.len();
    let mut i: usize = 0;
    while i < n
        invariant
            i <= n,
            n == payload@.len(),
            n <= slot@.len(),
            slot@.len() == old(slot)@.len(),
            forall|k: int| 0 <= k < i ==> slot@[k] == payload@[k],
            forall|k: int| i <= k < slot@.len() ==> slot@[k] == old(slot)@[k],
        decreases n - i,
    {
        slot.set(i, payload[i]);
        i = i + 1;
    }
    proof {
        assert(slot@.subrange(0, n as int) =~= payload@);
        assert(slot@.skip(n as int) =~= old(slot)@.skip(n as int));
    }
    SlotMeta { bytesused: n as u32, field: 0 }
}

/// One kernel video-output binding's committed format. The binding may only
/// be configured with a fully known format, and a frame may only be written
/// while the committed codec matches the frame's.
pub struct FrameSink {
    pub committed: Option<SinkFormat>,
}

impl FrameSink {
    /// A fresh sink has no format committed and accepts no frame.
    pub fn new() -> (s: FrameSink)
        ensures
            s.committed is None,
    {
        FrameSink { committed: None }
    }

    /// Commit (or re-commit) the sink's format. Only a complete format can
    /// be passed, so a partially-specified sink cannot exist.
    pub fn set_format(&mut self, format: SinkFormat)
        ensures
            final(self).committed == Some(format),
    {
        self.committed = Some(format);
    }

    /// Write one frame into a writable slot the device handed out. The
    /// format must already be committed for the frame's codec; the write
    /// copies exactly the payload's bytes and reports exactly its length.
    pub fn deliver(&self, codec: Codec, payload: &Vec<u8>, slot: &mut Vec<u8>) -> (meta: SlotMeta)
        requires
            self.committed matches Some(f) && f.codec == codec,
            payload@.len() <= old(slot)@.len(),
            payload@.len() <= u32::MAX,
        ensures
            final(slot)@.len() == old(slot)@.len(),
            final(slot)@.subrange(0, payload@.len() as int) == payload@,
            final(slot)@.skip(payload@.len() as int) == old(slot)@.skip(payload@.len() as int),
            meta.bytesused == payload@.len(),
            meta.field == 0,
    {
        fill_slot(slot, payload)
    }
}

} // verus!
