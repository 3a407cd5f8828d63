use vstd::prelude::*;
use crate::text::{lossy_text, lossy_text_of};

verus! {

/// One inbound frame as handed to the consumer: the raw bytes and a lossy
/// UTF-8 reading of the same bytes.
#[derive(Clone, Debug)]
pub struct BleNotification {
    pub data: Vec<u8>,
    pub data_string: String,
}

impl BleNotification {
    /// `true` when this event is the faithful rendering of `frame`.
    pub open spec fn renders(self, frame: Seq<u8>) -> bool {
        &&& self.data@ == frame
        &&& self.data_string@ == lossy_text_of(frame)
    }

    /// Builds the event for one frame; the bytes are kept verbatim.
    pub fn from_frame(frame: Vec<u8>) -> (r: BleNotification)
        ensures
            r.renders(frame@),
    {
        let data_string = lossy_text(frame.as_slice());
        BleNotification { data: frame, data_string }
    }
}

/// Maps frames one for one, in arrival order, to notification events.
pub fn notifications_from_frames(frames: Vec<Vec<u8>>) -> (r: Vec<BleNotification>)
    ensures
        r@.len() == frames@.len(),
        forall|i: int| 0 <= i < frames@.len() ==> #[trigger] r@[i].renders(frames@[i]@),
{
    let mut r: Vec<BleNotification> = Vec::new();
    let mut i: usize = 0;
    while i < frames.len()
        invariant
            i <= frames@.len(),
            r@.len() == i,
            forall|k: int| 0 <= k < i ==> #[trigger] r@[k].renders(frames@[k]@),
        decreases frames@.len() - i,
    {
        let frame = frames[i].clone();
        r.push(BleNotification::from_frame(frame));
        i = i + 1;
    }
    r
}

} // verus!
